use luo9_sdk::utils::{at_check, contains_text, content_hash, data_path_check, data_paths, get_file_extension, same_content, setting_value};

#[test]
fn file_extension_is_lowercased() {
    assert_eq!(get_file_extension("pics/Cat.PNG"), Some("png".to_string()));
    assert_eq!(get_file_extension("archive.tar.gz"), Some("gz".to_string()));
    assert_eq!(get_file_extension("README"), None);
    assert_eq!(get_file_extension(".bashrc"), None);
    assert_eq!(get_file_extension(""), None);
}

#[test]
fn mention_of_the_bot_is_found() {
    assert!(at_check("hello [CQ:at,qq=10001] there", "10001"));
    assert!(!at_check("hello [CQ:at,qq=10002] there", "10001"));
    assert!(!at_check("", "10001"));
}

#[test]
fn data_paths_of_a_member() {
    let paths = data_paths("100", "555");
    assert_eq!(paths[0], ("USER_DATA_PATH".to_string(), "data/users/100/555.ini".to_string()));
    assert_eq!(paths[1], ("ADMIN_PRIORITY_PATH".to_string(), "data/admin/100/priority.ini".to_string()));
    assert_eq!(paths[2], ("ADMIN_FROZEN_PATH".to_string(), "data/admin/100/frozen.ini".to_string()));
    let map = data_path_check("100", "555");
    assert_eq!(map.len(), 3);
    assert_eq!(map["USER_DATA_PATH"], "data/users/100/555.ini");
    assert_eq!(map["ADMIN_FROZEN_PATH"], "data/admin/100/frozen.ini");
}

#[test]
fn content_hash_is_md5_hex() {
    assert_eq!(content_hash(&Vec::new()), "d41d8cd98f00b204e9800998ecf8427e");
    assert_eq!(content_hash(&b"abc".to_vec()), "900150983cd24fb0d6963f7d28e17f72");
}

#[test]
fn same_content_compares_hashes() {
    assert!(same_content(&b"image".to_vec(), &b"image".to_vec()));
    assert!(!same_content(&b"image".to_vec(), &b"other".to_vec()));
}

#[test]
fn setting_value_falls_back_to_default() {
    assert_eq!(setting_value(Some("是".to_string()), "否"), "是");
    assert_eq!(setting_value(Some(String::new()), "否"), "否");
    assert_eq!(setting_value(None, "否"), "否");
}

#[test]
fn contains_text_edge_cases() {
    assert!(contains_text("abc", ""));
    assert!(contains_text("", ""));
    assert!(!contains_text("ab", "abc"));
    assert!(contains_text("aab", "ab"));
    assert!(contains_text("冻结账号是", "账号"));
    assert!(!contains_text("冻结账号", "号是"));
    assert!(at_check("前缀[CQ:at,qq=10001]", "10001"));
}
