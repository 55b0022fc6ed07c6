//! Small helpers for plugins: file extensions, mention detection, per-user
//! data paths and content hashes.

use vstd::prelude::*;
use vstd::string::StrSliceExecFns;
use std::collections::HashMap;
use crate::napcat::at_code;

verus! {

/// The name of what `std::path::Path::extension` finds in a path's text:
/// the text after the last dot of the final component, if any.
pub uninterp spec fn extension_of(path: Seq<char>) -> Option<Seq<char>>;

/// The name of what `str::to_lowercase` makes of a text.
pub uninterp spec fn lowercase_of(text: Seq<char>) -> Seq<char>;

/// The name of the MD5 digest of some bytes, written as 32 lowercase hex
/// digits.
pub uninterp spec fn md5_hex_of(content: Seq<u8>) -> Seq<char>;

/// `needle` occurs in `haystack` as a contiguous run.
pub open spec fn occurs_in(needle: Seq<char>, haystack: Seq<char>) -> bool {
    exists|i: int|
        0 <= i && i + needle.len() <= haystack.len() && #[trigger] haystack.subrange(i, i + needle.len()) == needle
}

/// Relies on `Path::extension` and `OsStr::to_str`: the extension of the
/// path's final component, where it has one that is valid UTF-8 (always, for
/// a path made from a `&str`).
#[verifier::external_body]
fn path_extension(path: &str) -> (r: Option<String>)
    ensures
        r is Some <==> extension_of(path@) is Some,
        r is Some ==> r->Some_0@ == extension_of(path@)->Some_0,
{
    std::path::Path::new(path).extension().and_then(|ext| ext.to_str()).map(|ext| ext.to_string())
}

/// Relies on `str::to_lowercase`: the lowercase form depends on the text
/// alone.
#[verifier::external_body]
fn lowercase(text: &str) -> (r: String)
    ensures
        r@ == lowercase_of(text@),
{
    text.to_lowercase()
}

/// Whether `needle` occurs in `haystack` as a contiguous run of characters.
pub fn contains_text(haystack: &str, needle: &str) -> (r: bool)
    ensures
        r == occurs_in(needle@, haystack@),
{
    let h = haystack.unicode_len();
    let n = needle.unicode_len();
    if n > h {
        return false;
    }
    let mut i: usize = 0;
    while i <= h - n
        invariant
            h == haystack@.len(),
            n == needle@.len(),
            n <= h,
            i <= h - n + 1,
            forall|j: int| 0 <= j < i ==> !(#[trigger] haystack@.subrange(j, j + n as int) == needle@),
        decreases h - n + 1 - i,
    {
        let mut k: usize = 0;
        let mut same = true;
        while k < n && same
            invariant
                h == haystack@.len(),
                n == needle@.len(),
                i + n <= h,
                k <= n,
                same ==> forall|m: int| 0 <= m < k ==> haystack@[i + m] == needle@[m],
                !same ==> k > 0 && haystack@[i + k - 1] != needle@[k - 1],
            decreases n - k + (if same { 1int } else { 0int }),
        {
            if haystack.get_char(i + k) != needle.get_char(k) {
                same = false;
            }
            k = k + 1;
        }
        if same {
            assert(haystack@.subrange(i as int, i + n as int) =~= needle@);
            return true;
        }
        assert(haystack@.subrange(i as int, i + n as int)[k - 1] != needle@[k - 1]);
        i = i + 1;
    }
    proof {
        assert forall|j: int| 0 <= j && j + n <= h implies !(#[trigger] haystack@.subrange(j, j + n as int) == needle@) by {
            assert(j < i);
        }
    }
    false
}

/// Relies on the md-5 crate's `Md5::digest`, printed with `{:x}`: the
/// digest of the bytes as lowercase hex.
#[verifier::external_body]
fn md5_hex(content: &Vec<u8>) -> (r: String)
    ensures
        r@ == md5_hex_of(content@),
{
    format!("{:x}", <md5::Md5 as md5::Digest>::digest(content.as_slice()))
}

/// The extension of a path, in lowercase; `None` where the final component
/// has none.
pub fn get_file_extension(path: &str) -> (r: Option<String>)
    ensures
        r is Some <==> extension_of(path@) is Some,
        r is Some ==> r->Some_0@ == lowercase_of(extension_of(path@)->Some_0),
{
    match path_extension(path) {
        Some(ext) => Some(lowercase(ext.as_str())),
        None => None,
    }
}

/// Whether a message mentions the bot `bot_id`.
pub fn at_check(message: &str, bot_id: &str) -> (r: bool)
    ensures
        r == occurs_in(at_code(bot_id@), message@),
{
    let mut code = String::from_str("[CQ:at,qq=");
    code.append(bot_id);
    code.append("]");
    contains_text(message, code.as_str())
}

/// The per-user data files of a group member, keyed by their role: the
/// user's own data, and the group's priority and frozen-account lists.
pub fn data_paths(group_id: &str, user_id: &str) -> (r: Vec<(String, String)>)
    ensures
        r@.len() == 3,
        r@[0].0@ == "USER_DATA_PATH"@,
        r@[0].1@ == "data/users/"@ + group_id@ + "/"@ + user_id@ + ".ini"@,
        r@[1].0@ == "ADMIN_PRIORITY_PATH"@,
        r@[1].1@ == "data/admin/"@ + group_id@ + "/priority.ini"@,
        r@[2].0@ == "ADMIN_FROZEN_PATH"@,
        r@[2].1@ == "data/admin/"@ + group_id@ + "/frozen.ini"@,
{
    let mut user_data = String::from_str("data/users/");
    user_data.append(group_id);
    user_data.append("/");
    user_data.append(user_id);
    user_data.append(".ini");
    let mut priority = String::from_str("data/admin/");
    priority.append(group_id);
    priority.append("/priority.ini");
    let mut frozen = String::from_str("data/admin/");
    frozen.append(group_id);
    frozen.append("/frozen.ini");
    let mut r: Vec<(String, String)> = Vec::new();
    r.push((String::from_str("USER_DATA_PATH"), user_data));
    r.push((String::from_str("ADMIN_PRIORITY_PATH"), priority));
    r.push((String::from_str("ADMIN_FROZEN_PATH"), frozen));
    r
}

/// The per-user data files of a group member as a map from role to path.
pub fn data_path_check(group_id: &str, user_id: &str) -> HashMap<String, String> {
    let entries = data_paths(group_id, user_id);
    let mut paths: HashMap<String, String> = HashMap::new();
    let mut i: usize = 0;
    while i < entries.len()
        invariant
            i <= entries.len(),
        decreases entries.len() - i,
    {
        paths.insert(entries[i].0.clone(), entries[i].1.clone());
        i = i + 1;
    }
    paths
}

/// The value that a stored setting reads as: the value found, unless it is
/// missing or empty, in which case the default.
pub open spec fn setting_or_default(found: Option<Seq<char>>, default_value: Seq<char>) -> Seq<char> {
    match found {
        Some(v) => if v.len() > 0 { v } else { default_value },
        None => default_value,
    }
}

/// The value of a stored setting: `found` is what the settings file holds
/// for it (`None` where its section or its key is missing).
pub fn setting_value(found: Option<String>, default_value: &str) -> (r: String)
    ensures
        r@ == setting_or_default(
            match found {
                Some(v) => Some(v@),
                None => None,
            },
            default_value@,
        ),
{
    match found {
        Some(v) => if v.as_str().is_empty() { String::from_str(default_value) } else { v },
        None => String::from_str(default_value),
    }
}

/// The hash by which two downloads of a file are compared.
pub fn content_hash(content: &Vec<u8>) -> (r: String)
    ensures
        r@ == md5_hex_of(content@),
{
    md5_hex(content)
}

/// Whether two contents have the same MD5 hash, as the image cache decides
/// whether a fresh download replaces the stored file.
pub fn same_content(local: &Vec<u8>, remote: &Vec<u8>) -> (r: bool)
    ensures
        r == (md5_hex_of(local@) == md5_hex_of(remote@)),
{
    let local_hash = md5_hex(local);
    let remote_hash = md5_hex(remote);
    local_hash == remote_hash
}

} // verus!
