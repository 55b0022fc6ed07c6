use std::sync::Arc;

use luo9_sdk::config::{Config, HttpConfig, NapCatConfig};
use luo9_sdk::napcat::{
    group_ai_record_request, group_at_request, group_files_by_folder_request, group_image_request,
    group_message_request, group_poke_request, group_root_files_request, private_message_request,
    settle_listing, settle_send, upload_group_file_request, BackendRequest, HttpReply, NapCat,
};
use luo9_sdk::{ApiError, ApiManager, ApiTrait, Value};

fn config(enable: bool, host: &str, port: u16) -> Config {
    let side = HttpConfig { enable: true, host: host.to_string(), port, token: "tok".to_string() };
    Config {
        napcat: NapCatConfig { enable, http_servers: side.clone(), http_clients: side },
        path: "/srv/bot".to_string(),
        bot_id: 1,
        master: 2,
        group_list: vec![],
        bilibili_live_push_list: vec![],
        festival_push_list: vec![],
        tudou_live_id: 0,
        ai_voice_type: String::new(),
    }
}

fn pairs(request: &BackendRequest) -> Vec<(&str, &str)> {
    request.params.iter().map(|(k, v)| (k.as_str(), v.as_str())).collect()
}

#[test]
fn gateway_without_backend_is_a_configuration_error() {
    let value = Arc::new(Value::new(&config(false, "http://localhost", 3000)));
    assert!(matches!(ApiManager::new(value), Err(ApiError::NoBackendEnabled)));
}

#[test]
fn gateway_with_reference_backend_is_built() {
    let value = Arc::new(Value::new(&config(true, "http://localhost", 3000)));
    let gateway = ApiManager::new(value).expect("backend enabled");
    let copy = gateway.clone();
    drop(copy);
}

#[test]
fn send_group_text_request() {
    let r = group_message_request("http://localhost:3000", "tok", "100", "hi");
    assert_eq!(r.url, "http://localhost:3000/send_group_msg");
    assert_eq!(pairs(&r), vec![("group_id", "100"), ("message", "hi"), ("access_token", "tok")]);
}

#[test]
fn send_group_at_request_uses_mention_code() {
    let r = group_at_request("http://localhost:3000", "tok", "100", "555");
    assert_eq!(r.url, "http://localhost:3000/send_group_at");
    assert_eq!(pairs(&r), vec![("group_id", "100"), ("message", "[CQ:at,qq=555]"), ("access_token", "tok")]);
}

#[test]
fn send_private_text_request() {
    let r = private_message_request("http://h:1", "t", "42", "yo");
    assert_eq!(r.url, "http://h:1/send_private_msg");
    assert_eq!(pairs(&r), vec![("user_id", "42"), ("message", "yo"), ("access_token", "t")]);
}

#[test]
fn send_group_ai_record_request_fields() {
    let r = group_ai_record_request("http://h:1", "t", "100", "lucy", "hello");
    assert_eq!(r.url, "http://h:1/send_group_ai_record");
    assert_eq!(
        pairs(&r),
        vec![("group_id", "100"), ("character", "lucy"), ("text", "hello"), ("access_token", "t")]
    );
}

#[test]
fn send_group_image_request_uses_image_code() {
    let r = group_image_request("http://h:1", "t", "100", "file:///a.png");
    assert_eq!(r.url, "http://h:1/send_group_msg");
    assert_eq!(
        pairs(&r),
        vec![("group_id", "100"), ("message", "[CQ:image,file=file:///a.png]"), ("access_token", "t")]
    );
}

#[test]
fn upload_group_file_request_fields() {
    let r = upload_group_file_request("http://h:1", "t", "100", "/tmp/a.txt", "a.txt", "/f1");
    assert_eq!(r.url, "http://h:1/upload_group_file");
    assert_eq!(
        pairs(&r),
        vec![("group_id", "100"), ("file", "/tmp/a.txt"), ("name", "a.txt"), ("folder_id", "/f1"), ("access_token", "t")]
    );
}

#[test]
fn send_group_poke_request_fields() {
    let r = group_poke_request("http://h:1", "t", "100", "9");
    assert_eq!(r.url, "http://h:1/send_group_poke");
    assert_eq!(pairs(&r), vec![("group_id", "100"), ("user_id", "9"), ("access_token", "t")]);
}

#[test]
fn list_folder_request_fields() {
    let r = group_files_by_folder_request("http://h:1", "t", "100", "/f1", 50);
    assert_eq!(r.url, "http://h:1/get_group_files_by_folder");
    assert_eq!(
        pairs(&r),
        vec![("group_id", "100"), ("folder_id", "/f1"), ("file_count", "50"), ("access_token", "t")]
    );
    let negative = group_files_by_folder_request("http://h:1", "t", "100", "/f1", -3);
    assert_eq!(negative.params[2].1, "-3");
}

#[test]
fn list_root_request_fields() {
    let r = group_root_files_request("http://h:1", "t", "100");
    assert_eq!(r.url, "http://h:1/get_group_root_files");
    assert_eq!(pairs(&r), vec![("group_id", "100"), ("access_token", "t")]);
}

#[test]
fn send_outcome_follows_status() {
    let ok: Result<HttpReply, ()> = Ok(HttpReply { status: 200, body: String::new() });
    assert_eq!(settle_send(ok), Ok(()));
    let created: Result<HttpReply, ()> = Ok(HttpReply { status: 204, body: String::new() });
    assert_eq!(settle_send(created), Ok(()));
    let missing: Result<HttpReply, ()> = Ok(HttpReply { status: 404, body: String::new() });
    assert_eq!(settle_send(missing), Err(ApiError::Transport { status: Some(404) }));
    let redirect: Result<HttpReply, ()> = Ok(HttpReply { status: 302, body: String::new() });
    assert_eq!(settle_send(redirect), Err(ApiError::Transport { status: Some(302) }));
    let unreachable: Result<HttpReply, ()> = Err(());
    assert_eq!(settle_send(unreachable), Err(ApiError::Transport { status: None }));
}

#[test]
fn listing_outcome_reserializes_json() {
    let ok: Result<HttpReply, ()> = Ok(HttpReply { status: 200, body: "{ \"files\" : [ 1, 2 ] }".to_string() });
    assert_eq!(settle_listing(ok), Ok("{\"files\":[1,2]}".to_string()));
    let bad: Result<HttpReply, ()> = Ok(HttpReply { status: 200, body: "not json".to_string() });
    assert_eq!(settle_listing(bad), Err(ApiError::MalformedBody));
    let failed: Result<HttpReply, ()> = Ok(HttpReply { status: 500, body: "{}".to_string() });
    assert_eq!(settle_listing(failed), Err(ApiError::Transport { status: Some(500) }));
    let unreachable: Result<HttpReply, ()> = Err(());
    assert_eq!(settle_listing(unreachable), Err(ApiError::Transport { status: None }));
}

#[test]
fn unreachable_backend_is_a_transport_error() {
    // Port 9 on the loopback interface refuses connections.
    let backend = NapCat::new("http://127.0.0.1:9".to_string(), "tok".to_string()).expect("scheduler");
    assert_eq!(backend.send_group_message("100", "hi"), Err(ApiError::Transport { status: None }));
    assert_eq!(backend.get_group_root_files("100"), Err(ApiError::Transport { status: None }));
}

#[test]
fn gateway_call_from_a_single_thread_scheduler_does_not_panic() {
    let value = Arc::new(Value::new(&config(true, "http://127.0.0.1", 9)));
    let gateway = ApiManager::new(value).expect("backend enabled");
    let outer = tokio::runtime::Builder::new_current_thread().enable_all().build().unwrap();
    let sent = outer.block_on(async { gateway.send_group_message("100", "hi") });
    assert_eq!(sent, Err(ApiError::Transport { status: None }));
    let listed = outer.block_on(async { gateway.get_group_root_files("100") });
    assert_eq!(listed, Err(ApiError::Transport { status: None }));
    drop(outer);
}

#[test]
fn gateway_call_from_a_multi_thread_task_does_not_panic() {
    let value = Arc::new(Value::new(&config(true, "http://127.0.0.1", 9)));
    let gateway = ApiManager::new(value).expect("backend enabled");
    let outer = tokio::runtime::Builder::new_multi_thread().worker_threads(2).enable_all().build().unwrap();
    let sent = outer.block_on(async { gateway.send_group_message("100", "hi") });
    assert_eq!(sent, Err(ApiError::Transport { status: None }));
    let task_gateway = gateway.clone();
    let listed = outer
        .block_on(outer.spawn(async move { task_gateway.get_group_root_files("100") }))
        .unwrap();
    assert_eq!(listed, Err(ApiError::Transport { status: None }));
}

#[test]
fn gateway_call_from_a_local_set_on_the_main_future_does_not_panic() {
    let value = Arc::new(Value::new(&config(true, "http://127.0.0.1", 9)));
    let gateway = ApiManager::new(value).expect("backend enabled");
    let outer = tokio::runtime::Builder::new_multi_thread().worker_threads(2).enable_all().build().unwrap();
    let local = tokio::task::LocalSet::new();
    let sent = outer.block_on(local.run_until(async { gateway.send_group_at("100", "555") }));
    assert_eq!(sent, Err(ApiError::Transport { status: None }));
}
