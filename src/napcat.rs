//! The reference backend: a HTTP bot server that takes each action as a POST
//! to `{base_url}/<action>` with its fields, and the access token, in the
//! query string.

use vstd::prelude::*;
use crate::api::{ApiError, ApiTrait};
use std::sync::Arc;
use crate::scheduler::run_on_blocking_pool;
use crate::text::{i32_text, int_text};

verus! {

#[verifier::external_type_specification]
#[verifier::external_body]
pub struct ExRuntime(tokio::runtime::Runtime);

#[verifier::external_type_specification]
#[verifier::external_body]
pub struct ExReqwestError(reqwest::Error);

#[verifier::external_type_specification]
#[verifier::external_body]
pub struct ExIoError(std::io::Error);

#[verifier::external_type_specification]
#[verifier::external_body]
pub struct ExResponse(reqwest::Response);

/// One request to the backend: the full URL and the query parameters, in
/// the order in which they are sent.
pub struct BackendRequest {
    pub url: String,
    pub params: Vec<(String, String)>,
}

/// The query parameters of a request as text.
pub open spec fn params_view(params: Seq<(String, String)>) -> Seq<(Seq<char>, Seq<char>)> {
    params.map_values(|p: (String, String)| (p.0@, p.1@))
}

impl BackendRequest {
    pub open spec fn url_view(&self) -> Seq<char> {
        self.url@
    }

    pub open spec fn params_view(&self) -> Seq<(Seq<char>, Seq<char>)> {
        params_view(self.params@)
    }
}

/// What the server answered: its status code and its body text.
pub struct HttpReply {
    pub status: u16,
    pub body: String,
}

/// The URL of an action under the base URL.
pub open spec fn action_url(base_url: Seq<char>, action: Seq<char>) -> Seq<char> {
    base_url + seq!['/'] + action
}

/// A status code in the success class.
pub open spec fn is_success(status: u16) -> bool {
    200 <= status && status < 300
}

/// The message text that mentions a user.
pub open spec fn at_code(qq: Seq<char>) -> Seq<char> {
    "[CQ:at,qq="@ + qq + "]"@
}

/// The message text that shows an image.
pub open spec fn image_code(file: Seq<char>) -> Seq<char> {
    "[CQ:image,file="@ + file + "]"@
}

fn action_endpoint(base_url: &str, action: &str) -> (r: String)
    ensures
        r@ == action_url(base_url@, action@),
{
    let mut url = String::from_str(base_url);
    url.append("/");
    url.append(action);
    proof {
        reveal_strlit("/");
    }
    url
}

fn param(key: &str, value: &str) -> (r: (String, String))
    ensures
        r.0@ == key@,
        r.1@ == value@,
{
    (String::from_str(key), String::from_str(value))
}

fn with_token(params: &mut Vec<(String, String)>, access_token: &str)
    ensures
        params_view(final(params)@) == params_view(old(params)@).push(("access_token"@, access_token@)),
{
    params.push(param("access_token", access_token));
    proof {
        assert(params_view(final(params)@) =~= params_view(old(params)@).push(("access_token"@, access_token@)));
    }
}

/// The request of `action` with `fields`, followed by the access token.
fn request(base_url: &str, access_token: &str, action: &str, fields: Vec<(String, String)>) -> (r: BackendRequest)
    ensures
        r.url_view() == action_url(base_url@, action@),
        r.params_view() == params_view(fields@).push(("access_token"@, access_token@)),
{
    let mut params = fields;
    with_token(&mut params, access_token);
    BackendRequest { url: action_endpoint(base_url, action), params }
}

fn tagged(prefix: &str, body: &str, suffix: &str) -> (r: String)
    ensures
        r@ == prefix@ + body@ + suffix@,
{
    let mut text = String::from_str(prefix);
    text.append(body);
    text.append(suffix);
    text
}

/// The request that sends a text message to a group.
pub fn group_message_request(base_url: &str, access_token: &str, group_id: &str, message: &str) -> (r: BackendRequest)
    ensures
        r.url_view() == action_url(base_url@, "send_group_msg"@),
        r.params_view() == seq![("group_id"@, group_id@), ("message"@, message@), ("access_token"@, access_token@)],
{
    let mut fields: Vec<(String, String)> = Vec::new();
    fields.push(param("group_id", group_id));
    fields.push(param("message", message));
    let r = request(base_url, access_token, "send_group_msg", fields);
    assert(r.params_view() =~= seq![("group_id"@, group_id@), ("message"@, message@), ("access_token"@, access_token@)]);
    r
}

/// The request that sends a text message to one user.
pub fn private_message_request(base_url: &str, access_token: &str, user_id: &str, message: &str) -> (r: BackendRequest)
    ensures
        r.url_view() == action_url(base_url@, "send_private_msg"@),
        r.params_view() == seq![("user_id"@, user_id@), ("message"@, message@), ("access_token"@, access_token@)],
{
    let mut fields: Vec<(String, String)> = Vec::new();
    fields.push(param("user_id", user_id));
    fields.push(param("message", message));
    let r = request(base_url, access_token, "send_private_msg", fields);
    assert(r.params_view() =~= seq![("user_id"@, user_id@), ("message"@, message@), ("access_token"@, access_token@)]);
    r
}

/// The request that has `text` spoken in a group with the voice `character`.
pub fn group_ai_record_request(
    base_url: &str,
    access_token: &str,
    group_id: &str,
    character: &str,
    text: &str,
) -> (r: BackendRequest)
    ensures
        r.url_view() == action_url(base_url@, "send_group_ai_record"@),
        r.params_view() == seq![
            ("group_id"@, group_id@),
            ("character"@, character@),
            ("text"@, text@),
            ("access_token"@, access_token@),
        ],
{
    let mut fields: Vec<(String, String)> = Vec::new();
    fields.push(param("group_id", group_id));
    fields.push(param("character", character));
    fields.push(param("text", text));
    let r = request(base_url, access_token, "send_group_ai_record", fields);
    assert(r.params_view() =~= seq![
        ("group_id"@, group_id@),
        ("character"@, character@),
        ("text"@, text@),
        ("access_token"@, access_token@),
    ]);
    r
}

/// The request that mentions the user `qq` in a group.
pub fn group_at_request(base_url: &str, access_token: &str, group_id: &str, qq: &str) -> (r: BackendRequest)
    ensures
        r.url_view() == action_url(base_url@, "send_group_at"@),
        r.params_view() == seq![("group_id"@, group_id@), ("message"@, at_code(qq@)), ("access_token"@, access_token@)],
{
    let message = tagged("[CQ:at,qq=", qq, "]");
    let mut fields: Vec<(String, String)> = Vec::new();
    fields.push(param("group_id", group_id));
    fields.push((String::from_str("message"), message));
    let r = request(base_url, access_token, "send_group_at", fields);
    assert(r.params_view() =~= seq![("group_id"@, group_id@), ("message"@, at_code(qq@)), ("access_token"@, access_token@)]);
    r
}

/// The request that shows the image `file` in a group.
pub fn group_image_request(base_url: &str, access_token: &str, group_id: &str, file: &str) -> (r: BackendRequest)
    ensures
        r.url_view() == action_url(base_url@, "send_group_msg"@),
        r.params_view() == seq![("group_id"@, group_id@), ("message"@, image_code(file@)), ("access_token"@, access_token@)],
{
    let message = tagged("[CQ:image,file=", file, "]");
    let mut fields: Vec<(String, String)> = Vec::new();
    fields.push(param("group_id", group_id));
    fields.push((String::from_str("message"), message));
    let r = request(base_url, access_token, "send_group_msg", fields);
    assert(r.params_view() =~= seq![("group_id"@, group_id@), ("message"@, image_code(file@)), ("access_token"@, access_token@)]);
    r
}

/// The request that uploads `file` under the name `name` into a folder of a
/// group's file area.
pub fn upload_group_file_request(
    base_url: &str,
    access_token: &str,
    group_id: &str,
    file: &str,
    name: &str,
    folder_id: &str,
) -> (r: BackendRequest)
    ensures
        r.url_view() == action_url(base_url@, "upload_group_file"@),
        r.params_view() == seq![
            ("group_id"@, group_id@),
            ("file"@, file@),
            ("name"@, name@),
            ("folder_id"@, folder_id@),
            ("access_token"@, access_token@),
        ],
{
    let mut fields: Vec<(String, String)> = Vec::new();
    fields.push(param("group_id", group_id));
    fields.push(param("file", file));
    fields.push(param("name", name));
    fields.push(param("folder_id", folder_id));
    let r = request(base_url, access_token, "upload_group_file", fields);
    assert(r.params_view() =~= seq![
        ("group_id"@, group_id@),
        ("file"@, file@),
        ("name"@, name@),
        ("folder_id"@, folder_id@),
        ("access_token"@, access_token@),
    ]);
    r
}

/// The request that pokes the user `user_id` in a group.
pub fn group_poke_request(base_url: &str, access_token: &str, group_id: &str, user_id: &str) -> (r: BackendRequest)
    ensures
        r.url_view() == action_url(base_url@, "send_group_poke"@),
        r.params_view() == seq![("group_id"@, group_id@), ("user_id"@, user_id@), ("access_token"@, access_token@)],
{
    let mut fields: Vec<(String, String)> = Vec::new();
    fields.push(param("group_id", group_id));
    fields.push(param("user_id", user_id));
    let r = request(base_url, access_token, "send_group_poke", fields);
    assert(r.params_view() =~= seq![("group_id"@, group_id@), ("user_id"@, user_id@), ("access_token"@, access_token@)]);
    r
}

/// The request that lists up to `file_count` files of a folder of a group.
pub fn group_files_by_folder_request(
    base_url: &str,
    access_token: &str,
    group_id: &str,
    folder_id: &str,
    file_count: i32,
) -> (r: BackendRequest)
    ensures
        r.url_view() == action_url(base_url@, "get_group_files_by_folder"@),
        r.params_view() == seq![
            ("group_id"@, group_id@),
            ("folder_id"@, folder_id@),
            ("file_count"@, int_text(file_count as int)),
            ("access_token"@, access_token@),
        ],
{
    let mut fields: Vec<(String, String)> = Vec::new();
    fields.push(param("group_id", group_id));
    fields.push(param("folder_id", folder_id));
    fields.push((String::from_str("file_count"), i32_text(file_count)));
    let r = request(base_url, access_token, "get_group_files_by_folder", fields);
    assert(r.params_view() =~= seq![
        ("group_id"@, group_id@),
        ("folder_id"@, folder_id@),
        ("file_count"@, int_text(file_count as int)),
        ("access_token"@, access_token@),
    ]);
    r
}

/// The request that lists the files at the root of a group's file area.
pub fn group_root_files_request(base_url: &str, access_token: &str, group_id: &str) -> (r: BackendRequest)
    ensures
        r.url_view() == action_url(base_url@, "get_group_root_files"@),
        r.params_view() == seq![("group_id"@, group_id@), ("access_token"@, access_token@)],
{
    let mut fields: Vec<(String, String)> = Vec::new();
    fields.push(param("group_id", group_id));
    let r = request(base_url, access_token, "get_group_root_files", fields);
    assert(r.params_view() =~= seq![("group_id"@, group_id@), ("access_token"@, access_token@)]);
    r
}

/// The name of what serde_json makes of a text: the text of the JSON value
/// that it parses to, written back in serde_json's compact form, or `None`
/// where the text is not JSON.
pub uninterp spec fn reserialized_json(text: Seq<char>) -> Option<Seq<char>>;

/// Relies on `serde_json::from_str` into a `serde_json::Value` and on that
/// value's `to_string`: the compact text of the parsed value, or `None` where
/// parsing fails. The result depends on the text alone.
#[verifier::external_body]
fn reserialize_json(text: &str) -> (r: Option<String>)
    ensures
        r is Some <==> reserialized_json(text@) is Some,
        r is Some ==> r->Some_0@ == reserialized_json(text@)->Some_0,
{
    serde_json::from_str::<serde_json::Value>(text).ok().map(|v| v.to_string())
}

/// Relies on reqwest's async `Client`: `post(url).query(params).send()`,
/// driven to completion by tokio's `Runtime::block_on` on `rt`: one POST of
/// `request.url` with `request.params` as its query string, and the
/// response, or the error that kept it from coming. Nothing is promised of
/// the outcome: it depends on the network. tokio panics where the calling
/// thread drives a scheduler; the one caller comes here only on a thread of
/// the runtime's blocking pool, which drives none.
#[verifier::external_body]
fn post_once(rt: &tokio::runtime::Runtime, request: &BackendRequest) -> Result<reqwest::Response, reqwest::Error> {
    let client = reqwest::Client::new();
    rt.block_on(client.post(request.url.as_str()).query(&request.params).send())
}

/// Relies on reqwest's `Response::status`: the response's status code.
#[verifier::external_body]
fn status_of(response: &reqwest::Response) -> u16 {
    response.status().as_u16()
}

/// Relies on reqwest's `Response::text`, driven to completion by tokio's
/// `Runtime::block_on` on `rt`: the response's body as text. tokio panics
/// where the calling thread drives a scheduler; the one caller comes here
/// only on a thread of the runtime's blocking pool, which drives none.
#[verifier::external_body]
fn body_text(rt: &tokio::runtime::Runtime, response: reqwest::Response) -> Result<String, reqwest::Error> {
    rt.block_on(response.text())
}

/// Relies on tokio's `Runtime::handle`: a handle of the runtime, through
/// which its blocking pool is reached.
#[verifier::external_body]
fn runtime_handle(rt: &tokio::runtime::Runtime) -> tokio::runtime::Handle {
    rt.handle().clone()
}

/// One exchange with the server, made from a thread that drives no
/// scheduler: the status, and the body where `with_body` asks for it and the
/// status is a success (else the body is left empty).
fn exchange_here(rt: &tokio::runtime::Runtime, request: &BackendRequest, with_body: bool) -> (r: Result<HttpReply, reqwest::Error>)
    ensures
        r is Ok && (!with_body || !is_success(r->Ok_0.status)) ==> r->Ok_0.body@.len() == 0,
{
    match post_once(rt, request) {
        Err(e) => Err(e),
        Ok(response) => {
            let status = status_of(&response);
            if !with_body || !(200 <= status && status < 300) {
                Ok(HttpReply { status, body: String::new() })
            } else {
                match body_text(rt, response) {
                    Err(e) => Err(e),
                    Ok(body) => Ok(HttpReply { status, body }),
                }
            }
        },
    }
}

/// One exchange with the server, made on a thread of the backend's own
/// blocking pool while the calling thread waits, whatever scheduler the
/// calling thread is in. `None` where the result never came back.
fn exchange(rt: &Arc<tokio::runtime::Runtime>, request: BackendRequest, with_body: bool) -> (r: Option<Result<HttpReply, reqwest::Error>>)
    ensures
        r is Some && r->Some_0 is Ok && (!with_body || !is_success(r->Some_0->Ok_0.status))
            ==> r->Some_0->Ok_0.body@.len() == 0,
{
    let pool = runtime_handle(rt);
    let shared = rt.clone();
    run_on_blocking_pool(&pool, move || -> (out: Result<HttpReply, reqwest::Error>)
        ensures
            out is Ok && (!with_body || !is_success(out->Ok_0.status)) ==> out->Ok_0.body@.len() == 0,
        { exchange_here(&shared, &request, with_body) })
}

/// A send-type action's result for one exchange.
fn perform_send(rt: &Arc<tokio::runtime::Runtime>, request: BackendRequest) -> (r: Result<(), ApiError>)
    ensures
        r is Ok || r->Err_0 is Transport || r->Err_0 is SchedulerUnavailable,
{
    match exchange(rt, request, false) {
        Some(outcome) => settle_send(outcome),
        None => Err(ApiError::SchedulerUnavailable),
    }
}

/// A listing action's result for one exchange.
fn perform_listing(rt: &Arc<tokio::runtime::Runtime>, request: BackendRequest) -> (r: Result<String, ApiError>)
    ensures
        r is Ok || r->Err_0 is Transport || r->Err_0 is MalformedBody || r->Err_0 is SchedulerUnavailable,
{
    match exchange(rt, request, true) {
        Some(outcome) => settle_listing(outcome),
        None => Err(ApiError::SchedulerUnavailable),
    }
}

/// Relies on tokio's `Builder::new_current_thread().enable_all().build()`:
/// a single-threaded runtime, or the I/O error that kept it from starting.
#[verifier::external_body]
pub(crate) fn current_thread_runtime() -> (r: Result<tokio::runtime::Runtime, std::io::Error>) {
    tokio::runtime::Builder::new_current_thread().enable_all().build()
}

/// What a send-type action returns for an exchange: success exactly when the
/// server answered with a success status.
pub open spec fn send_outcome(exchange: Result<(u16, Seq<char>), ()>) -> Result<(), ApiError> {
    match exchange {
        Err(_) => Err(ApiError::Transport { status: None }),
        Ok((status, _)) => if is_success(status) {
            Ok(())
        } else {
            Err(ApiError::Transport { status: Some(status) })
        },
    }
}

/// What a listing action returns for an exchange: the reserialized JSON body
/// of a success response.
pub open spec fn listing_outcome(exchange: Result<(u16, Seq<char>), ()>) -> Result<Seq<char>, ApiError> {
    match exchange {
        Err(_) => Err(ApiError::Transport { status: None }),
        Ok((status, body)) => if !is_success(status) {
            Err(ApiError::Transport { status: Some(status) })
        } else {
            match reserialized_json(body) {
                Some(text) => Ok(text),
                None => Err(ApiError::MalformedBody),
            }
        },
    }
}

/// A reply whose status is not a success surfaces as a transport error that
/// carries the status, for a send-type action and for a listing alike; no
/// other attempt is made.
pub proof fn lemma_non_success_is_transport_error(status: u16, body: Seq<char>)
    requires
        !is_success(status),
    ensures
        send_outcome(Ok((status, body))) == Err::<(), ApiError>(ApiError::Transport { status: Some(status) }),
        listing_outcome(Ok((status, body))) == Err::<Seq<char>, ApiError>(ApiError::Transport { status: Some(status) }),
{
}

/// A success reply completes a send-type action.
pub proof fn lemma_success_completes_send(status: u16, body: Seq<char>)
    requires
        is_success(status),
    ensures
        send_outcome(Ok((status, body))) == Ok::<(), ApiError>(()),
{
}

/// An exchange as plain values: the status and body of the reply, or `Err`
/// where no reply came.
pub open spec fn exchange_view<E>(exchange: Result<HttpReply, E>) -> Result<(u16, Seq<char>), ()> {
    match exchange {
        Ok(reply) => Ok((reply.status, reply.body@)),
        Err(_) => Err(()),
    }
}

/// The result of a send-type action, given what came back from the server.
pub fn settle_send<E>(exchange: Result<HttpReply, E>) -> (r: Result<(), ApiError>)
    ensures
        r == send_outcome(exchange_view(exchange)),
{
    match exchange {
        Err(_) => Err(ApiError::Transport { status: None }),
        Ok(reply) => if 200 <= reply.status && reply.status < 300 {
            Ok(())
        } else {
            Err(ApiError::Transport { status: Some(reply.status) })
        },
    }
}

/// The result of a listing action, given what came back from the server.
pub fn settle_listing<E>(exchange: Result<HttpReply, E>) -> (r: Result<String, ApiError>)
    ensures
        match (r, listing_outcome(exchange_view(exchange))) {
            (Ok(text), Ok(expected)) => text@ == expected,
            (Err(e), Err(expected)) => e == expected,
            _ => false,
        },
{
    match exchange {
        Err(_) => Err(ApiError::Transport { status: None }),
        Ok(reply) => if !(200 <= reply.status && reply.status < 300) {
            Err(ApiError::Transport { status: Some(reply.status) })
        } else {
            match reserialize_json(reply.body.as_str()) {
                Some(text) => Ok(text),
                None => Err(ApiError::MalformedBody),
            }
        },
    }
}

/// Sends a text message to a group. One exchange with the
/// server on `rt`, settled by `settle_send`; `SchedulerUnavailable` where the
/// result never came back from the blocking pool.
pub fn send_group_message(
    rt: &Arc<tokio::runtime::Runtime>,
    base_url: &str,
    access_token: &str,
    group_id: &str, message: &str,
) -> (r: Result<(), ApiError>)
    ensures
        r is Ok || r->Err_0 is Transport || r->Err_0 is SchedulerUnavailable,
{
    let request = group_message_request(base_url, access_token, group_id, message);
    perform_send(rt, request)
}

/// Sends a text message to one user. One exchange with the
/// server on `rt`, settled by `settle_send`; `SchedulerUnavailable` where the
/// result never came back from the blocking pool.
pub fn send_private_msg(
    rt: &Arc<tokio::runtime::Runtime>,
    base_url: &str,
    access_token: &str,
    user_id: &str, message: &str,
) -> (r: Result<(), ApiError>)
    ensures
        r is Ok || r->Err_0 is Transport || r->Err_0 is SchedulerUnavailable,
{
    let request = private_message_request(base_url, access_token, user_id, message);
    perform_send(rt, request)
}

/// Has `text` spoken in a group with the voice `character`. One exchange with the
/// server on `rt`, settled by `settle_send`; `SchedulerUnavailable` where the
/// result never came back from the blocking pool.
pub fn send_group_ai_record(
    rt: &Arc<tokio::runtime::Runtime>,
    base_url: &str,
    access_token: &str,
    group_id: &str, character: &str, text: &str,
) -> (r: Result<(), ApiError>)
    ensures
        r is Ok || r->Err_0 is Transport || r->Err_0 is SchedulerUnavailable,
{
    let request = group_ai_record_request(base_url, access_token, group_id, character, text);
    perform_send(rt, request)
}

/// Mentions the user `qq` in a group. One exchange with the
/// server on `rt`, settled by `settle_send`; `SchedulerUnavailable` where the
/// result never came back from the blocking pool.
pub fn send_group_at(
    rt: &Arc<tokio::runtime::Runtime>,
    base_url: &str,
    access_token: &str,
    group_id: &str, qq: &str,
) -> (r: Result<(), ApiError>)
    ensures
        r is Ok || r->Err_0 is Transport || r->Err_0 is SchedulerUnavailable,
{
    let request = group_at_request(base_url, access_token, group_id, qq);
    perform_send(rt, request)
}

/// Shows the image `file` in a group. One exchange with the
/// server on `rt`, settled by `settle_send`; `SchedulerUnavailable` where the
/// result never came back from the blocking pool.
pub fn send_group_image(
    rt: &Arc<tokio::runtime::Runtime>,
    base_url: &str,
    access_token: &str,
    group_id: &str, file: &str,
) -> (r: Result<(), ApiError>)
    ensures
        r is Ok || r->Err_0 is Transport || r->Err_0 is SchedulerUnavailable,
{
    let request = group_image_request(base_url, access_token, group_id, file);
    perform_send(rt, request)
}

/// Uploads `file` under `name` into a folder of a group's file area. One exchange with the
/// server on `rt`, settled by `settle_send`; `SchedulerUnavailable` where the
/// result never came back from the blocking pool.
pub fn upload_group_file(
    rt: &Arc<tokio::runtime::Runtime>,
    base_url: &str,
    access_token: &str,
    group_id: &str, file: &str, name: &str, folder_id: &str,
) -> (r: Result<(), ApiError>)
    ensures
        r is Ok || r->Err_0 is Transport || r->Err_0 is SchedulerUnavailable,
{
    let request = upload_group_file_request(base_url, access_token, group_id, file, name, folder_id);
    perform_send(rt, request)
}

/// Pokes the user `user_id` in a group. One exchange with the
/// server on `rt`, settled by `settle_send`; `SchedulerUnavailable` where the
/// result never came back from the blocking pool.
pub fn send_group_poke(
    rt: &Arc<tokio::runtime::Runtime>,
    base_url: &str,
    access_token: &str,
    group_id: &str, user_id: &str,
) -> (r: Result<(), ApiError>)
    ensures
        r is Ok || r->Err_0 is Transport || r->Err_0 is SchedulerUnavailable,
{
    let request = group_poke_request(base_url, access_token, group_id, user_id);
    perform_send(rt, request)
}

/// Lists up to `file_count` files of a folder of a group, as JSON text. One exchange with the
/// server on `rt`, settled by `settle_listing`; `SchedulerUnavailable` where the
/// result never came back from the blocking pool.
pub fn get_group_files_by_folder(
    rt: &Arc<tokio::runtime::Runtime>,
    base_url: &str,
    access_token: &str,
    group_id: &str, folder_id: &str, file_count: i32,
) -> (r: Result<String, ApiError>)
    ensures
        r is Ok || r->Err_0 is Transport || r->Err_0 is MalformedBody || r->Err_0 is SchedulerUnavailable,
{
    let request = group_files_by_folder_request(base_url, access_token, group_id, folder_id, file_count);
    perform_listing(rt, request)
}

/// Lists the files at the root of a group's file area, as JSON text. One exchange with the
/// server on `rt`, settled by `settle_listing`; `SchedulerUnavailable` where the
/// result never came back from the blocking pool.
pub fn get_group_root_files(
    rt: &Arc<tokio::runtime::Runtime>,
    base_url: &str,
    access_token: &str,
    group_id: &str,
) -> (r: Result<String, ApiError>)
    ensures
        r is Ok || r->Err_0 is Transport || r->Err_0 is MalformedBody || r->Err_0 is SchedulerUnavailable,
{
    let request = group_root_files_request(base_url, access_token, group_id);
    perform_listing(rt, request)
}

/// The reference backend: its endpoint, its access token, and the private
/// single-threaded scheduler on which every action runs to completion.
pub struct NapCat {
    pub rt: Arc<tokio::runtime::Runtime>,
    pub base_url: String,
    pub access_token: String,
}

impl NapCat {
    /// A backend for `base_url` and `access_token`, with a fresh private
    /// scheduler; `SchedulerUnavailable` where that scheduler cannot start.
    pub fn new(base_url: String, access_token: String) -> (r: Result<Self, ApiError>)
        ensures
            r is Ok ==> r->Ok_0.base_url@ == base_url@ && r->Ok_0.access_token@ == access_token@,
            r is Err ==> r->Err_0 == ApiError::SchedulerUnavailable,
    {
        match current_thread_runtime() {
            Ok(rt) => Ok(NapCat { rt: Arc::new(rt), base_url, access_token }),
            Err(_) => Err(ApiError::SchedulerUnavailable),
        }
    }
}


impl ApiTrait for NapCat {
    fn send_group_message(&self, group_id: &str, message: &str) -> (r: Result<(), ApiError>) {
        send_group_message(&self.rt, self.base_url.as_str(), self.access_token.as_str(), group_id, message)
    }

    fn send_private_msg(&self, user_id: &str, message: &str) -> (r: Result<(), ApiError>) {
        send_private_msg(&self.rt, self.base_url.as_str(), self.access_token.as_str(), user_id, message)
    }

    fn send_group_ai_record(&self, group_id: &str, voice: &str, message: &str) -> (r: Result<(), ApiError>) {
        send_group_ai_record(&self.rt, self.base_url.as_str(), self.access_token.as_str(), group_id, voice, message)
    }

    fn send_group_at(&self, group_id: &str, qq: &str) -> (r: Result<(), ApiError>) {
        send_group_at(&self.rt, self.base_url.as_str(), self.access_token.as_str(), group_id, qq)
    }

    fn send_group_image(&self, group_id: &str, file: &str) -> (r: Result<(), ApiError>) {
        send_group_image(&self.rt, self.base_url.as_str(), self.access_token.as_str(), group_id, file)
    }

    fn send_group_file(&self, group_id: &str, file: &str, name: &str, folder_id: &str) -> (r: Result<(), ApiError>) {
        upload_group_file(
            &self.rt,
            self.base_url.as_str(),
            self.access_token.as_str(),
            group_id,
            file,
            name,
            folder_id,
        )
    }

    fn send_group_poke(&self, group_id: &str, user_id: &str) -> (r: Result<(), ApiError>) {
        send_group_poke(&self.rt, self.base_url.as_str(), self.access_token.as_str(), group_id, user_id)
    }

    fn get_group_files_by_folder(&self, group_id: &str, folder_id: &str, file_count: i32) -> (r: Result<String, ApiError>) {
        get_group_files_by_folder(
            &self.rt,
            self.base_url.as_str(),
            self.access_token.as_str(),
            group_id,
            folder_id,
            file_count,
        )
    }

    fn get_group_root_files(&self, group_id: &str) -> (r: Result<String, ApiError>) {
        get_group_root_files(&self.rt, self.base_url.as_str(), self.access_token.as_str(), group_id)
    }
}

} // verus!
