//! The RPC client facade's pure layers: shaping each typed call into a
//! generic request, prepending the authorization token, and decoding the
//! replies that must carry a task identifier.
//!
//! Every typed call is argument shaping over the one generic request form
//! and carries no state of its own; sending and awaiting the reply is the
//! runtime's part.

use vstd::prelude::*;
use crate::error::Error;
use crate::json::{jv, jv_items, lemma_jv_items_index, lemma_jv_items_len, JsonV, JsonValue};

verus! {

/// A generic request before authorization: the bare method name and its
/// positional parameters.
pub struct RpcRequest {
    pub method: String,
    pub params: Vec<JsonValue>,
}

/// Whether a request carries this bare method name and no parameters.
pub open spec fn plain_request_is(r: RpcRequest, method: Seq<char>) -> bool {
    r.method@ == method && r.params@.len() == 0
}

/// A request ready for the wire: the namespaced method name, with the
/// authorization token standing first among the parameters.
pub struct RpcCall {
    pub method: String,
    pub params: Vec<JsonValue>,
}

/// Prepends the shared secret and the protocol namespace: the wire method is
/// `aria2.<method>`, the first parameter is `token:<secret>`, and the
/// request's own parameters follow unchanged, in order.
pub fn authorize(secret: &str, req: RpcRequest) -> (r: RpcCall)
    ensures
        r.method@ == "aria2."@ + req.method@,
        r.params@.len() == req.params@.len() + 1,
        jv(r.params@[0]) == JsonV::Str("token:"@ + secret@),
        forall|i: int| 0 <= i < req.params@.len() ==> r.params@[i + 1] == req.params@[i],
{
    let mut method = String::new();
    method.append("aria2.");
    method.append(req.method.as_str());
    let mut token = String::new();
    token.append("token:");
    token.append(secret);
    let mut params: Vec<JsonValue> = Vec::new();
    params.push(JsonValue::Str(token));
    let mut rest = req.params;
    params.append(&mut rest);
    RpcCall { method, params }
}

/// Builds the JSON array of plain strings that carries a URI list.
fn str_list_value(items: &Vec<String>) -> (r: JsonValue)
    ensures
        jv(r) == JsonV::Arr(items@.map_values(|s: String| JsonV::Str(s@))),
{
    let mut out: Vec<JsonValue> = Vec::new();
    let n = items.len();
    for i in 0..n
        invariant
            n == items@.len(),
            out@.len() == i,
            forall|j: int| 0 <= j < i ==> jv(out@[j]) == JsonV::Str(items@[j]@),
    {
        out.push(JsonValue::Str(items[i].clone()));
    }
    proof {
        assert forall|j: int| 0 <= j < n implies jv_items(out@)[j] == items@.map_values(
            |s: String| JsonV::Str(s@),
        )[j] by {
            lemma_jv_items_index(out@, j);
        }
        lemma_jv_items_len(out@);
        assert(jv_items(out@) =~= items@.map_values(|s: String| JsonV::Str(s@)));
    }
    JsonValue::Arr(out)
}

/// A parameter list, with the caller's options object appended when given.
fn params_with_options(mut params: Vec<JsonValue>, options: Option<JsonValue>) -> (r: Vec<
    JsonValue,
>)
    ensures
        match options {
            Some(o) => r@ == params@.push(o),
            None => r@ == params@,
        },
{
    match options {
        Some(o) => {
            params.push(o);
            params
        },
        None => params,
    }
}

/// A freshly made request with the given bare method name.
fn request(method: &str, params: Vec<JsonValue>) -> (r: RpcRequest)
    ensures
        r.method@ == method@,
        r.params == params,
{
    let mut m = String::new();
    m.append(method);
    RpcRequest { method: m, params }
}

/// Download by URI list: `addUri` with the URIs as its first parameter and
/// the options object, when given, as its second.
pub fn add_uri(uris: Vec<String>, options: Option<JsonValue>) -> (r: RpcRequest)
    ensures
        r.method@ == "addUri"@,
        r.params@.len() == (if options is Some { 2int } else { 1int }),
        jv(r.params@[0]) == JsonV::Arr(uris@.map_values(|s: String| JsonV::Str(s@))),
        options matches Some(o) ==> r.params@[1] == o,
{
    let list = str_list_value(&uris);
    request("addUri", params_with_options(vec![list], options))
}

/// Download by encoded torrent blob: `addTorrent` with the blob, an empty
/// URI list, and the options object when given.
pub fn add_torrent(torrent: &str, options: Option<JsonValue>) -> (r: RpcRequest)
    ensures
        r.method@ == "addTorrent"@,
        r.params@.len() == (if options is Some { 3int } else { 2int }),
        jv(r.params@[0]) == JsonV::Str(torrent@),
        jv(r.params@[1]) == JsonV::Arr(Seq::<JsonV>::empty()),
        options matches Some(o) ==> r.params@[2] == o,
{
    let mut blob = String::new();
    blob.append(torrent);
    let params = vec![JsonValue::Str(blob), JsonValue::Arr(Vec::new())];
    request("addTorrent", params_with_options(params, options))
}

/// Download by encoded metalink blob: `addMetalink` with the blob and the
/// options object when given.
pub fn add_metalink(metalink: &str, options: Option<JsonValue>) -> (r: RpcRequest)
    ensures
        r.method@ == "addMetalink"@,
        r.params@.len() == (if options is Some { 2int } else { 1int }),
        jv(r.params@[0]) == JsonV::Str(metalink@),
        options matches Some(o) ==> r.params@[1] == o,
{
    let mut blob = String::new();
    blob.append(metalink);
    request("addMetalink", params_with_options(vec![JsonValue::Str(blob)], options))
}

/// A request whose only parameter is one task identifier.
fn gid_request(method: &str, gid: &str) -> (r: RpcRequest)
    ensures
        r.method@ == method@,
        r.params@.len() == 1,
        jv(r.params@[0]) == JsonV::Str(gid@),
{
    let mut g = String::new();
    g.append(gid);
    request(method, vec![JsonValue::Str(g)])
}

/// A request with no parameters of its own.
fn plain_request(method: &str) -> (r: RpcRequest)
    ensures
        r.method@ == method@,
        r.params@.len() == 0,
{
    request(method, Vec::new())
}

/// Pause one task.
pub fn pause(gid: &str) -> (r: RpcRequest)
    ensures
        r.method@ == "pause"@,
        r.params@.len() == 1,
        jv(r.params@[0]) == JsonV::Str(gid@),
{
    gid_request("pause", gid)
}

/// Resume one task.
pub fn unpause(gid: &str) -> (r: RpcRequest)
    ensures
        r.method@ == "unpause"@,
        r.params@.len() == 1,
        jv(r.params@[0]) == JsonV::Str(gid@),
{
    gid_request("unpause", gid)
}

/// Remove one task.
pub fn remove(gid: &str) -> (r: RpcRequest)
    ensures
        r.method@ == "remove"@,
        r.params@.len() == 1,
        jv(r.params@[0]) == JsonV::Str(gid@),
{
    gid_request("remove", gid)
}

/// Pause one task even while it is seeding or exchanging metadata.
pub fn force_pause(gid: &str) -> (r: RpcRequest)
    ensures
        r.method@ == "forcePause"@,
        r.params@.len() == 1,
        jv(r.params@[0]) == JsonV::Str(gid@),
{
    gid_request("forcePause", gid)
}

/// Remove one task without waiting for its current activity.
pub fn force_remove(gid: &str) -> (r: RpcRequest)
    ensures
        r.method@ == "forceRemove"@,
        r.params@.len() == 1,
        jv(r.params@[0]) == JsonV::Str(gid@),
{
    gid_request("forceRemove", gid)
}

/// The status of one task.
pub fn tell_status(gid: &str) -> (r: RpcRequest)
    ensures
        r.method@ == "tellStatus"@,
        r.params@.len() == 1,
        jv(r.params@[0]) == JsonV::Str(gid@),
{
    gid_request("tellStatus", gid)
}

/// The peers of one task.
pub fn get_peers(gid: &str) -> (r: RpcRequest)
    ensures
        r.method@ == "getPeers"@,
        r.params@.len() == 1,
        jv(r.params@[0]) == JsonV::Str(gid@),
{
    gid_request("getPeers", gid)
}

/// Drop the finished record of one task.
pub fn remove_download_result(gid: &str) -> (r: RpcRequest)
    ensures
        r.method@ == "removeDownloadResult"@,
        r.params@.len() == 1,
        jv(r.params@[0]) == JsonV::Str(gid@),
{
    gid_request("removeDownloadResult", gid)
}

/// All currently active tasks.
pub fn tell_active() -> (r: RpcRequest)
    ensures
        r.method@ == "tellActive"@,
        r.params@.len() == 0,
{
    plain_request("tellActive")
}

/// Global transfer statistics.
pub fn get_global_stat() -> (r: RpcRequest)
    ensures
        r.method@ == "getGlobalStat"@,
        r.params@.len() == 0,
{
    plain_request("getGlobalStat")
}

/// Pause every active task.
pub fn pause_all() -> (r: RpcRequest)
    ensures
        r.method@ == "pauseAll"@,
        r.params@.len() == 0,
{
    plain_request("pauseAll")
}

/// Resume every paused task.
pub fn unpause_all() -> (r: RpcRequest)
    ensures
        r.method@ == "unpauseAll"@,
        r.params@.len() == 0,
{
    plain_request("unpauseAll")
}

/// Drop every finished, failed or removed record.
pub fn purge_download_result() -> (r: RpcRequest)
    ensures
        r.method@ == "purgeDownloadResult"@,
        r.params@.len() == 0,
{
    plain_request("purgeDownloadResult")
}

/// Persist the session to disk.
pub fn save_session() -> (r: RpcRequest)
    ensures
        r.method@ == "saveSession"@,
        r.params@.len() == 0,
{
    plain_request("saveSession")
}

/// The engine's version information.
pub fn get_version() -> (r: RpcRequest)
    ensures
        r.method@ == "getVersion"@,
        r.params@.len() == 0,
{
    plain_request("getVersion")
}

/// Ask the engine to exit.
pub fn shutdown() -> (r: RpcRequest)
    ensures
        r.method@ == "shutdown"@,
        r.params@.len() == 0,
{
    plain_request("shutdown")
}

/// A window of waiting tasks.
pub fn tell_waiting(offset: i32, num: i32) -> (r: RpcRequest)
    ensures
        r.method@ == "tellWaiting"@,
        r.params@.len() == 2,
        jv(r.params@[0]) == JsonV::Int(offset as int),
        jv(r.params@[1]) == JsonV::Int(num as int),
{
    request("tellWaiting", vec![JsonValue::Int(offset as i64), JsonValue::Int(num as i64)])
}

/// A window of stopped tasks.
pub fn tell_stopped(offset: i32, num: i32) -> (r: RpcRequest)
    ensures
        r.method@ == "tellStopped"@,
        r.params@.len() == 2,
        jv(r.params@[0]) == JsonV::Int(offset as int),
        jv(r.params@[1]) == JsonV::Int(num as int),
{
    request("tellStopped", vec![JsonValue::Int(offset as i64), JsonValue::Int(num as i64)])
}

/// Change options that apply to every task.
pub fn change_global_option(options: JsonValue) -> (r: RpcRequest)
    ensures
        r.method@ == "changeGlobalOption"@,
        r.params@.len() == 1,
        r.params@[0] == options,
{
    request("changeGlobalOption", vec![options])
}

/// Change the options of one task.
pub fn change_option(gid: &str, options: JsonValue) -> (r: RpcRequest)
    ensures
        r.method@ == "changeOption"@,
        r.params@.len() == 2,
        jv(r.params@[0]) == JsonV::Str(gid@),
        r.params@[1] == options,
{
    let mut g = String::new();
    g.append(gid);
    request("changeOption", vec![JsonValue::Str(g), options])
}

/// Move one task within the waiting queue.
pub fn change_position(gid: &str, pos: i32, how: &str) -> (r: RpcRequest)
    ensures
        r.method@ == "changePosition"@,
        r.params@.len() == 3,
        jv(r.params@[0]) == JsonV::Str(gid@),
        jv(r.params@[1]) == JsonV::Int(pos as int),
        jv(r.params@[2]) == JsonV::Str(how@),
{
    let mut g = String::new();
    g.append(gid);
    let mut h = String::new();
    h.append(how);
    request(
        "changePosition",
        vec![JsonValue::Str(g), JsonValue::Int(pos as i64), JsonValue::Str(h)],
    )
}

/// Decodes a reply payload that must be the task identifier of the affected
/// task: a string payload is that identifier, any other shape is a decode
/// error — never a silent default.
pub fn expect_gid(result: JsonValue) -> (r: Result<String, Error>)
    ensures
        match r {
            Ok(s) => jv(result) == JsonV::Str(s@),
            Err(e) => !(result is Str) && e == Error::Decode,
        },
{
    match result {
        JsonValue::Str(s) => Ok(s),
        _ => Err(Error::Decode),
    }
}

/// Joins the active and waiting task lists into one, active tasks first,
/// each list kept in order.
pub fn merge_task_lists(active: Vec<JsonValue>, waiting: Vec<JsonValue>) -> (r: Vec<JsonValue>)
    ensures
        r@ == active@ + waiting@,
{
    let mut merged = active;
    let mut rest = waiting;
    merged.append(&mut rest);
    merged
}

/// Which task list a caller asked for, by its query name; anything
/// unrecognized falls back to the active list, as the call surface promises.
#[derive(Debug, Clone, Copy, PartialEq, Eq, Structural)]
pub enum TaskListKind {
    /// Active tasks merged with the waiting window.
    ActiveAndWaiting,
    Waiting,
    Stopped,
    ActiveOnly,
}

/// The query-name spelling of each task list.
pub open spec fn spec_task_list_kind(s: Seq<char>) -> TaskListKind {
    if s == "active"@ {
        TaskListKind::ActiveAndWaiting
    } else if s == "waiting"@ {
        TaskListKind::Waiting
    } else if s == "stopped"@ {
        TaskListKind::Stopped
    } else {
        TaskListKind::ActiveOnly
    }
}

/// Parses a task list query name.
pub fn task_list_kind(s: &str) -> (r: TaskListKind)
    ensures
        r == spec_task_list_kind(s@),
{
    if crate::text::str_eq(s, "active") {
        TaskListKind::ActiveAndWaiting
    } else if crate::text::str_eq(s, "waiting") {
        TaskListKind::Waiting
    } else if crate::text::str_eq(s, "stopped") {
        TaskListKind::Stopped
    } else {
        TaskListKind::ActiveOnly
    }
}

} // verus!
