//! Wire frames: rendering an outbound request and classifying an inbound
//! frame as a reply, a push notification, or junk.
//!
//! Outbound frames carry the protocol envelope around a request id, a method
//! name and a parameter list. Inbound frames are tried as a reply first; a
//! frame that is neither a well-formed reply nor a well-formed notification
//! is junk, which the loop logs and drops rather than failing.

use vstd::prelude::*;
use crate::conn::ReplyBody;
use crate::json::{
    jv, jv_items, spec_render_items, spec_render_str, JsonV, JsonValue, push_json_items,
    push_json_str,
};
use crate::text::{push_u64, spec_digits, str_eq};

verus! {

/// The wire text of one outbound request: the fixed protocol envelope with
/// the id, the escaped method name and the rendered parameter list inside.
pub open spec fn spec_frame_text(id: u64, method: Seq<char>, params: Seq<JsonValue>) -> Seq<
    char,
> {
    "{\"jsonrpc\":\"2.0\",\"id\":"@ + spec_digits(id as nat) + ",\"method\":"@ + spec_render_str(
        method,
    ) + ",\"params\":["@ + spec_render_items(params) + "]}"@
}

/// Renders the outbound frame for request `id` calling `method` with
/// `params`, exactly as `spec_frame_text` lays it out.
pub fn render_frame(id: u64, method: &str, params: &Vec<JsonValue>) -> (r: String)
    ensures
        r@ == spec_frame_text(id, method@, params@),
{
    let mut out = String::new();
    out.append("{\"jsonrpc\":\"2.0\",\"id\":");
    push_u64(&mut out, id);
    out.append(",\"method\":");
    push_json_str(&mut out, method);
    out.append(",\"params\":[");
    push_json_items(&mut out, params);
    out.append("]}");
    out
}

/// The first member of `fields` whose key reads `key`, if any.
pub open spec fn spec_lookup(fields: Seq<(String, JsonValue)>, key: Seq<char>) -> Option<
    JsonValue,
>
    decreases fields.len(),
{
    if fields.len() == 0 {
        None
    } else if fields[0].0@ == key {
        Some(fields[0].1)
    } else {
        spec_lookup(fields.drop_first(), key)
    }
}

/// The members of an object value, if it is one.
pub open spec fn spec_obj_fields(v: JsonValue) -> Option<Seq<(String, JsonValue)>> {
    match v {
        JsonValue::Obj(fields) => Some(fields@),
        _ => None,
    }
}

/// The correlation id of a reply frame: an object whose `id` member is a
/// non-negative integer.
pub open spec fn spec_reply_id(v: JsonValue) -> Option<u64> {
    match spec_obj_fields(v) {
        Some(fields) => match spec_lookup(fields, "id"@) {
            Some(JsonValue::Int(n)) => if n >= 0 {
                Some(n as u64)
            } else {
                None
            },
            _ => None,
        },
        None => None,
    }
}

/// The shape of what a reply hands its caller.
pub enum ReplyBodyV {
    Success(JsonV),
    Failure { code: int, message: Seq<char> },
}

/// The shape of a reply body value.
pub open spec fn body_v(b: ReplyBody) -> ReplyBodyV {
    match b {
        ReplyBody::Success(v) => ReplyBodyV::Success(jv(v)),
        ReplyBody::Failure { code, message } => ReplyBodyV::Failure {
            code: code as int,
            message: message@,
        },
    }
}

/// The success payload of a reply: its `result` member, or null when absent.
pub open spec fn spec_result_payload(fields: Seq<(String, JsonValue)>) -> JsonV {
    match spec_lookup(fields, "result"@) {
        Some(x) => jv(x),
        None => JsonV::Null,
    }
}

/// The body of a reply frame. An absent or null `error` member makes a
/// success carrying the `result` payload; an `error` object with an integer
/// `code` and a string `message` makes a failure; any other `error` shape
/// disqualifies the frame as a reply.
pub open spec fn spec_reply_body(v: JsonValue) -> Option<ReplyBodyV> {
    match spec_obj_fields(v) {
        Some(fields) => match spec_lookup(fields, "error"@) {
            None => Some(ReplyBodyV::Success(spec_result_payload(fields))),
            Some(JsonValue::Null) => Some(ReplyBodyV::Success(spec_result_payload(fields))),
            Some(e) => match spec_obj_fields(e) {
                Some(efields) => match (spec_lookup(efields, "code"@), spec_lookup(
                    efields,
                    "message"@,
                )) {
                    (Some(JsonValue::Int(c)), Some(JsonValue::Str(m))) => Some(
                        ReplyBodyV::Failure { code: c as int, message: m@ },
                    ),
                    _ => None,
                },
                None => None,
            },
        },
        None => None,
    }
}

/// Whether the frame is a well-formed reply.
pub open spec fn spec_is_reply(v: JsonValue) -> bool {
    spec_reply_id(v) is Some && spec_reply_body(v) is Some
}

/// The method name of a notification frame.
pub open spec fn spec_notice_method(v: JsonValue) -> Option<Seq<char>> {
    match spec_obj_fields(v) {
        Some(fields) => match spec_lookup(fields, "method"@) {
            Some(JsonValue::Str(m)) => Some(m@),
            _ => None,
        },
        None => None,
    }
}

/// The task identifier a notification parameter carries: the `gid` member of
/// an object parameter.
pub open spec fn spec_gid_of(p: JsonValue) -> Option<Seq<char>> {
    match spec_obj_fields(p) {
        Some(fields) => match spec_lookup(fields, "gid"@) {
            Some(JsonValue::Str(g)) => Some(g@),
            _ => None,
        },
        None => None,
    }
}

/// The task identifiers of all parameters, present only when every parameter
/// carries one.
pub open spec fn spec_gids(ps: Seq<JsonValue>) -> Option<Seq<Seq<char>>>
    decreases ps.len(),
{
    if ps.len() == 0 {
        Some(Seq::empty())
    } else {
        match (spec_gids(ps.drop_last()), spec_gid_of(ps.last())) {
            (Some(rest), Some(g)) => Some(rest.push(g)),
            _ => None,
        }
    }
}

/// Once a prefix of the parameters fails to yield identifiers, the whole
/// list does.
proof fn lemma_gids_none_extends(ps: Seq<JsonValue>, k: int)
    requires
        0 <= k <= ps.len(),
        spec_gids(ps.take(k)) is None,
    ensures
        spec_gids(ps) is None,
    decreases ps.len() - k,
{
    if k < ps.len() {
        assert(ps.take(k + 1).drop_last() =~= ps.take(k));
        lemma_gids_none_extends(ps, k + 1);
    } else {
        assert(ps.take(k) =~= ps);
    }
}

/// The parameter list of a notification frame.
pub open spec fn spec_notice_params(v: JsonValue) -> Option<Seq<JsonValue>> {
    match spec_obj_fields(v) {
        Some(fields) => match spec_lookup(fields, "params"@) {
            Some(JsonValue::Arr(ps)) => Some(ps@),
            _ => None,
        },
        None => None,
    }
}

/// Whether the frame is a well-formed notification: a method name, a
/// parameter array, and a task identifier in every parameter.
pub open spec fn spec_is_notice(v: JsonValue) -> bool {
    &&& spec_notice_method(v) is Some
    &&& spec_notice_params(v) matches Some(ps) && spec_gids(ps) is Some
}

/// An inbound frame, classified.
pub enum InboundFrame {
    /// A reply correlated to request `id`.
    Reply { id: u64, body: ReplyBody },
    /// An unsolicited push notification.
    Notice { method: String, gids: Vec<String> },
    /// Neither shape: logged and dropped by the loop.
    Junk,
}

/// The first member of `fields` whose key reads `key`, if any.
fn obj_get<'a>(fields: &'a Vec<(String, JsonValue)>, key: &str) -> (r: Option<&'a JsonValue>)
    ensures
        match r {
            Some(x) => spec_lookup(fields@, key@) == Some(*x),
            None => spec_lookup(fields@, key@) is None,
        },
{
    let n = fields.len();
    proof {
        assert(fields@.skip(0) =~= fields@);
    }
    for i in 0..n
        invariant
            n == fields@.len(),
            spec_lookup(fields@.skip(i as int), key@) == spec_lookup(fields@, key@),
    {
        proof {
            assert(fields@.skip(i as int)[0] == fields@[i as int]);
            assert(fields@.skip(i as int).drop_first() =~= fields@.skip(i + 1));
        }
        if str_eq(fields[i].0.as_str(), key) {
            return Some(&fields[i].1);
        }
    }
    proof {
        assert(fields@.skip(n as int).len() == 0);
    }
    None
}

/// Classifies an inbound frame. A frame that is a well-formed reply is a
/// reply, even if it also carries a method name; otherwise a well-formed
/// notification is a notice; everything else is junk. The classifier is
/// total: no frame shape makes it fail.
pub fn classify_inbound(v: &JsonValue) -> (r: InboundFrame)
    ensures
        spec_is_reply(*v) ==> (r matches InboundFrame::Reply { id, body } && Some(id)
            == spec_reply_id(*v) && Some(body_v(body)) == spec_reply_body(*v)),
        !spec_is_reply(*v) && spec_is_notice(*v) ==> (r matches InboundFrame::Notice {
            method,
            gids,
        } && Some(method@) == spec_notice_method(*v) && Some(
            gids@.map_values(|g: String| g@),
        ) == spec_gids(spec_notice_params(*v)->0)),
        !spec_is_reply(*v) && !spec_is_notice(*v) ==> r is Junk,
{
    let fields = match v {
        JsonValue::Obj(fields) => fields,
        _ => {
            return InboundFrame::Junk;
        },
    };
    // Try the frame as a reply first.
    let id_opt: Option<u64> = match obj_get(fields, "id") {
        Some(JsonValue::Int(n)) => if *n >= 0 {
            Some(*n as u64)
        } else {
            None
        },
        _ => None,
    };
    if let Some(id) = id_opt {
        let body_opt: Option<ReplyBody> = match obj_get(fields, "error") {
            None => Some(ReplyBody::Success(result_payload(fields))),
            Some(JsonValue::Null) => Some(ReplyBody::Success(result_payload(fields))),
            Some(JsonValue::Obj(efields)) => {
                let code_opt = match obj_get(efields, "code") {
                    Some(JsonValue::Int(c)) => Some(*c),
                    _ => None,
                };
                let msg_opt = match obj_get(efields, "message") {
                    Some(JsonValue::Str(m)) => Some(m.clone()),
                    _ => None,
                };
                match (code_opt, msg_opt) {
                    (Some(code), Some(message)) => Some(ReplyBody::Failure { code, message }),
                    _ => None,
                }
            },
            Some(_) => None,
        };
        if let Some(body) = body_opt {
            return InboundFrame::Reply { id, body };
        }
    }
    // Not a reply: try it as a notification.
    classify_notice(v, fields)
}

/// The `result` payload of a reply, null when absent.
fn result_payload(fields: &Vec<(String, JsonValue)>) -> (r: JsonValue)
    ensures
        jv(r) == spec_result_payload(fields@),
{
    match obj_get(fields, "result") {
        Some(x) => x.clone(),
        None => JsonValue::Null,
    }
}

/// Classifies a frame that is not a reply as a notification or junk.
#[verifier::loop_isolation(false)]
fn classify_notice(v: &JsonValue, fields: &Vec<(String, JsonValue)>) -> (r: InboundFrame)
    requires
        *v == JsonValue::Obj(*fields),
    ensures
        spec_is_notice(*v) ==> (r matches InboundFrame::Notice { method, gids } && Some(method@)
            == spec_notice_method(*v) && Some(gids@.map_values(|g: String| g@)) == spec_gids(
            spec_notice_params(*v)->0,
        )),
        !spec_is_notice(*v) ==> r is Junk,
{
    let method = match obj_get(fields, "method") {
        Some(JsonValue::Str(m)) => m.clone(),
        _ => {
            return InboundFrame::Junk;
        },
    };
    let params = match obj_get(fields, "params") {
        Some(JsonValue::Arr(ps)) => ps,
        _ => {
            return InboundFrame::Junk;
        },
    };
    let mut gids: Vec<String> = Vec::new();
    let n = params.len();
    proof {
        assert(params@.take(0) =~= Seq::<JsonValue>::empty());
        assert(gids@.map_values(|g2: String| g2@) =~= Seq::<Seq<char>>::empty());
    }
    for i in 0..n
        invariant
            n == params@.len(),
            spec_gids(params@.take(i as int)) == Some(gids@.map_values(|g2: String| g2@)),
    {
        let p = &params[i];
        let gid_opt: Option<String> = match p {
            JsonValue::Obj(pfields) => match obj_get(pfields, "gid") {
                Some(JsonValue::Str(g)) => Some(g.clone()),
                _ => None,
            },
            _ => None,
        };
        proof {
            assert(params@.take(i + 1).drop_last() =~= params@.take(i as int));
            assert(params@.take(i + 1).last() == params@[i as int]);
            assert(*p == params@[i as int]);
        }
        match gid_opt {
            Some(g) => {
                proof {
                    assert(spec_gid_of(params@[i as int]) == Some(g@));
                }
                let ghost prev = gids@.map_values(|g2: String| g2@);
                let ghost prevv = gids@;
                gids.push(g);
                proof {
                    assert(gids@ == prevv.push(g));
                    assert(gids@.map_values(|g2: String| g2@) =~= prev.push(g@));
                }
            },
            None => {
                proof {
                    assert(spec_gid_of(params@[i as int]) is None);
                    assert(spec_gids(params@.take(i + 1)) is None);
                    lemma_gids_none_extends(params@, i + 1);
                }
                return InboundFrame::Junk;
            },
        }
    }
    proof {
        assert(params@.take(n as int) =~= params@);
    }
    InboundFrame::Notice { method, gids }
}

} // verus!
