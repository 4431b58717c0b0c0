use motrix::conn::{ConnLoop, LinkState, ReconnectStep, ReplyAction, ReplyBody, RECONNECT_ATTEMPTS};
use motrix::error::Error;
use motrix::events::{dispatch, Aria2EventType, ConnectionStatus};
use motrix::frames::{classify_inbound, render_frame, InboundFrame};
use motrix::json::{push_json, JsonValue};
use motrix::rpc;

fn json_text(v: &JsonValue) -> String {
    let mut out = String::new();
    push_json(&mut out, v);
    out
}

fn obj(fields: Vec<(&str, JsonValue)>) -> JsonValue {
    JsonValue::Obj(fields.into_iter().map(|(k, v)| (k.to_string(), v)).collect())
}

#[test]
fn concurrent_calls_resolve_by_matching_id() {
    let mut c = ConnLoop::new();
    let id_a = c.issue("tellStatus".to_string()).unwrap();
    let id_b = c.issue("tellStatus".to_string()).unwrap();
    assert_ne!(id_a, id_b);
    // replies arrive out of order, each resolves its own caller
    match c.on_reply(id_b, ReplyBody::Success(JsonValue::Str("state-b".to_string()))) {
        ReplyAction::Resolve(res) => {
            assert_eq!(res.id, id_b);
            assert_eq!(json_text(&res.result.unwrap()), "\"state-b\"");
        }
        ReplyAction::Ignored => panic!("reply for an in-flight id must resolve"),
    }
    match c.on_reply(id_a, ReplyBody::Success(JsonValue::Str("state-a".to_string()))) {
        ReplyAction::Resolve(res) => {
            assert_eq!(res.id, id_a);
            assert_eq!(json_text(&res.result.unwrap()), "\"state-a\"");
        }
        ReplyAction::Ignored => panic!("reply for an in-flight id must resolve"),
    }
}

#[test]
fn protocol_error_reply_surfaces_verbatim() {
    let mut c = ConnLoop::new();
    let id = c.issue("addUri".to_string()).unwrap();
    match c.on_reply(
        id,
        ReplyBody::Failure { code: 1, message: "bad uri".to_string() },
    ) {
        ReplyAction::Resolve(res) => {
            assert_eq!(res.id, id);
            assert_eq!(
                res.result.unwrap_err(),
                Error::Protocol { code: 1, message: "bad uri".to_string() }
            );
        }
        ReplyAction::Ignored => panic!("error reply must still resolve its caller"),
    }
}

#[test]
fn transport_drop_fails_every_pending_call() {
    let mut c = ConnLoop::new();
    let ids: Vec<u64> = (0..3)
        .map(|_| c.issue("pause".to_string()).unwrap())
        .collect();
    let resolutions = c.on_socket_down();
    assert_eq!(resolutions.len(), 3);
    for (res, id) in resolutions.iter().zip(ids.iter()) {
        assert_eq!(res.id, *id);
        assert_eq!(res.result.as_ref().unwrap_err(), &Error::Disconnected);
    }
    // the table is empty: nothing waits twice
    let again = c.on_reply(ids[0], ReplyBody::Success(JsonValue::Null));
    assert!(matches!(again, ReplyAction::Ignored));
}

#[test]
fn late_reply_after_timeout_is_ignored() {
    let mut c = ConnLoop::new();
    let id = c.issue("getGlobalStat".to_string()).unwrap();
    // the caller timed out; the bookkeeping is untouched, so the late reply
    // resolves into a sink nobody holds any more
    match c.on_reply(id, ReplyBody::Success(JsonValue::Null)) {
        ReplyAction::Resolve(res) => assert_eq!(res.id, id),
        ReplyAction::Ignored => panic!("first reply still matches the table entry"),
    }
    // a second reply for the same id finds nothing and is ignored
    assert!(matches!(
        c.on_reply(id, ReplyBody::Success(JsonValue::Null)),
        ReplyAction::Ignored
    ));
    // a reply for an id never issued is ignored too
    assert!(matches!(
        c.on_reply(9999, ReplyBody::Success(JsonValue::Null)),
        ReplyAction::Ignored
    ));
}

#[test]
fn ids_after_reconnect_stay_above_every_earlier_id() {
    let mut c = ConnLoop::new();
    let first = c.issue("pause".to_string()).unwrap();
    let second = c.issue("unpause".to_string()).unwrap();
    c.on_socket_down();
    assert_eq!(c.on_reconnect_attempt(true), ReconnectStep::Resumed);
    let third = c.issue("remove".to_string()).unwrap();
    assert!(third > first && third > second);
    assert_eq!(third, second + 1);
}

#[test]
fn a_reinitialized_loop_resumes_above_the_old_watermark() {
    let mut old = ConnLoop::new();
    old.issue("pause".to_string()).unwrap();
    let last = old.issue("unpause".to_string()).unwrap();
    let mut fresh = ConnLoop::resuming_from(last + 1);
    assert_eq!(fresh.issue("remove".to_string()).unwrap(), last + 1);
}

#[test]
fn reconnect_gives_up_after_exactly_ten_failures() {
    let mut c = ConnLoop::new();
    c.issue("pause".to_string()).unwrap();
    c.on_socket_down();
    for attempt in 1..RECONNECT_ATTEMPTS {
        assert_eq!(
            c.on_reconnect_attempt(false),
            ReconnectStep::RetryAfterDelay,
            "attempt {attempt} must schedule a retry"
        );
    }
    assert_eq!(c.on_reconnect_attempt(false), ReconnectStep::GaveUp);
    assert_eq!(c.link, LinkState::Terminated);
}

#[test]
fn reconnect_success_midway_resumes() {
    let mut c = ConnLoop::new();
    c.on_socket_down();
    assert_eq!(c.on_reconnect_attempt(false), ReconnectStep::RetryAfterDelay);
    assert_eq!(c.on_reconnect_attempt(true), ReconnectStep::Resumed);
    assert_eq!(c.link, LinkState::Connected);
}

#[test]
fn issue_while_disconnected_fails_fast() {
    let mut c = ConnLoop::new();
    c.on_socket_down();
    assert_eq!(c.issue("pause".to_string()).unwrap_err(), Error::Disconnected);
    // nothing was queued: a reply for the would-be id is ignored
    assert!(matches!(
        c.on_reply(1, ReplyBody::Success(JsonValue::Null)),
        ReplyAction::Ignored
    ));
}

#[test]
fn send_failure_resolves_the_caller_at_once() {
    let mut c = ConnLoop::new();
    let id = c.issue("pause".to_string()).unwrap();
    let res = c.send_failed(id).expect("the entry was in the table");
    assert_eq!(res.id, id);
    assert_eq!(res.result.unwrap_err(), Error::SendFailed);
    assert!(matches!(
        c.on_reply(id, ReplyBody::Success(JsonValue::Null)),
        ReplyAction::Ignored
    ));
    assert!(c.send_failed(id).is_none());
}

#[test]
fn dispatch_maps_every_known_method() {
    let gids = vec!["g1".to_string()];
    let cases = [
        ("aria2.onDownloadStart", Aria2EventType::DownloadStart),
        ("aria2.onDownloadPause", Aria2EventType::DownloadPause),
        ("aria2.onDownloadStop", Aria2EventType::DownloadStop),
        ("aria2.onDownloadComplete", Aria2EventType::DownloadComplete),
        ("aria2.onDownloadError", Aria2EventType::DownloadError),
        ("aria2.onBtDownloadComplete", Aria2EventType::BtDownloadComplete),
    ];
    for (method, kind) in cases {
        let ev = dispatch(method, &gids).expect("known method with a gid");
        assert_eq!(ev.event_type, kind);
        assert_eq!(ev.gid, "g1");
    }
}

#[test]
fn dispatch_drops_unknown_methods_and_empty_params() {
    assert!(dispatch("aria2.onBrandNewThing", &vec!["g".to_string()]).is_none());
    assert!(dispatch("", &vec!["g".to_string()]).is_none());
    assert!(dispatch("aria2.onDownloadStart", &Vec::new()).is_none());
}

#[test]
fn outbound_frame_renders_exactly() {
    let params = vec![
        JsonValue::Str("token:secret".to_string()),
        JsonValue::Arr(vec![JsonValue::Str("http://x/a?b=1".to_string())]),
    ];
    let frame = render_frame(7, "aria2.addUri", &params);
    assert_eq!(
        frame,
        "{\"jsonrpc\":\"2.0\",\"id\":7,\"method\":\"aria2.addUri\",\"params\":[\"token:secret\",[\"http://x/a?b=1\"]]}"
    );
}

#[test]
fn json_rendering_escapes_strings() {
    let v = obj(vec![
        ("a", JsonValue::Str("q\"b\\c\nd\te\r\u{01}".to_string())),
        ("n", JsonValue::Int(-5)),
        ("z", JsonValue::Null),
        ("t", JsonValue::Bool(true)),
    ]);
    assert_eq!(
        json_text(&v),
        "{\"a\":\"q\\\"b\\\\c\\nd\\te\\r\\u0001\",\"n\":-5,\"z\":null,\"t\":true}"
    );
}

#[test]
fn classify_reply_success_and_error() {
    let success = obj(vec![
        ("jsonrpc", JsonValue::Str("2.0".to_string())),
        ("id", JsonValue::Int(3)),
        ("result", JsonValue::Str("gid1".to_string())),
    ]);
    match classify_inbound(&success) {
        InboundFrame::Reply { id, body } => {
            assert_eq!(id, 3);
            match body {
                ReplyBody::Success(v) => assert_eq!(json_text(&v), "\"gid1\""),
                ReplyBody::Failure { .. } => panic!("no error member: a success"),
            }
        }
        _ => panic!("a frame with a numeric id is a reply"),
    }
    let failure = obj(vec![
        ("id", JsonValue::Int(4)),
        (
            "error",
            obj(vec![
                ("code", JsonValue::Int(-32700)),
                ("message", JsonValue::Str("oops".to_string())),
            ]),
        ),
    ]);
    match classify_inbound(&failure) {
        InboundFrame::Reply { id, body } => {
            assert_eq!(id, 4);
            match body {
                ReplyBody::Failure { code, message } => {
                    assert_eq!(code, -32700);
                    assert_eq!(message, "oops");
                }
                ReplyBody::Success(_) => panic!("an error member makes a failure"),
            }
        }
        _ => panic!("a frame with a numeric id is a reply"),
    }
}

#[test]
fn classify_reply_without_result_carries_null() {
    let frame = obj(vec![("id", JsonValue::Int(1))]);
    match classify_inbound(&frame) {
        InboundFrame::Reply { body, .. } => match body {
            ReplyBody::Success(v) => assert_eq!(json_text(&v), "null"),
            _ => panic!("absent error means success"),
        },
        _ => panic!("a frame with a numeric id is a reply"),
    }
}

#[test]
fn classify_notification_and_junk() {
    let notice = obj(vec![
        ("method", JsonValue::Str("aria2.onDownloadStart".to_string())),
        (
            "params",
            JsonValue::Arr(vec![obj(vec![("gid", JsonValue::Str("abc123".to_string()))])]),
        ),
    ]);
    match classify_inbound(&notice) {
        InboundFrame::Notice { method, gids } => {
            assert_eq!(method, "aria2.onDownloadStart");
            assert_eq!(gids, vec!["abc123".to_string()]);
        }
        _ => panic!("method plus gid-bearing params is a notification"),
    }
    // a parameter without a gid disqualifies the whole notification
    let no_gid = obj(vec![
        ("method", JsonValue::Str("aria2.onDownloadStart".to_string())),
        ("params", JsonValue::Arr(vec![obj(vec![])])),
    ]);
    assert!(matches!(classify_inbound(&no_gid), InboundFrame::Junk));
    // neither shape
    assert!(matches!(
        classify_inbound(&JsonValue::Str("hello".to_string())),
        InboundFrame::Junk
    ));
    assert!(matches!(
        classify_inbound(&obj(vec![("id", JsonValue::Str("not a number".to_string()))])),
        InboundFrame::Junk
    ));
}

#[test]
fn reply_takes_precedence_over_notification_shape() {
    let both = obj(vec![
        ("id", JsonValue::Int(9)),
        ("method", JsonValue::Str("aria2.onDownloadStart".to_string())),
        ("params", JsonValue::Arr(vec![])),
    ]);
    assert!(matches!(classify_inbound(&both), InboundFrame::Reply { id: 9, .. }));
}

#[test]
fn raw_number_literals_pass_through_and_never_correlate() {
    // a non-integer number keeps its literal text on the wire
    let v = JsonValue::Arr(vec![JsonValue::Num("3.25".to_string()), JsonValue::Int(2)]);
    assert_eq!(json_text(&v), "[3.25,2]");
    // and a fractional id can match no issued id: the frame is junk
    let frame = obj(vec![("id", JsonValue::Num("3.5".to_string()))]);
    assert!(matches!(classify_inbound(&frame), InboundFrame::Junk));
}

#[test]
fn rendering_keeps_plain_text_unescaped() {
    let v = JsonValue::Str("h\u{e9}llo \u{2193} world".to_string());
    assert_eq!(json_text(&v), "\"h\u{e9}llo \u{2193} world\"");
}

#[test]
fn cloned_values_render_identically() {
    let v = obj(vec![
        ("list", JsonValue::Arr(vec![JsonValue::Int(1), JsonValue::Str("two".to_string())])),
        ("flag", JsonValue::Bool(false)),
    ]);
    assert_eq!(json_text(&v.clone()), json_text(&v));
}

#[test]
fn authorize_prepends_token_and_namespace() {
    let req = rpc::pause("gid7");
    let call = rpc::authorize("s3cret", req);
    assert_eq!(call.method, "aria2.pause");
    assert_eq!(call.params.len(), 2);
    assert_eq!(json_text(&call.params[0]), "\"token:s3cret\"");
    assert_eq!(json_text(&call.params[1]), "\"gid7\"");
}

#[test]
fn request_builders_shape_parameters() {
    let req = rpc::add_uri(vec!["http://a".to_string(), "http://b".to_string()], None);
    assert_eq!(req.method, "addUri");
    assert_eq!(req.params.len(), 1);
    assert_eq!(json_text(&req.params[0]), "[\"http://a\",\"http://b\"]");

    let with_opts = rpc::add_uri(
        vec!["http://a".to_string()],
        Some(JsonValue::Obj(vec![("dir".to_string(), JsonValue::Str("/tmp".to_string()))])),
    );
    assert_eq!(with_opts.params.len(), 2);
    assert_eq!(json_text(&with_opts.params[1]), "{\"dir\":\"/tmp\"}");

    let torrent = rpc::add_torrent("QkxPQg==", None);
    assert_eq!(torrent.method, "addTorrent");
    assert_eq!(torrent.params.len(), 2);
    assert_eq!(json_text(&torrent.params[1]), "[]");

    let windowed = rpc::tell_waiting(0, 1000);
    assert_eq!(windowed.method, "tellWaiting");
    assert_eq!(json_text(&windowed.params[0]), "0");
    assert_eq!(json_text(&windowed.params[1]), "1000");

    let moved = rpc::change_position("g", -1, "POS_CUR");
    assert_eq!(moved.method, "changePosition");
    assert_eq!(json_text(&moved.params[1]), "-1");
    assert_eq!(json_text(&moved.params[2]), "\"POS_CUR\"");

    assert_eq!(rpc::pause_all().method, "pauseAll");
    assert_eq!(rpc::save_session().method, "saveSession");
    assert_eq!(rpc::shutdown().method, "shutdown");
    assert_eq!(rpc::get_version().method, "getVersion");
    assert_eq!(rpc::tell_active().method, "tellActive");
}

#[test]
fn expect_gid_decodes_only_strings() {
    assert_eq!(
        rpc::expect_gid(JsonValue::Str("g1".to_string())).unwrap(),
        "g1"
    );
    assert_eq!(rpc::expect_gid(JsonValue::Int(3)).unwrap_err(), Error::Decode);
    assert_eq!(rpc::expect_gid(JsonValue::Null).unwrap_err(), Error::Decode);
}

#[test]
fn task_list_queries_merge_and_classify() {
    let merged = rpc::merge_task_lists(
        vec![JsonValue::Str("a".to_string())],
        vec![JsonValue::Str("b".to_string()), JsonValue::Str("c".to_string())],
    );
    assert_eq!(merged.len(), 3);
    assert_eq!(json_text(&merged[0]), "\"a\"");
    assert_eq!(json_text(&merged[2]), "\"c\"");
    assert_eq!(rpc::task_list_kind("active"), rpc::TaskListKind::ActiveAndWaiting);
    assert_eq!(rpc::task_list_kind("waiting"), rpc::TaskListKind::Waiting);
    assert_eq!(rpc::task_list_kind("stopped"), rpc::TaskListKind::Stopped);
    assert_eq!(rpc::task_list_kind("anything"), rpc::TaskListKind::ActiveOnly);
}

#[test]
fn connection_status_labels() {
    assert_eq!(ConnectionStatus::Connected.label(), "connected");
    assert_eq!(ConnectionStatus::Disconnected.label(), "disconnected");
}

#[test]
fn per_call_errors_are_distinguished() {
    assert!(Error::Timeout.is_per_call());
    assert!(Error::Disconnected.is_per_call());
    assert!(Error::SendFailed.is_per_call());
    assert!(Error::Decode.is_per_call());
    assert!(!Error::NotInitialized.is_per_call());
    assert!(!Error::Init("no engine".to_string()).is_per_call());
}
