//! The notification dispatcher: the closed vocabulary of task events and the
//! mapping from push-notification method names onto it.
//!
//! Anything unrecognized maps to nothing — new upstream notification methods
//! must never break the client — and a notification without parameters
//! carries nothing to report, so it too produces no event.

use vstd::prelude::*;
use crate::text::str_eq;

verus! {

/// The closed set of task event kinds.
#[derive(Debug, Clone, Copy, PartialEq, Eq, Structural)]
pub enum Aria2EventType {
    DownloadStart,
    DownloadPause,
    DownloadStop,
    DownloadComplete,
    DownloadError,
    BtDownloadComplete,
}

/// One task event handed to the event sink: a kind and the task identifier
/// from the notification's first parameter.
#[derive(Debug, Clone)]
pub struct Aria2Event {
    pub event_type: Aria2EventType,
    pub gid: String,
}

/// The event kind a notification method name stands for, if any.
pub open spec fn spec_event_kind(method: Seq<char>) -> Option<Aria2EventType> {
    if method == "aria2.onDownloadStart"@ {
        Some(Aria2EventType::DownloadStart)
    } else if method == "aria2.onDownloadPause"@ {
        Some(Aria2EventType::DownloadPause)
    } else if method == "aria2.onDownloadStop"@ {
        Some(Aria2EventType::DownloadStop)
    } else if method == "aria2.onDownloadComplete"@ {
        Some(Aria2EventType::DownloadComplete)
    } else if method == "aria2.onDownloadError"@ {
        Some(Aria2EventType::DownloadError)
    } else if method == "aria2.onBtDownloadComplete"@ {
        Some(Aria2EventType::BtDownloadComplete)
    } else {
        None
    }
}

/// The event kind a notification method name stands for, if any.
pub fn event_kind(method: &str) -> (r: Option<Aria2EventType>)
    ensures
        r == spec_event_kind(method@),
{
    if str_eq(method, "aria2.onDownloadStart") {
        Some(Aria2EventType::DownloadStart)
    } else if str_eq(method, "aria2.onDownloadPause") {
        Some(Aria2EventType::DownloadPause)
    } else if str_eq(method, "aria2.onDownloadStop") {
        Some(Aria2EventType::DownloadStop)
    } else if str_eq(method, "aria2.onDownloadComplete") {
        Some(Aria2EventType::DownloadComplete)
    } else if str_eq(method, "aria2.onDownloadError") {
        Some(Aria2EventType::DownloadError)
    } else if str_eq(method, "aria2.onBtDownloadComplete") {
        Some(Aria2EventType::BtDownloadComplete)
    } else {
        None
    }
}

/// What a notification produces: a recognized method with at least one
/// parameter yields exactly one event of the matching kind carrying the
/// first parameter's task identifier; anything else yields nothing.
pub open spec fn spec_dispatch(method: Seq<char>, gids: Seq<Seq<char>>) -> Option<
    (Aria2EventType, Seq<char>),
> {
    match spec_event_kind(method) {
        Some(kind) => if gids.len() > 0 {
            Some((kind, gids[0]))
        } else {
            None
        },
        None => None,
    }
}

/// Turns one notification into at most one task event, exactly as
/// `spec_dispatch` says: unrecognized methods and empty parameter lists are
/// discarded, and the dispatcher never fails on them.
pub fn dispatch(method: &str, gids: &Vec<String>) -> (r: Option<Aria2Event>)
    ensures
        match r {
            Some(e) => spec_dispatch(method@, gids@.map_values(|g: String| g@)) == Some(
                (e.event_type, e.gid@),
            ),
            None => spec_dispatch(method@, gids@.map_values(|g: String| g@)) is None,
        },
{
    match event_kind(method) {
        Some(kind) => {
            if gids.len() > 0 {
                let gid = gids[0].clone();
                proof {
                    assert(gids@.map_values(|g: String| g@)[0] == gids@[0]@);
                }
                Some(Aria2Event { event_type: kind, gid })
            } else {
                proof {
                    assert(gids@.map_values(|g: String| g@).len() == 0);
                }
                None
            }
        },
        None => None,
    }
}

/// The two connection status events the loop reports to the sink.
#[derive(Debug, Clone, Copy, PartialEq, Eq, Structural)]
pub enum ConnectionStatus {
    Connected,
    Disconnected,
}

impl ConnectionStatus {
    /// The wire label of the status event.
    pub fn label(&self) -> (r: &'static str)
        ensures
            *self is Connected ==> r@ == "connected"@,
            *self is Disconnected ==> r@ == "disconnected"@,
    {
        match self {
            ConnectionStatus::Connected => "connected",
            ConnectionStatus::Disconnected => "disconnected",
        }
    }
}

} // verus!
