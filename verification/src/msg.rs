//! Messages carried by the single-consumer application bus.

use vstd::prelude::*;
use crate::models::{Monitor, StreamPost};

verus! {

/// Everything the producers may post onto the bus. The application loop is
/// the only consumer, and the only code that mutates shared state.
#[derive(Debug)]
pub enum Msg {
    Info(String),
    Error(String),
    StreamConnectionState(bool),
    StreamPost(StreamPost),
    MonitorAdded(Result<Monitor, String>),
    MonitorEditPrepared { monitor_id: String, result: Result<Monitor, String> },
    MonitorEdited(Result<Monitor, String>),
    MonitorActivated(Result<(String, String, String), String>),
    MonitorDeactivated(Result<(String, String), String>),
    MonitorDeleted(Result<(String, String), String>),
    MonitorReconnected(Result<(String, String, String), String>),
    AnalysisCompleted {
        monitor_label: String,
        provider: String,
        model: String,
        output: Result<String, String>,
        url: Option<String>,
    },
}

/// An option's contents, seen as a character sequence.
pub open spec fn opt_view(o: Option<String>) -> Option<Seq<char>> {
    match o {
        Some(s) => Some(s@),
        None => None,
    }
}

} // verus!
