//! Audit records of capture events.
//!
//! Every capture event is recorded so that the client can show, from its own
//! log, which screen and input operations it performed and why.

use vstd::prelude::*;

verus! {

/// Kinds of audited events.
#[derive(Clone, Copy, Debug, PartialEq, Eq, Structural)]
pub enum EventType {
    /// Screen capture started.
    CaptureStarted,
    /// Screen capture finished.
    CaptureCompleted,
    /// An outside process was started.
    ProcessSpawned,
    /// A setting changed.
    ConfigChanged,
}

/// What triggered an audited event.
#[derive(Clone, Copy, Debug, PartialEq, Eq, Structural)]
pub enum TriggerSource {
    /// A command from the user interface.
    UserCommand,
    /// The application on its own.
    AppAuto,
}

/// One audit log entry.
#[derive(Debug)]
pub struct AuditRecord {
    pub event_type: EventType,
    pub source: TriggerSource,
    /// The event's detail, `-` when none was given.
    pub detail: String,
}

/// The detail text recorded for an optional detail.
pub open spec fn detail_text(detail: Option<&str>) -> Seq<char> {
    match detail {
        Some(d) => d@,
        None => "-"@,
    }
}

/// A given detail is recorded as it stands, and a missing one as the single
/// character `-`.
pub proof fn lemma_detail_text(detail: Option<&str>)
    ensures
        detail matches Some(d) ==> detail_text(detail) == d@,
        detail is None ==> detail_text(detail) =~= seq!['-'],
{
    reveal_strlit("-");
}

/// The audit entry of an event; the caller writes it to the log.
pub fn log_event(event_type: EventType, source: TriggerSource, detail: Option<&str>) -> (record:
    AuditRecord)
    ensures
        record.event_type == event_type,
        record.source == source,
        record.detail@ == detail_text(detail),
{
    let text = match detail {
        Some(d) => d,
        None => "-",
    };
    AuditRecord { event_type, source, detail: String::from_str(text) }
}

} // verus!
