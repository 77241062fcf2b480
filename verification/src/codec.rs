//! The event protocol: one line of worker output becomes one event.

use vstd::prelude::*;
use crate::json::{json_of, parse, parsed, text_at, text_field, Json};

verus! {

/// What an event carries.
pub enum Payload {
    /// The record that the worker wrote.
    Record(serde_json::Value),
    /// The line as it was read, where it was no record.
    Line(String),
}

/// What an event carries, as the contracts speak of it.
pub enum PayloadView {
    Record(Json),
    Line(Seq<char>),
}

impl View for Payload {
    type V = PayloadView;

    open spec fn view(&self) -> PayloadView {
        match self {
            Payload::Record(v) => PayloadView::Record(json_of(*v)),
            Payload::Line(s) => PayloadView::Line(s@),
        }
    }
}

/// One message of a running job.
pub struct JobEvent {
    pub discriminant: String,
    pub payload: Payload,
}

/// One message of a running job, as the contracts speak of it.
pub struct JobEventView {
    pub discriminant: Seq<char>,
    pub payload: PayloadView,
}

impl View for JobEvent {
    type V = JobEventView;

    open spec fn view(&self) -> JobEventView {
        JobEventView { discriminant: self.discriminant@, payload: self.payload@ }
    }
}

/// The member that names the kind of a record.
pub open spec fn discriminant_key() -> Seq<char> {
    "type"@
}

/// The discriminant of every line that is no record.
pub open spec fn log_discriminant() -> Seq<char> {
    "log"@
}

/// The record that `line` holds: a JSON object with a string under `type`.
pub open spec fn record_of(line: Seq<char>) -> Option<Json> {
    match parsed(line) {
        Some(j) => if text_at(j, discriminant_key()) is Some {
            Some(j)
        } else {
            None
        },
        None => None,
    }
}

/// The event that `line` stands for.
pub open spec fn decoded(line: Seq<char>) -> JobEventView {
    match record_of(line) {
        Some(j) => JobEventView {
            discriminant: text_at(j, discriminant_key())->0,
            payload: PayloadView::Record(j),
        },
        None => JobEventView {
            discriminant: log_discriminant(),
            payload: PayloadView::Line(line),
        },
    }
}

/// Turns one line of worker output into its event. A line that is a record
/// keeps the record's own discriminant; any other line is wrapped, unchanged,
/// in a `log` event.
pub fn decode(line: &str) -> (e: JobEvent)
    ensures
        e@ == decoded(line@),
{
    match parse(line) {
        Ok(v) => match text_field(&v, "type") {
            Some(d) => JobEvent { discriminant: d, payload: Payload::Record(v) },
            None => JobEvent {
                discriminant: "log".to_owned(),
                payload: Payload::Line(line.to_owned()),
            },
        },
        Err(_) => JobEvent {
            discriminant: "log".to_owned(),
            payload: Payload::Line(line.to_owned()),
        },
    }
}

/// An event wraps the raw line exactly when the line is no record.
pub proof fn law_raw_line_iff_no_record(line: Seq<char>)
    ensures
        decoded(line).payload is Line <==> record_of(line) is None,
        decoded(line).payload is Line ==> decoded(line).payload == PayloadView::Line(line),
        decoded(line).payload is Line ==> decoded(line).discriminant == log_discriminant(),
{
}

/// The discriminant of an event is `log` exactly when the line is no record,
/// for every line but a record that names itself `log`.
pub proof fn law_log_iff_no_record(line: Seq<char>)
    requires
        record_of(line) matches Some(j) ==> text_at(j, discriminant_key()) != Some(
            log_discriminant(),
        ),
    ensures
        decoded(line).discriminant == log_discriminant() <==> record_of(line) is None,
{
}

} // verus!
