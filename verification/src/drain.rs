//! What is learned from the two output streams of a running worker. Standard
//! output is decoded line by line into events; standard error is only kept,
//! trimmed and without blank lines, for the diagnosis of a failure.

use vstd::prelude::*;
use crate::codec::{decode, decoded, JobEvent, JobEventView, Payload, PayloadView};
use crate::json::{text_at, text_field};
use crate::text::{
    chars_of, is_blank, join_from, joined, last_lines, lemma_texts_push, same_text, slice_string,
    texts, trim_bounds, trimmed,
};

verus! {

/// How many of the last lines of standard error a diagnosis quotes.
pub const TAIL_LINES: usize = 12;

/// The discriminant of the event by which a worker reports its success.
pub open spec fn complete_discriminant() -> Seq<char> {
    "complete"@
}

/// The discriminant of the event by which a worker reports its failure.
pub open spec fn error_discriminant() -> Seq<char> {
    "error"@
}

/// The member of an error event that holds its message.
pub open spec fn message_key() -> Seq<char> {
    "message"@
}

/// What was seen of a worker's output so far.
pub struct Drain {
    /// A `complete` event was read.
    pub saw_complete: bool,
    /// An `error` event was read.
    pub saw_error: bool,
    /// The message of the first `error` event that carried one.
    pub error_message: Option<String>,
    /// The lines of standard error that held more than white space, trimmed.
    pub stderr: Vec<String>,
}

/// What was seen of a worker's output, as the contracts speak of it.
pub struct DrainView {
    pub saw_complete: bool,
    pub saw_error: bool,
    pub error_message: Option<Seq<char>>,
    pub stderr: Seq<Seq<char>>,
}

/// The message that an event carries: the string under `message` of a record.
pub open spec fn message_of(e: JobEventView) -> Option<Seq<char>> {
    match e.payload {
        PayloadView::Record(j) => text_at(j, message_key()),
        PayloadView::Line(_) => None,
    }
}

impl DrainView {
    /// Nothing seen yet.
    pub open spec fn fresh() -> DrainView {
        DrainView {
            saw_complete: false,
            saw_error: false,
            error_message: None,
            stderr: Seq::empty(),
        }
    }

    /// The state after the event `e` was read from standard output.
    pub open spec fn after_event(self, e: JobEventView) -> DrainView {
        if e.discriminant == complete_discriminant() {
            DrainView { saw_complete: true, ..self }
        } else if e.discriminant == error_discriminant() {
            DrainView {
                saw_error: true,
                error_message: if self.error_message is Some {
                    self.error_message
                } else {
                    message_of(e)
                },
                ..self
            }
        } else {
            self
        }
    }

    /// The state after `line` was read from standard error.
    pub open spec fn after_stderr(self, line: Seq<char>) -> DrainView {
        if is_blank(line) {
            self
        } else {
            DrainView { stderr: self.stderr.push(trimmed(line)), ..self }
        }
    }

    /// The last lines of standard error, at most `TAIL_LINES` of them.
    pub open spec fn tail_lines(self) -> Seq<Seq<char>> {
        last_lines(self.stderr, TAIL_LINES as nat)
    }

    /// The last lines of standard error as one text, a line feed between them.
    pub open spec fn tail(self) -> Seq<char> {
        joined(self.tail_lines(), "\n"@)
    }
}

impl View for Drain {
    type V = DrainView;

    open spec fn view(&self) -> DrainView {
        DrainView {
            saw_complete: self.saw_complete,
            saw_error: self.saw_error,
            error_message: match self.error_message {
                Some(m) => Some(m@),
                None => None,
            },
            stderr: texts(self.stderr@),
        }
    }
}

impl Drain {
    /// Nothing seen yet.
    pub fn new() -> (d: Drain)
        ensures
            d@ == DrainView::fresh(),
    {
        let d = Drain {
            saw_complete: false,
            saw_error: false,
            error_message: None,
            stderr: Vec::new(),
        };
        assert(texts(d.stderr@) =~= Seq::<Seq<char>>::empty());
        d
    }

    /// Takes note of an event read from standard output.
    pub fn note(&mut self, e: &JobEvent)
        ensures
            final(self)@ == old(self)@.after_event(e@),
    {
        if same_text(e.discriminant.as_str(), "complete") {
            self.saw_complete = true;
        } else if same_text(e.discriminant.as_str(), "error") {
            self.saw_error = true;
            if self.error_message.is_none() {
                match &e.payload {
                    Payload::Record(v) => {
                        self.error_message = text_field(v, "message");
                    },
                    Payload::Line(_) => {},
                }
            }
        }
    }

    /// Decodes one line of standard output and takes note of its event.
    pub fn stdout_line(&mut self, line: &str) -> (e: JobEvent)
        ensures
            e@ == decoded(line@),
            final(self)@ == old(self)@.after_event(decoded(line@)),
    {
        let e = decode(line);
        self.note(&e);
        e
    }

    /// Keeps one line of standard error, unless it is blank.
    pub fn stderr_line(&mut self, line: &str)
        ensures
            final(self)@ == old(self)@.after_stderr(line@),
    {
        let v = chars_of(line);
        let (from, to) = trim_bounds(&v);
        if from < to {
            let t = slice_string(&v, from, to);
            proof {
                lemma_texts_push(self.stderr@, t);
            }
            self.stderr.push(t);
        }
    }

    /// The last lines of standard error as one text.
    pub fn stderr_tail(&self) -> (r: String)
        ensures
            r@ == self@.tail(),
    {
        let n: usize = self.stderr.len();
        let from: usize = if n <= TAIL_LINES {
            0
        } else {
            n - TAIL_LINES
        };
        assert(texts(self.stderr@).skip(0) == texts(self.stderr@));
        join_from(&self.stderr, from, "\n")
    }
}

} // verus!
