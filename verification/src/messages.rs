//! What goes into the engine and what comes out: a submission and the
//! verdict on it.

use crate::note_filter::Note;
use vstd::prelude::*;

verus! {

/// One submission: the candidate event and where it came from.
#[derive(Debug)]
pub struct InputMessage {
    pub message_type: String,
    pub event: Note,
    pub received_at: u64,
    pub source_type: String,
    pub source_info: String,
}

/// What is to happen to a submission.
#[derive(Debug, Clone, Copy, PartialEq, Eq, Structural)]
pub enum Action {
    /// The event is let through.
    Accept,
    /// The event is refused, and the submitter is told so.
    Reject,
    /// The event is refused, and the submitter is not to learn of it.
    ShadowReject,
}

/// The verdict on one submission, as handed back to the caller.
#[derive(Debug, Clone, PartialEq, Eq)]
pub struct OutputMessage {
    pub id: String,
    pub action: Action,
    pub msg: Option<String>,
}

/// The mathematical content of an `OutputMessage`.
pub ghost struct Verdict {
    pub id: Seq<char>,
    pub action: Action,
    pub msg: Option<Seq<char>>,
}

impl Verdict {
    /// An acceptance without a reason.
    pub open spec fn accept(id: Seq<char>) -> Verdict {
        Verdict { id, action: Action::Accept, msg: None }
    }

    /// A rejection that the submitter is told about.
    pub open spec fn reject(id: Seq<char>, reason: Seq<char>) -> Verdict {
        Verdict { id, action: Action::Reject, msg: Some(reason) }
    }

    /// Whether the verdict ends the pipeline.
    pub open spec fn is_final(self) -> bool {
        self.action != Action::Accept
    }
}

impl View for OutputMessage {
    type V = Verdict;

    open spec fn view(&self) -> Verdict {
        Verdict {
            id: self.id@,
            action: self.action,
            msg: match self.msg {
                Some(s) => Some(s@),
                None => None,
            },
        }
    }
}

impl OutputMessage {
    /// The verdict `action` on the event `id`, with the reason `msg` if there
    /// is one.
    pub fn new(id: String, action: Action, msg: Option<String>) -> (out: Self)
        ensures
            out.id == id,
            out.action == action,
            out.msg == msg,
    {
        OutputMessage { id, action, msg }
    }
}

} // verus!
