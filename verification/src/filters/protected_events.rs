//! Refusal of events that their author has marked as protected.

use crate::listing::reads_as;
use crate::messages::{Action, InputMessage, OutputMessage, Verdict};
use crate::note_filter::NoteFilter;
use vstd::prelude::*;

verus! {

/// The tag entry that marks an event as protected.
pub const PROTECTED_MARK: &'static str = "-";

/// The reason given for a protected event.
pub const PROTECTED: &'static str = "blocked: event marked as protected";

/// Whether the first entry of the first tag is the protection mark.
pub open spec fn is_protected(tags: Seq<Vec<String>>) -> bool {
    tags.len() > 0 && tags[0]@.len() > 0 && tags[0]@[0]@ == PROTECTED_MARK@
}

/// Refuses every event whose first tag starts with the protection mark.
pub struct ProtectedEvents {}

impl ProtectedEvents {
    /// The verdict on `msg`.
    pub open spec fn verdict(msg: &InputMessage) -> Verdict {
        if is_protected(msg.event.tags@) {
            Verdict::reject(msg.event.id@, PROTECTED@)
        } else {
            Verdict::accept(msg.event.id@)
        }
    }
}

impl Default for ProtectedEvents {
    fn default() -> Self {
        ProtectedEvents {  }
    }
}

impl NoteFilter for ProtectedEvents {
    open spec fn admits(&self, msg: &InputMessage, out: Verdict) -> bool {
        out == Self::verdict(msg)
    }

    fn filter_note(&mut self, msg: &InputMessage) -> (out: OutputMessage)
        ensures
            out@ == ProtectedEvents::verdict(msg),
    {
        if msg.event.tags.len() > 0 && msg.event.tags[0].len() > 0 && reads_as(
            &msg.event.tags[0][0],
            PROTECTED_MARK,
        ) {
            return OutputMessage::new(
                msg.event.id.clone(),
                Action::Reject,
                Some(PROTECTED.to_owned()),
            );
        }
        OutputMessage::new(msg.event.id.clone(), Action::Accept, None)
    }

    fn name(&self) -> (key: &'static str)
        ensures
            key@ == "protected_events"@,
    {
        "protected_events"
    }
}

} // verus!
