//! Silent refusal of events whose content holds an unwanted phrase.

use crate::messages::{Action, InputMessage, OutputMessage, Verdict};
use crate::note_filter::NoteFilter;
use vstd::prelude::*;

verus! {

/// Whether `phrase` occurs in `text` as an unbroken run of characters.
pub open spec fn occurs_in(phrase: Seq<char>, text: Seq<char>) -> bool {
    exists|at: int|
        0 <= at <= text.len() - phrase.len() && #[trigger] text.subrange(
            at,
            at + phrase.len(),
        ) == phrase
}

/// `str::contains` with a string as the pattern: whether the pattern occurs
/// in the text as an unbroken run of characters.
#[verifier::external_body]
fn holds_phrase(text: &str, phrase: &str) -> (found: bool)
    ensures
        found == occurs_in(phrase@, text@),
{
    text.contains(phrase)
}

/// Refuses, without telling the submitter, every event whose content holds
/// one of the listed phrases.
pub struct Content {
    pub filters: Vec<String>,
}

impl Content {
    /// Whether `text` holds one of the listed phrases.
    pub open spec fn matches(&self, text: Seq<char>) -> bool {
        exists|i: int| 0 <= i < self.filters@.len() && occurs_in((#[trigger] self.filters@[i])@, text)
    }

    /// The verdict on `msg`.
    pub open spec fn verdict(&self, msg: &InputMessage) -> Verdict {
        Verdict {
            id: msg.event.id@,
            action: if self.matches(msg.event.content@) {
                Action::ShadowReject
            } else {
                Action::Accept
            },
            msg: None,
        }
    }
}

impl Default for Content {
    fn default() -> (empty: Self)
        ensures
            empty.filters@.len() == 0,
    {
        Content { filters: Vec::new() }
    }
}

impl NoteFilter for Content {
    open spec fn admits(&self, msg: &InputMessage, out: Verdict) -> bool {
        out == self.verdict(msg)
    }

    fn filter_note(&mut self, msg: &InputMessage) -> (out: OutputMessage)
        ensures
            out@ == old(self).verdict(msg),
            *final(self) == *old(self),
    {
        let mut i: usize = 0;
        while i < self.filters.len()
            invariant
                i <= self.filters@.len(),
                *self == *old(self),
                forall|j: int|
                    0 <= j < i ==> !occurs_in((#[trigger] self.filters@[j])@, msg.event.content@),
            decreases self.filters.len() - i,
        {
            if holds_phrase(msg.event.content.as_str(), self.filters[i].as_str()) {
                return OutputMessage::new(msg.event.id.clone(), Action::ShadowReject, None);
            }
            i = i + 1;
        }
        OutputMessage::new(msg.event.id.clone(), Action::Accept, None)
    }

    fn name(&self) -> (key: &'static str)
        ensures
            key@ == "content"@,
    {
        "content"
    }
}

} // verus!
