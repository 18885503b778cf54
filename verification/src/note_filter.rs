//! The event that is judged and the capability that judges it.

use crate::messages::{InputMessage, OutputMessage, Verdict};
use vstd::prelude::*;

verus! {

/// A candidate event as submitted. The engine never alters one.
#[derive(Clone, Debug)]
pub struct Note {
    pub id: String,
    pub pubkey: String,
    pub content: String,
    pub created_at: i64,
    pub kind: i64,
    pub tags: Vec<Vec<String>>,
    pub sig: String,
}

/// The mathematical content of a `Note`.
pub ghost struct NoteView {
    pub id: Seq<char>,
    pub pubkey: Seq<char>,
    pub content: Seq<char>,
    pub created_at: i64,
    pub kind: i64,
    pub tags: Seq<Seq<Seq<char>>>,
    pub sig: Seq<char>,
}

impl View for Note {
    type V = NoteView;

    open spec fn view(&self) -> NoteView {
        NoteView {
            id: self.id@,
            pubkey: self.pubkey@,
            content: self.content@,
            created_at: self.created_at,
            kind: self.kind,
            tags: self.tags.deep_view(),
            sig: self.sig@,
        }
    }
}

/// Copies one tag, entry by entry.
fn duplicate_tag(tag: &Vec<String>) -> (copy: Vec<String>)
    ensures
        copy.deep_view() == tag.deep_view(),
{
    let mut copy: Vec<String> = Vec::new();
    let mut i: usize = 0;
    while i < tag.len()
        invariant
            i <= tag@.len(),
            copy@.len() == i,
            forall|j: int| 0 <= j < i ==> (#[trigger] copy@[j])@ == tag@[j]@,
        decreases tag.len() - i,
    {
        copy.push(tag[i].clone());
        i = i + 1;
    }
    assert(copy.deep_view() =~= tag.deep_view());
    copy
}

/// Copies a list of tags, tag by tag.
fn duplicate_tags(tags: &Vec<Vec<String>>) -> (copy: Vec<Vec<String>>)
    ensures
        copy.deep_view() == tags.deep_view(),
{
    let mut copy: Vec<Vec<String>> = Vec::new();
    let mut i: usize = 0;
    while i < tags.len()
        invariant
            i <= tags@.len(),
            copy@.len() == i,
            forall|j: int| 0 <= j < i ==> (#[trigger] copy@[j]).deep_view() == tags@[j].deep_view(),
        decreases tags.len() - i,
    {
        copy.push(duplicate_tag(&tags[i]));
        i = i + 1;
    }
    assert(copy.deep_view() =~= tags.deep_view());
    copy
}

impl Note {
    /// A copy of the event that holds in every field what the event holds.
    pub fn duplicate(&self) -> (copy: Note)
        ensures
            copy@ == self@,
    {
        Note {
            id: self.id.clone(),
            pubkey: self.pubkey.clone(),
            content: self.content.clone(),
            created_at: self.created_at,
            kind: self.kind,
            tags: duplicate_tags(&self.tags),
            sig: self.sig.clone(),
        }
    }
}

/// The capability every filter offers: judge one submission.
///
/// A filter may keep state between calls and may consult its surroundings
/// (a clock, a queue), so what it answers is described by a relation,
/// `admits`, between the filter as it stood before the call, the submission
/// and the verdict.
pub trait NoteFilter {
    /// Whether `out` is a verdict this filter, in its current state, may give
    /// on `msg`. A filter that does not say may give any.
    open spec fn admits(&self, msg: &InputMessage, out: Verdict) -> bool {
        true
    }

    /// Judges one submission. Always produces a verdict.
    fn filter_note(&mut self, msg: &InputMessage) -> (out: OutputMessage)
        ensures
            old(self).admits(msg, out@),
    ;

    /// The key under which filters of this kind are configured.
    fn name(&self) -> &'static str;
}

} // verus!
