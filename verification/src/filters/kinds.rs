//! Refusal of events by their kind.

use crate::decimal::{decimal, decimal_text};
use crate::messages::{Action, InputMessage, OutputMessage, Verdict};
use crate::note_filter::NoteFilter;
use vstd::hash_map::StringHashMap;
use vstd::prelude::*;

verus! {

/// The reason given where none is configured for the kind.
pub const KIND_NOT_ALLOWED: &'static str = "blocked: note kind is not allowed here";

/// The table that a list of keys and texts amounts to. Where a key occurs
/// more than once, its last text counts.
pub open spec fn table_of(pairs: Seq<(String, String)>) -> Map<Seq<char>, String>
    decreases pairs.len(),
{
    if pairs.len() == 0 {
        Map::empty()
    } else {
        table_of(pairs.drop_last()).insert(pairs.last().0@, pairs.last().1)
    }
}

/// Refuses the listed kinds, each with a reason of its own where one is
/// configured.
pub struct Kinds {
    /// The kinds that are refused.
    pub kinds: Vec<i64>,
    /// The reason to give, under the decimal text of the kind.
    pub messages: Option<StringHashMap<String>>,
}

impl Kinds {
    /// Whether `kind` is refused.
    pub open spec fn blocks(&self, kind: i64) -> bool {
        self.kinds@.contains(kind)
    }

    /// The reason that goes with the refusal of `kind`: the one configured
    /// under its decimal text, or the general one.
    pub open spec fn reason(&self, kind: i64) -> Seq<char> {
        match self.messages {
            Some(texts) => if texts@.contains_key(decimal(kind as int)) {
                texts@[decimal(kind as int)]@
            } else {
                KIND_NOT_ALLOWED@
            },
            None => KIND_NOT_ALLOWED@,
        }
    }

    /// The verdict on `msg`.
    pub open spec fn verdict(&self, msg: &InputMessage) -> Verdict {
        if self.blocks(msg.event.kind) {
            Verdict::reject(msg.event.id@, self.reason(msg.event.kind))
        } else {
            Verdict::accept(msg.event.id@)
        }
    }

    /// A filter that refuses `kinds`, with the reasons that `messages` lists
    /// as pairs of the decimal text of a kind and the reason for it.
    pub fn new(kinds: Vec<i64>, messages: Option<Vec<(String, String)>>) -> (filter: Kinds)
        ensures
            filter.kinds == kinds,
            match messages {
                Some(pairs) => filter.messages matches Some(texts) && texts@ == table_of(pairs@),
                None => filter.messages is None,
            },
    {
        let messages = match messages {
            Some(pairs) => {
                let mut texts: StringHashMap<String> = StringHashMap::new();
                let mut i: usize = 0;
                while i < pairs.len()
                    invariant
                        i <= pairs@.len(),
                        texts@ == table_of(pairs@.take(i as int)),
                    decreases pairs.len() - i,
                {
                    assert(pairs@.take(i + 1).drop_last() == pairs@.take(i as int));
                    texts.insert(pairs[i].0.clone(), pairs[i].1.clone());
                    i = i + 1;
                }
                assert(pairs@.take(i as int) == pairs@);
                Some(texts)
            },
            None => None,
        };
        Kinds { kinds, messages }
    }

    /// Whether `kind` is refused.
    fn is_blocked(&self, kind: i64) -> (blocked: bool)
        ensures
            blocked == self.blocks(kind),
    {
        let mut i: usize = 0;
        while i < self.kinds.len()
            invariant
                i <= self.kinds@.len(),
                forall|j: int| 0 <= j < i ==> self.kinds@[j] != kind,
            decreases self.kinds.len() - i,
        {
            if self.kinds[i] == kind {
                return true;
            }
            i = i + 1;
        }
        false
    }

    /// The text of the refusal of `kind`.
    fn refusal(&self, kind: i64) -> (text: String)
        ensures
            text@ == self.reason(kind),
    {
        match &self.messages {
            Some(texts) => {
                let key = decimal_text(kind);
                match texts.get(key.as_str()) {
                    Some(text) => text.clone(),
                    None => KIND_NOT_ALLOWED.to_owned(),
                }
            },
            None => KIND_NOT_ALLOWED.to_owned(),
        }
    }
}

impl Default for Kinds {
    fn default() -> (empty: Self)
        ensures
            empty.kinds@.len() == 0,
            empty.messages is None,
    {
        Kinds { kinds: Vec::new(), messages: None }
    }
}

impl NoteFilter for Kinds {
    open spec fn admits(&self, msg: &InputMessage, out: Verdict) -> bool {
        out == self.verdict(msg)
    }

    fn filter_note(&mut self, msg: &InputMessage) -> (out: OutputMessage)
        ensures
            out@ == old(self).verdict(msg),
            *final(self) == *old(self),
    {
        let kind = msg.event.kind;
        if self.is_blocked(kind) {
            let reason = self.refusal(kind);
            OutputMessage::new(msg.event.id.clone(), Action::Reject, Some(reason))
        } else {
            OutputMessage::new(msg.event.id.clone(), Action::Accept, None)
        }
    }

    fn name(&self) -> (key: &'static str)
        ensures
            key@ == "kinds"@,
    {
        "kinds"
    }
}

} // verus!
