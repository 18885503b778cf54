//! Admission by membership: only listed authors and origins get through.

use crate::listing::{is_listed_opt, lists_opt};
use crate::messages::{Action, InputMessage, OutputMessage, Verdict};
use crate::note_filter::NoteFilter;
use vstd::prelude::*;

verus! {

/// The reason given to whoever is not listed.
pub const NOT_LISTED: &'static str = "blocked: pubkey/ip not on the whitelist";

/// Lets through what comes from a listed author or a listed origin, and
/// nothing else.
pub struct Whitelist {
    pub pubkeys: Option<Vec<String>>,
    pub ips: Option<Vec<String>>,
}

impl Whitelist {
    /// Whether `msg` comes from a listed author or a listed origin.
    pub open spec fn allows(&self, msg: &InputMessage) -> bool {
        lists_opt(self.pubkeys, msg.event.pubkey@) || lists_opt(self.ips, msg.source_info@)
    }

    /// The verdict on `msg`.
    pub open spec fn verdict(&self, msg: &InputMessage) -> Verdict {
        if self.allows(msg) {
            Verdict::accept(msg.event.id@)
        } else {
            Verdict::reject(msg.event.id@, NOT_LISTED@)
        }
    }
}

impl Default for Whitelist {
    fn default() -> (empty: Self)
        ensures
            empty.pubkeys is None,
            empty.ips is None,
    {
        Whitelist { pubkeys: None, ips: None }
    }
}

impl NoteFilter for Whitelist {
    open spec fn admits(&self, msg: &InputMessage, out: Verdict) -> bool {
        out == self.verdict(msg)
    }

    fn filter_note(&mut self, msg: &InputMessage) -> (out: OutputMessage)
        ensures
            out@ == old(self).verdict(msg),
            *final(self) == *old(self),
    {
        if is_listed_opt(&self.pubkeys, &msg.event.pubkey) {
            return OutputMessage::new(msg.event.id.clone(), Action::Accept, None);
        }
        if is_listed_opt(&self.ips, &msg.source_info) {
            return OutputMessage::new(msg.event.id.clone(), Action::Accept, None);
        }
        OutputMessage::new(msg.event.id.clone(), Action::Reject, Some(NOT_LISTED.to_owned()))
    }

    fn name(&self) -> (key: &'static str)
        ensures
            key@ == "whitelist"@,
    {
        "whitelist"
    }
}

} // verus!
