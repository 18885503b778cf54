//! Admission control by spacing: an origin has to let a fixed delay pass
//! between two submissions.

use crate::clock::{Clock, NANOS_PER_SECOND};
use crate::listing::{is_listed_opt, lists_opt};
use crate::messages::{Action, InputMessage, OutputMessage, Verdict};
use crate::note_filter::NoteFilter;
use vstd::hash_map::StringHashMap;
use vstd::prelude::*;

verus! {

/// The reason given to a submission that comes too soon.
pub const TOO_FAST: &'static str = "rate-limited: you are noting too fast";

/// What is remembered of one origin.
#[derive(Clone, Copy, Debug)]
pub struct RateInfo {
    /// The clock reading at which the origin was last let through.
    pub last_note: u128,
}

/// Whether a submission at `now` comes before `delay_seconds` have passed
/// since `last`.
pub open spec fn too_soon(last: u128, now: u128, delay_seconds: u64) -> bool {
    let passed = if now >= last {
        now - last
    } else {
        0
    };
    passed < delay_seconds * NANOS_PER_SECOND
}

/// Spaces the submissions of each origin at least `delay_seconds` apart.
pub struct RateLimit {
    pub delay_seconds: u64,
    /// Origins that are never limited.
    pub whitelist: Option<Vec<String>>,
    /// What is remembered, by origin.
    pub sources: StringHashMap<RateInfo>,
    /// The clock that `filter_note` reads.
    pub clock: Clock,
}

impl RateLimit {
    /// Whether `msg` is refused when the clock reads `now`: its origin is not
    /// exempt, was let through before, and the delay has not passed since.
    pub open spec fn refuses_at(&self, msg: &InputMessage, now: u128) -> bool {
        &&& !lists_opt(self.whitelist, msg.source_info@)
        &&& self.sources@.contains_key(msg.source_info@)
        &&& too_soon(self.sources@[msg.source_info@].last_note, now, self.delay_seconds)
    }

    /// The verdict on `msg` when the clock reads `now`.
    pub open spec fn verdict_at(&self, msg: &InputMessage, now: u128) -> Verdict {
        if self.refuses_at(msg, now) {
            Verdict::reject(msg.event.id@, TOO_FAST@)
        } else {
            Verdict::accept(msg.event.id@)
        }
    }

    /// What is remembered once `msg` has been judged at `now`: the time of
    /// an origin that is let through, unless it is exempt.
    pub open spec fn sources_after(&self, msg: &InputMessage, now: u128) -> Map<Seq<char>, RateInfo> {
        if lists_opt(self.whitelist, msg.source_info@) || self.refuses_at(msg, now) {
            self.sources@
        } else {
            self.sources@.insert(msg.source_info@, RateInfo { last_note: now })
        }
    }

    /// A limiter that remembers nothing yet, with a clock of its own.
    pub fn new(delay_seconds: u64, whitelist: Option<Vec<String>>) -> (limiter: RateLimit)
        ensures
            limiter.delay_seconds == delay_seconds,
            limiter.whitelist == whitelist,
            limiter.sources@ == Map::<Seq<char>, RateInfo>::empty(),
    {
        RateLimit { delay_seconds, whitelist, sources: StringHashMap::new(), clock: Clock::new() }
    }

    /// Judges `msg` as of the clock reading `now`.
    pub fn filter_note_at(&mut self, msg: &InputMessage, now: u128) -> (out: OutputMessage)
        ensures
            out@ == old(self).verdict_at(msg, now),
            final(self).sources@ == old(self).sources_after(msg, now),
            final(self).delay_seconds == old(self).delay_seconds,
            final(self).whitelist == old(self).whitelist,
    {
        if is_listed_opt(&self.whitelist, &msg.source_info) {
            return OutputMessage::new(msg.event.id.clone(), Action::Accept, None);
        }
        let known: Option<RateInfo> = match self.sources.get(msg.source_info.as_str()) {
            Some(info) => Some(*info),
            None => None,
        };
        if let Some(info) = known {
            let passed: u128 = if now >= info.last_note {
                now - info.last_note
            } else {
                0
            };
            if passed < self.delay_seconds as u128 * NANOS_PER_SECOND {
                return OutputMessage::new(
                    msg.event.id.clone(),
                    Action::Reject,
                    Some(TOO_FAST.to_owned()),
                );
            }
        }
        self.sources.insert(msg.source_info.clone(), RateInfo { last_note: now });
        OutputMessage::new(msg.event.id.clone(), Action::Accept, None)
    }
}

impl Default for RateLimit {
    /// A limiter without delay, exemptions or memory.
    fn default() -> (limiter: Self)
        ensures
            limiter.delay_seconds == 0,
            limiter.whitelist is None,
            limiter.sources@ == Map::<Seq<char>, RateInfo>::empty(),
    {
        RateLimit::new(0, None)
    }
}

impl NoteFilter for RateLimit {
    open spec fn admits(&self, msg: &InputMessage, out: Verdict) -> bool {
        exists|now: u128| out == #[trigger] self.verdict_at(msg, now)
    }

    /// Judges `msg` as of the limiter's own clock.
    fn filter_note(&mut self, msg: &InputMessage) -> (out: OutputMessage)
        ensures
            exists|now: u128|
                out@ == #[trigger] old(self).verdict_at(msg, now) && final(self).sources@ == old(
                    self,
                ).sources_after(msg, now),
            final(self).delay_seconds == old(self).delay_seconds,
            final(self).whitelist == old(self).whitelist,
    {
        let now = self.clock.now();
        self.filter_note_at(msg, now)
    }

    fn name(&self) -> (key: &'static str)
        ensures
            key@ == "ratelimit"@,
    {
        "ratelimit"
    }
}

} // verus!
