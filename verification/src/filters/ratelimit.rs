//! Token-bucket admission control, one bucket per submitter.
//!
//! A submitter is known by the public key that its events carry. Each
//! submitter has a bucket of tokens. The first event of a submitter creates a
//! full bucket and is let through for free. Every later event is charged one
//! token, after the bucket has been refilled for the time that has passed
//! since the submitter's last success, and is let through exactly when the
//! charge leaves something in the bucket.
//!
//! Two things are particular to this limiter. After a charge the bucket never
//! holds more than `posts_per_minute - 1`, so the full capacity is only ever
//! seen by a new submitter. And a refused attempt does not move the time from
//! which the refill is reckoned, so waiting counts from the last success.

use crate::clock::{seconds_between, whole_seconds_between, Clock};
use crate::listing::{is_listed_opt, lists_opt};
use crate::messages::{Action, InputMessage, OutputMessage, Verdict};
use crate::note_filter::NoteFilter;
use vstd::hash_map::StringHashMap;
use vstd::prelude::*;

verus! {

/// The seconds after which a bucket has refilled completely. Time beyond it
/// earns nothing more.
pub const REFILL_WINDOW: u128 = 60;

/// The reason given where none is configured.
pub const DEFAULT_MESSAGE: &'static str = "rate-limited: you are noting too much";

/// The bucket of one submitter.
#[derive(Clone, Copy, Debug, PartialEq, Eq)]
pub struct Tokens {
    /// What is left in the bucket.
    pub tokens: i32,
    /// The clock reading at which the submitter was last let through.
    pub last_post: u128,
}

/// The tokens that `elapsed` seconds of waiting put back: the share of a
/// full bucket that the waited part of the window amounts to, rounded down.
/// Waiting longer than the window counts as waiting for the window.
pub open spec fn refill(posts_per_minute: int, elapsed: int) -> int {
    let counted = if elapsed > REFILL_WINDOW as int {
        REFILL_WINDOW as int
    } else {
        elapsed
    };
    (posts_per_minute * counted) / (REFILL_WINDOW as int)
}

/// The bucket after a refill for `elapsed` seconds and the charge for one
/// attempt: never above `posts_per_minute - 1`, never below zero.
pub open spec fn charged(posts_per_minute: int, tokens: int, elapsed: int) -> int {
    let left = tokens + refill(posts_per_minute, elapsed) - 1;
    let capped = if left > posts_per_minute - 1 {
        posts_per_minute - 1
    } else {
        left
    };
    if capped < 0 {
        0
    } else {
        capped
    }
}

/// What an attempt at `now` comes to for a submitter whose bucket is `known`:
/// whether it is let through, and the bucket afterwards.
///
/// A submitter without a bucket gets a full one and is let through. One with
/// a bucket is charged. Where that empties the bucket the attempt is refused
/// and the time of the last success stays; otherwise the attempt is let
/// through and becomes the last success.
pub open spec fn judged(posts_per_minute: i32, known: Option<Tokens>, now: u128) -> (bool, Tokens) {
    match known {
        None => (true, Tokens { tokens: posts_per_minute, last_post: now }),
        Some(bucket) => {
            let left = charged(
                posts_per_minute as int,
                bucket.tokens as int,
                seconds_between(bucket.last_post, now),
            );
            if left == 0 {
                (false, Tokens { tokens: 0, last_post: bucket.last_post })
            } else {
                (true, Tokens { tokens: left as i32, last_post: now })
            }
        },
    }
}

/// Refills a bucket for `elapsed` seconds of waiting and charges one attempt.
pub fn charge(posts_per_minute: i32, tokens: i32, elapsed: u128) -> (left: i32)
    ensures
        left == charged(posts_per_minute as int, tokens as int, elapsed as int),
        0 <= left,
        posts_per_minute >= 1 ==> left <= posts_per_minute - 1,
{
    if posts_per_minute <= 0 {
        return 0;
    }
    let rate: i64 = posts_per_minute as i64;
    let counted: i64 = if elapsed > REFILL_WINDOW {
        60
    } else {
        elapsed as i64
    };
    assert(0 <= rate * counted <= 60 * 0x8000_0000) by (nonlinear_arith)
        requires
            0 < rate <= 0x7fff_ffff,
            0 <= counted <= 60,
    ;
    let gained: i64 = (rate * counted) / 60;
    let left: i64 = tokens as i64 + gained - 1;
    if left > rate - 1 {
        posts_per_minute - 1
    } else if left < 0 {
        0
    } else {
        left as i32
    }
}

/// Judges one attempt at the clock reading `now` for a submitter whose
/// bucket is `known`.
pub fn attempt(posts_per_minute: i32, known: Option<Tokens>, now: u128) -> (outcome: (bool, Tokens))
    ensures
        outcome == judged(posts_per_minute, known, now),
{
    match known {
        None => (true, Tokens { tokens: posts_per_minute, last_post: now }),
        Some(bucket) => {
            let elapsed: u128 = whole_seconds_between(bucket.last_post, now);
            let left: i32 = charge(posts_per_minute, bucket.tokens, elapsed);
            if left == 0 {
                (false, Tokens { tokens: 0, last_post: bucket.last_post })
            } else {
                (true, Tokens { tokens: left, last_post: now })
            }
        },
    }
}

/// A token bucket per submitter: `posts_per_minute` is both what a bucket
/// holds and what a minute of waiting puts back.
pub struct RateLimit {
    pub posts_per_minute: i32,
    /// Submitters that are never limited.
    pub whitelist: Option<Vec<String>>,
    /// The reason given on rejection, in place of `DEFAULT_MESSAGE`.
    pub message: Option<String>,
    /// The buckets, by submitter.
    pub sources: StringHashMap<Tokens>,
    /// The clock that `filter_note` reads.
    pub clock: Clock,
}

impl RateLimit {
    /// The submitter that `msg` is charged to: the public key of its event.
    pub open spec fn submitter(msg: &InputMessage) -> Seq<char> {
        msg.event.pubkey@
    }

    /// Whether `who` is exempt from limiting.
    pub open spec fn exempt(&self, who: Seq<char>) -> bool {
        lists_opt(self.whitelist, who)
    }

    /// The reason that goes with a rejection.
    pub open spec fn reason(&self) -> Seq<char> {
        match self.message {
            Some(text) => text@,
            None => DEFAULT_MESSAGE@,
        }
    }

    /// The bucket of `who`, if there is one.
    pub open spec fn bucket_of(&self, who: Seq<char>) -> Option<Tokens> {
        if self.sources@.contains_key(who) {
            Some(self.sources@[who])
        } else {
            None
        }
    }

    /// The verdict on `msg` when the clock reads `now`: an acceptance for an
    /// exempt submitter and for an attempt that is let through, else a
    /// rejection with the limiter's reason.
    pub open spec fn verdict_at(&self, msg: &InputMessage, now: u128) -> Verdict {
        let who = Self::submitter(msg);
        if self.exempt(who) || judged(self.posts_per_minute, self.bucket_of(who), now).0 {
            Verdict::accept(msg.event.id@)
        } else {
            Verdict::reject(msg.event.id@, self.reason())
        }
    }

    /// The buckets once `msg` has been judged at `now`: as they were for an
    /// exempt submitter, else with the submitter's bucket as the attempt left
    /// it.
    pub open spec fn buckets_after(&self, msg: &InputMessage, now: u128) -> Map<Seq<char>, Tokens> {
        let who = Self::submitter(msg);
        if self.exempt(who) {
            self.sources@
        } else {
            self.sources@.insert(who, judged(self.posts_per_minute, self.bucket_of(who), now).1)
        }
    }

    /// Whether every bucket holds what a bucket can hold: the full capacity,
    /// as a new one does, or what a charge can leave, which is at least
    /// nothing and less than the capacity.
    pub open spec fn bounded(&self) -> bool {
        forall|who: Seq<char>| #[trigger]
            self.sources@.contains_key(who) ==> {
                let held = self.sources@[who].tokens;
                held == self.posts_per_minute || 0 <= held < self.posts_per_minute || held == 0
            }
    }

    /// Whether `after` is `self` with nothing but the buckets changed.
    pub open spec fn same_settings(&self, after: &RateLimit) -> bool {
        &&& after.posts_per_minute == self.posts_per_minute
        &&& after.whitelist == self.whitelist
        &&& after.message == self.message
    }

    /// A limiter without any bucket yet, with a clock of its own.
    pub fn new(
        posts_per_minute: i32,
        whitelist: Option<Vec<String>>,
        message: Option<String>,
    ) -> (limiter: RateLimit)
        ensures
            limiter.posts_per_minute == posts_per_minute,
            limiter.whitelist == whitelist,
            limiter.message == message,
            limiter.sources@ == Map::<Seq<char>, Tokens>::empty(),
            limiter.bounded(),
    {
        RateLimit {
            posts_per_minute,
            whitelist,
            message,
            sources: StringHashMap::new(),
            clock: Clock::new(),
        }
    }

    /// The text of a rejection.
    fn rejection(&self) -> (text: String)
        ensures
            text@ == self.reason(),
    {
        match &self.message {
            Some(text) => text.clone(),
            None => DEFAULT_MESSAGE.to_owned(),
        }
    }

    /// Judges `msg` as of the clock reading `now`, in nanoseconds.
    pub fn filter_note_at(&mut self, msg: &InputMessage, now: u128) -> (out: OutputMessage)
        ensures
            out@ == old(self).verdict_at(msg, now),
            final(self).sources@ == old(self).buckets_after(msg, now),
            old(self).same_settings(final(self)),
            old(self).bounded() ==> final(self).bounded(),
    {
        if is_listed_opt(&self.whitelist, &msg.event.pubkey) {
            return OutputMessage::new(msg.event.id.clone(), Action::Accept, None);
        }
        let known: Option<Tokens> = match self.sources.get(msg.event.pubkey.as_str()) {
            Some(bucket) => Some(*bucket),
            None => None,
        };
        let (accepted, bucket) = attempt(self.posts_per_minute, known, now);
        self.sources.insert(msg.event.pubkey.clone(), bucket);
        if accepted {
            OutputMessage::new(msg.event.id.clone(), Action::Accept, None)
        } else {
            let reason = self.rejection();
            OutputMessage::new(msg.event.id.clone(), Action::Reject, Some(reason))
        }
    }
}

impl Default for RateLimit {
    /// A limiter without capacity, exemptions or buckets.
    fn default() -> (limiter: Self)
        ensures
            limiter.posts_per_minute == 0,
            limiter.whitelist is None,
            limiter.message is None,
            limiter.sources@ == Map::<Seq<char>, Tokens>::empty(),
    {
        RateLimit::new(0, None, None)
    }
}

/// The bucket of a submitter after `attempts` attempts made at the one
/// instant `now`, the first of which found no bucket.
pub open spec fn burst_bucket(posts_per_minute: i32, now: u128, attempts: nat) -> Option<Tokens>
    decreases attempts,
{
    if attempts == 0 {
        None
    } else {
        Some(
            judged(
                posts_per_minute,
                burst_bucket(posts_per_minute, now, (attempts - 1) as nat),
                now,
            ).1,
        )
    }
}

/// A submitter who is exempt is accepted whatever the clock reads and
/// whatever the buckets hold, and the buckets stay as they are: so every
/// later attempt is accepted too.
pub proof fn lemma_exempt_always_accepted(limiter: RateLimit, msg: &InputMessage, now: u128)
    requires
        limiter.exempt(RateLimit::submitter(msg)),
    ensures
        limiter.verdict_at(msg, now) == Verdict::accept(msg.event.id@),
        limiter.buckets_after(msg, now) == limiter.sources@,
{
}

/// A burst at one instant is bounded by the capacity: of the attempts that a
/// new submitter makes without any time passing, the first
/// `posts_per_minute` are let through and the next one is refused. With three
/// posts per minute that is three acceptances and then a rejection.
pub proof fn lemma_burst_is_bounded(posts_per_minute: i32, now: u128, attempt: nat)
    requires
        posts_per_minute >= 1,
        1 <= attempt <= posts_per_minute + 1,
    ensures
        judged(
            posts_per_minute,
            burst_bucket(posts_per_minute, now, (attempt - 1) as nat),
            now,
        ).0 == (attempt <= posts_per_minute),
        burst_bucket(posts_per_minute, now, attempt) == Some(
            Tokens { tokens: (posts_per_minute - attempt + 1) as i32, last_post: now },
        ),
    decreases attempt,
{
    if attempt > 1 {
        lemma_burst_is_bounded(posts_per_minute, now, (attempt - 1) as nat);
        assert(refill(posts_per_minute as int, 0) == 0) by (nonlinear_arith);
    }
}

/// Waiting out a full window restores the bucket: whatever a submitter had
/// left, even nothing after a rejection, an attempt made sixty seconds or
/// more after the last success leaves `posts_per_minute - 1`, the full bucket
/// less the charge for that attempt, and is let through.
///
/// A limit of one post per minute is left out: there the bucket is capped at
/// zero after every charge, so no charged attempt is ever let through.
pub proof fn lemma_full_window_restores(posts_per_minute: i32, bucket: Tokens, now: u128)
    requires
        posts_per_minute >= 2,
        bucket.tokens >= 0,
        seconds_between(bucket.last_post, now) >= REFILL_WINDOW,
    ensures
        judged(posts_per_minute, Some(bucket), now) == (
            true,
            Tokens { tokens: (posts_per_minute - 1) as i32, last_post: now },
        ),
{
    let rate = posts_per_minute as int;
    assert(refill(rate, 60) == rate) by (nonlinear_arith);
}

/// Without any capacity every charged attempt is refused: with
/// `posts_per_minute` at zero or below, a submitter who has a bucket is
/// refused whatever the clock reads.
pub proof fn lemma_no_capacity_refuses(posts_per_minute: i32, bucket: Tokens, now: u128)
    requires
        posts_per_minute <= 0,
    ensures
        judged(posts_per_minute, Some(bucket), now) == (
            false,
            Tokens { tokens: 0, last_post: bucket.last_post },
        ),
{
}

/// A bucket, once made, stays: judging a submission never removes a bucket,
/// and adds at most the one of the submitter.
pub proof fn lemma_buckets_are_kept(limiter: RateLimit, msg: &InputMessage, now: u128)
    ensures
        forall|who: Seq<char>|
            limiter.sources@.contains_key(who) ==> #[trigger] limiter.buckets_after(
                msg,
                now,
            ).contains_key(who),
        forall|who: Seq<char>|
            who != RateLimit::submitter(msg) && #[trigger] limiter.sources@.contains_key(who)
                ==> limiter.buckets_after(msg, now)[who] == limiter.sources@[who],
        forall|who: Seq<char>| #[trigger]
            limiter.buckets_after(msg, now).contains_key(who) ==> limiter.sources@.contains_key(
                who,
            ) || who == RateLimit::submitter(msg),
{
}

/// A refusal does not move the time from which the refill is reckoned, and
/// after any charged attempt the bucket holds at least nothing and, where
/// there is capacity at all, less than the capacity.
pub proof fn lemma_charged_bucket_is_bounded(posts_per_minute: i32, bucket: Tokens, now: u128)
    ensures
        !judged(posts_per_minute, Some(bucket), now).0 ==> judged(
            posts_per_minute,
            Some(bucket),
            now,
        ).1 == (Tokens { tokens: 0, last_post: bucket.last_post }),
        judged(posts_per_minute, Some(bucket), now).1.tokens >= 0,
        posts_per_minute >= 1 ==> judged(posts_per_minute, Some(bucket), now).1.tokens
            < posts_per_minute,
{
}

impl NoteFilter for RateLimit {
    open spec fn admits(&self, msg: &InputMessage, out: Verdict) -> bool {
        exists|now: u128| out == #[trigger] self.verdict_at(msg, now)
    }

    /// Judges `msg` as of the limiter's own clock.
    fn filter_note(&mut self, msg: &InputMessage) -> (out: OutputMessage)
        ensures
            exists|now: u128|
                out@ == #[trigger] old(self).verdict_at(msg, now) && final(self).sources@ == old(
                    self,
                ).buckets_after(msg, now),
            old(self).same_settings(final(self)),
            old(self).bounded() ==> final(self).bounded(),
    {
        let now = self.clock.now();
        self.filter_note_at(msg, now)
    }

    fn name(&self) -> (key: &'static str)
        ensures
            key@ == "ratelimit"@,
    {
        "ratelimit"
    }
}

} // verus!
