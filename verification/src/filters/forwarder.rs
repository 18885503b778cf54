//! Best-effort relaying of every event that reaches this filter to a remote
//! collector. The filter only ever hands events to a bounded mailbox; the
//! worker that owns the connection is driven by `crate::relay`.

use crate::messages::{Action, InputMessage, OutputMessage, Verdict};
use crate::note_filter::{Note, NoteFilter};
use tokio::sync::mpsc::{Receiver, Sender};
use vstd::prelude::*;

verus! {

/// The mailbox capacity where none is configured.
pub const DEFAULT_QUEUE_SIZE: u32 = 1000;

/// `tokio::sync::mpsc::Sender`, the sending half of a bounded channel.
#[verifier::external_type_specification]
#[verifier::external_body]
#[verifier::reject_recursive_types(T)]
pub struct ExSender<T>(tokio::sync::mpsc::Sender<T>);

/// `tokio::sync::mpsc::Receiver`, the receiving half of a bounded channel.
#[verifier::external_type_specification]
#[verifier::external_body]
#[verifier::reject_recursive_types(T)]
pub struct ExReceiver<T>(tokio::sync::mpsc::Receiver<T>);

/// The largest capacity a mailbox can be opened with.
pub open spec fn max_queue_size() -> int {
    usize::MAX as int / 8
}

/// `tokio::sync::mpsc::channel` opens a bounded channel and hands out its two
/// halves. It panics on a capacity of zero and on one above an eighth of the
/// address space, so both are ruled out. Nothing is claimed of the halves.
pub assume_specification<T>[ tokio::sync::mpsc::channel::<T> ](buffer: usize) -> (Sender<T>, Receiver<T>)
    requires
        0 < buffer <= max_queue_size(),
;

/// What became of one event offered to the mailbox.
#[derive(Clone, Copy, Debug, PartialEq, Eq, Structural)]
pub enum Enqueue {
    /// The mailbox took the event.
    Queued,
    /// The mailbox was full; the event is dropped.
    Full,
    /// Nobody receives any more; the event is dropped.
    Closed,
}

/// `Sender::try_send` offers `note` to the channel without waiting. The
/// outcome depends on what the receiving side has taken out so far, so
/// nothing is claimed of it.
#[verifier::external_body]
fn offer(mailbox: &Sender<Note>, note: Note) -> Enqueue {
    match mailbox.try_send(note) {
        Ok(()) => Enqueue::Queued,
        Err(tokio::sync::mpsc::error::TrySendError::Full(_)) => Enqueue::Full,
        Err(tokio::sync::mpsc::error::TrySendError::Closed(_)) => Enqueue::Closed,
    }
}

/// Whether a mailbox can be opened with the configured size.
pub open spec fn valid_queue_size(queue_size: Option<u32>) -> bool {
    match queue_size {
        Some(size) => 0 < size <= max_queue_size(),
        None => true,
    }
}

/// The capacity that a configured size stands for.
pub open spec fn capacity_of(queue_size: Option<u32>) -> int {
    match queue_size {
        Some(size) => size as int,
        None => DEFAULT_QUEUE_SIZE as int,
    }
}

/// The count of dropped events after one more offer.
pub open spec fn dropped_after(dropped: u64, outcome: Enqueue) -> u64 {
    if outcome == Enqueue::Queued || dropped == u64::MAX {
        dropped
    } else {
        (dropped + 1) as u64
    }
}

/// Counts one more offer: an event that the mailbox did not take is one more
/// dropped event. The count stops at the largest number it can hold.
pub fn tally(dropped: u64, outcome: Enqueue) -> (count: u64)
    ensures
        count == dropped_after(dropped, outcome),
{
    match outcome {
        Enqueue::Queued => dropped,
        _ => if dropped < u64::MAX {
            dropped + 1
        } else {
            dropped
        },
    }
}

/// A filter that accepts everything and offers a copy of each event to the
/// mailbox of a relay worker.
pub struct Forwarder {
    relay: String,
    queue_size: Option<u32>,
    channel: Option<Sender<Note>>,
    inbox: Option<Receiver<Note>>,
    dropped: u64,
}

impl Forwarder {
    #[verifier::type_invariant]
    spec fn well_formed(self) -> bool {
        valid_queue_size(self.queue_size)
    }

    /// The endpoint events are relayed to.
    pub closed spec fn endpoint(&self) -> Seq<char> {
        self.relay@
    }

    /// The configured mailbox size.
    pub closed spec fn configured_size(&self) -> Option<u32> {
        self.queue_size
    }

    /// Whether the mailbox has been opened.
    pub closed spec fn started(&self) -> bool {
        self.channel is Some
    }

    /// Whether the receiving half of the mailbox still waits for a worker.
    pub closed spec fn inbox_waiting(&self) -> bool {
        self.inbox is Some
    }

    /// How many events were dropped so far.
    pub closed spec fn dropped_count(&self) -> u64 {
        self.dropped
    }

    /// A forwarder to `relay` that has not seen an event yet. There is none
    /// for a mailbox size that no mailbox can have.
    pub fn new(relay: String, queue_size: Option<u32>) -> (made: Option<Forwarder>)
        ensures
            made is Some <==> valid_queue_size(queue_size),
            made matches Some(f) ==> {
                &&& f.endpoint() == relay@
                &&& f.configured_size() == queue_size
                &&& !f.started()
                &&& !f.inbox_waiting()
                &&& f.dropped_count() == 0
            },
    {
        let fits = match queue_size {
            Some(size) => 0 < size && size as usize <= usize::MAX / 8,
            None => true,
        };
        if fits {
            Some(Forwarder { relay, queue_size, channel: None, inbox: None, dropped: 0 })
        } else {
            None
        }
    }

    /// The endpoint events are relayed to.
    pub fn relay(&self) -> (endpoint: &String)
        ensures
            endpoint@ == self.endpoint(),
    {
        &self.relay
    }

    /// The capacity of the mailbox.
    pub fn capacity(&self) -> (capacity: usize)
        ensures
            capacity == capacity_of(self.configured_size()),
            0 < capacity <= max_queue_size(),
    {
        proof {
            use_type_invariant(self);
        }
        match self.queue_size {
            Some(size) => size as usize,
            None => DEFAULT_QUEUE_SIZE as usize,
        }
    }

    /// How many events were dropped so far because the mailbox would not take
    /// them.
    pub fn dropped(&self) -> (count: u64)
        ensures
            count == self.dropped_count(),
    {
        self.dropped
    }

    /// Hands out the receiving half of the mailbox, once, to whoever runs the
    /// relay worker.
    pub fn take_inbox(&mut self) -> (inbox: Option<Receiver<Note>>)
        ensures
            inbox is Some <==> old(self).inbox_waiting(),
            !final(self).inbox_waiting(),
            final(self).started() == old(self).started(),
            final(self).dropped_count() == old(self).dropped_count(),
            final(self).endpoint() == old(self).endpoint(),
            final(self).configured_size() == old(self).configured_size(),
    {
        proof {
            use_type_invariant(&*self);
        }
        let mut inbox: Option<Receiver<Note>> = None;
        core::mem::swap(&mut self.inbox, &mut inbox);
        inbox
    }

    /// Takes note of what became of one offer.
    fn record(&mut self, outcome: Enqueue)
        ensures
            final(self).dropped_count() == dropped_after(old(self).dropped_count(), outcome),
            final(self).started() == old(self).started(),
            final(self).inbox_waiting() == old(self).inbox_waiting(),
            final(self).endpoint() == old(self).endpoint(),
            final(self).configured_size() == old(self).configured_size(),
    {
        proof {
            use_type_invariant(&*self);
        }
        self.dropped = tally(self.dropped, outcome);
    }
}

impl Default for Forwarder {
    /// A forwarder without an endpoint, with the default mailbox size.
    fn default() -> (made: Self)
        ensures
            made.endpoint() == Seq::<char>::empty(),
            made.configured_size() is None,
            !made.started(),
            !made.inbox_waiting(),
            made.dropped_count() == 0,
    {
        Forwarder { relay: String::new(), queue_size: None, channel: None, inbox: None, dropped: 0 }
    }
}

impl NoteFilter for Forwarder {
    open spec fn admits(&self, msg: &InputMessage, out: Verdict) -> bool {
        out == Verdict::accept(msg.event.id@)
    }

    /// Offers a copy of the event to the mailbox, opening the mailbox on the
    /// first call, and accepts. Never waits; an event that the mailbox will
    /// not take is dropped and counted.
    fn filter_note(&mut self, msg: &InputMessage) -> (out: OutputMessage)
        ensures
            out@ == Verdict::accept(msg.event.id@),
            final(self).started(),
            final(self).inbox_waiting() == (old(self).inbox_waiting() || !old(self).started()),
            exists|outcome: Enqueue|
                final(self).dropped_count() == #[trigger] dropped_after(
                    old(self).dropped_count(),
                    outcome,
                ),
            final(self).endpoint() == old(self).endpoint(),
            final(self).configured_size() == old(self).configured_size(),
    {
        proof {
            use_type_invariant(&*self);
        }
        if self.channel.is_none() {
            let (tx, rx) = tokio::sync::mpsc::channel::<Note>(self.capacity());
            self.channel = Some(tx);
            self.inbox = Some(rx);
        }
        let outcome = match &self.channel {
            Some(mailbox) => offer(mailbox, msg.event.duplicate()),
            None => Enqueue::Closed,
        };
        self.record(outcome);
        assert(self.dropped_count() == dropped_after(old(self).dropped_count(), outcome));
        OutputMessage::new(msg.event.id.clone(), Action::Accept, None)
    }

    fn name(&self) -> (key: &'static str)
        ensures
            key@ == "forwarder"@,
    {
        "forwarder"
    }
}

} // verus!
