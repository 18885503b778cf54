//! The worker behind the forwarding filter, as a machine.
//!
//! The worker owns one connection to the collector and the receiving half of
//! the mailbox. Connecting, waiting and writing are done by whoever embeds
//! the library; every decision is made here. The embedding carries out a
//! `Command`, reports what happened as an `Event`, and gets the next command
//! from `advance`.
//!
//! Relaying is best effort. An event is written once: where the write fails,
//! the event is lost and the worker reconnects. Events that wait in the
//! mailbox meanwhile stay there, because the mailbox is only read while the
//! connection stands.

use vstd::prelude::*;
use vstd::string::*;

verus! {

/// Seconds to wait after a failed attempt to connect before the next one.
pub const RETRY_DELAY: u64 = 5;

/// Seconds without an event from the mailbox after which the connection is
/// probed.
pub const IDLE_TIMEOUT: u64 = 10;

/// What a relayed event is prefixed with on the wire.
pub const FRAME_OPEN: &'static str = "[\"EVENT\",";

/// What a relayed event is followed by on the wire.
pub const FRAME_CLOSE: &'static str = "]";

/// Where the worker stands.
#[derive(Clone, Copy, Debug, PartialEq, Eq, Structural)]
pub enum Link {
    /// No connection; attempts go on until one succeeds.
    Connecting,
    /// The connection stands; the mailbox is being served.
    Connected,
    /// The mailbox was closed; the worker has ended.
    Stopped,
}

/// What the embedding reports back.
#[derive(Debug, Clone, PartialEq, Eq)]
pub enum Event {
    /// An attempt to connect failed.
    ConnectFailed,
    /// An attempt to connect succeeded.
    ConnectOk,
    /// The mailbox handed out an event, given here as its JSON text.
    Item(String),
    /// The idle timeout passed without an event from the mailbox.
    Idle,
    /// The mailbox is closed for good.
    Closed,
    /// A frame or a probe was written.
    Written,
    /// Writing a frame or a probe failed.
    WriteFailed,
}

/// What the embedding is to do next.
#[derive(Debug, Clone, PartialEq, Eq)]
pub enum Command {
    /// Wait `delay` seconds, then try to connect.
    Connect { delay: u64 },
    /// Wait for the next event from the mailbox, at most `timeout` seconds.
    Receive { timeout: u64 },
    /// Write `frame` as one text message.
    Send { frame: String },
    /// Write an empty keepalive probe.
    Ping,
    /// End the worker.
    Stop,
}

/// The mathematical content of an `Event`.
pub ghost enum EventView {
    ConnectFailed,
    ConnectOk,
    Item(Seq<char>),
    Idle,
    Closed,
    Written,
    WriteFailed,
}

/// The mathematical content of a `Command`.
pub ghost enum CommandView {
    Connect { delay: u64 },
    Receive { timeout: u64 },
    Send { frame: Seq<char> },
    Ping,
    Stop,
}

impl View for Event {
    type V = EventView;

    open spec fn view(&self) -> EventView {
        match *self {
            Event::ConnectFailed => EventView::ConnectFailed,
            Event::ConnectOk => EventView::ConnectOk,
            Event::Item(json) => EventView::Item(json@),
            Event::Idle => EventView::Idle,
            Event::Closed => EventView::Closed,
            Event::Written => EventView::Written,
            Event::WriteFailed => EventView::WriteFailed,
        }
    }
}

impl View for Command {
    type V = CommandView;

    open spec fn view(&self) -> CommandView {
        match *self {
            Command::Connect { delay } => CommandView::Connect { delay },
            Command::Receive { timeout } => CommandView::Receive { timeout },
            Command::Send { frame } => CommandView::Send { frame: frame@ },
            Command::Ping => CommandView::Ping,
            Command::Stop => CommandView::Stop,
        }
    }
}

/// The text message that relays an event: a two-element array of the word
/// `EVENT` and the event.
pub open spec fn frame_of(event_json: Seq<char>) -> Seq<char> {
    FRAME_OPEN@ + event_json + FRAME_CLOSE@
}

/// Wraps the JSON text of an event into the message that relays it.
pub fn relay_frame(event_json: &str) -> (frame: String)
    ensures
        frame@ == frame_of(event_json@),
{
    let mut frame = FRAME_OPEN.to_owned();
    frame.append(event_json);
    frame.append(FRAME_CLOSE);
    frame
}

/// The command a worker starts with.
pub open spec fn first_command() -> CommandView {
    CommandView::Connect { delay: 0 }
}

/// One move of the worker: where it stands after `event` and what is to be
/// done next.
///
/// While connecting, a success leads on to serving the mailbox and anything
/// else to another attempt after the retry delay. While connected, an event
/// from the mailbox is written as its frame, idleness is answered with a
/// probe, a failed write leads back to connecting at once, the closing of
/// the mailbox ends the worker, and anything else, a completed write above
/// all, leads back to the mailbox. A worker that has ended stays ended.
///
/// The function is total so that no report can stall the worker. An
/// embedding that carries out each command and reports its outcome only
/// ever reports what the command can come to.
pub open spec fn step(link: Link, event: EventView) -> (Link, CommandView) {
    match link {
        Link::Connecting => match event {
            EventView::ConnectOk => (Link::Connected, CommandView::Receive { timeout: IDLE_TIMEOUT }),
            _ => (Link::Connecting, CommandView::Connect { delay: RETRY_DELAY }),
        },
        Link::Connected => match event {
            EventView::Item(json) => (Link::Connected, CommandView::Send { frame: frame_of(json) }),
            EventView::Idle => (Link::Connected, CommandView::Ping),
            EventView::Closed => (Link::Stopped, CommandView::Stop),
            EventView::WriteFailed => (Link::Connecting, CommandView::Connect { delay: 0 }),
            _ => (Link::Connected, CommandView::Receive { timeout: IDLE_TIMEOUT }),
        },
        Link::Stopped => (Link::Stopped, CommandView::Stop),
    }
}

/// Starts a worker: it is connecting, and the first attempt is due at once.
pub fn start() -> (begun: (Link, Command))
    ensures
        begun.0 == Link::Connecting,
        begun.1@ == first_command(),
{
    (Link::Connecting, Command::Connect { delay: 0 })
}

/// Decides the worker's next move from where it stands and what happened.
pub fn advance(link: Link, event: Event) -> (next: (Link, Command))
    ensures
        next.0 == step(link, event@).0,
        next.1@ == step(link, event@).1,
{
    match link {
        Link::Connecting => match event {
            Event::ConnectOk => (Link::Connected, Command::Receive { timeout: IDLE_TIMEOUT }),
            _ => (Link::Connecting, Command::Connect { delay: RETRY_DELAY }),
        },
        Link::Connected => match event {
            Event::Item(json) => {
                let frame = relay_frame(json.as_str());
                (Link::Connected, Command::Send { frame })
            },
            Event::Idle => (Link::Connected, Command::Ping),
            Event::Closed => (Link::Stopped, Command::Stop),
            Event::WriteFailed => (Link::Connecting, Command::Connect { delay: 0 }),
            _ => (Link::Connected, Command::Receive { timeout: IDLE_TIMEOUT }),
        },
        Link::Stopped => (Link::Stopped, Command::Stop),
    }
}

/// Where a worker stands after a series of events.
pub open spec fn link_after(link: Link, events: Seq<EventView>) -> Link
    decreases events.len(),
{
    if events.len() == 0 {
        link
    } else {
        step(link_after(link, events.drop_last()), events.last()).0
    }
}

/// The commands that a series of events draws from a worker, one for each
/// event.
pub open spec fn commands_for(link: Link, events: Seq<EventView>) -> Seq<CommandView>
    decreases events.len(),
{
    if events.len() == 0 {
        Seq::empty()
    } else {
        commands_for(link, events.drop_last()).push(
            step(link_after(link, events.drop_last()), events.last()).1,
        )
    }
}

/// Each event draws exactly one command.
pub proof fn lemma_one_command_each(link: Link, events: Seq<EventView>)
    ensures
        commands_for(link, events).len() == events.len(),
    decreases events.len(),
{
    if events.len() > 0 {
        lemma_one_command_each(link, events.drop_last());
    }
}

/// The command that an event draws is the move that the worker makes from
/// where the events before it have taken it.
pub proof fn lemma_command_at(link: Link, events: Seq<EventView>, at: int)
    requires
        0 <= at < events.len(),
    ensures
        commands_for(link, events).len() == events.len(),
        commands_for(link, events)[at] == step(link_after(link, events.take(at)), events[at]).1,
    decreases events.len(),
{
    let earlier = events.drop_last();
    lemma_one_command_each(link, events);
    lemma_one_command_each(link, earlier);
    if at < events.len() - 1 {
        lemma_command_at(link, earlier, at);
        assert(earlier.take(at) =~= events.take(at));
    } else {
        assert(events.take(at) =~= earlier);
    }
}

/// Over any course of events, every frame that is written answers an event
/// that the mailbox handed out at that very moment, and is the frame of that
/// event: nothing is written that was not taken from the mailbox, and
/// nothing that was taken is written a second time.
pub proof fn lemma_every_frame_answers_its_item(link: Link, events: Seq<EventView>, at: int)
    requires
        0 <= at < events.len(),
        commands_for(link, events)[at] is Send,
    ensures
        link_after(link, events.take(at)) == Link::Connected,
        events[at] is Item,
        commands_for(link, events)[at] == (CommandView::Send {
            frame: frame_of(events[at]->Item_0),
        }),
{
    lemma_command_at(link, events, at);
}

/// A lost connection is re-established and service resumes: after a failed
/// write and any number of failed attempts to connect, the first successful
/// attempt puts the worker back to serving the mailbox. Until then it does
/// nothing but connect, at once after the failed write and after the retry
/// delay after each failed attempt, so the mailbox is not read and what
/// waits in it is still there when service resumes.
pub proof fn lemma_reconnect_resumes(failures: nat)
    ensures
        ({
            let outage = seq![EventView::WriteFailed] + Seq::new(
                failures,
                |i: int| EventView::ConnectFailed,
            );
            let attempts = seq![CommandView::Connect { delay: 0 }] + Seq::new(
                failures,
                |i: int| CommandView::Connect { delay: RETRY_DELAY },
            );
            &&& link_after(Link::Connected, outage) == Link::Connecting
            &&& commands_for(Link::Connected, outage) == attempts
            &&& link_after(Link::Connected, outage.push(EventView::ConnectOk)) == Link::Connected
            &&& commands_for(Link::Connected, outage.push(EventView::ConnectOk)) == attempts.push(
                CommandView::Receive { timeout: IDLE_TIMEOUT },
            )
        }),
    decreases failures,
{
    let outage = seq![EventView::WriteFailed] + Seq::new(
        failures,
        |i: int| EventView::ConnectFailed,
    );
    let attempts = seq![CommandView::Connect { delay: 0 }] + Seq::new(
        failures,
        |i: int| CommandView::Connect { delay: RETRY_DELAY },
    );
    if failures == 0 {
        assert(commands_for(Link::Connected, outage.drop_last()) =~= Seq::<CommandView>::empty());
    } else {
        lemma_reconnect_resumes((failures - 1) as nat);
        let shorter = seq![EventView::WriteFailed] + Seq::new(
            (failures - 1) as nat,
            |i: int| EventView::ConnectFailed,
        );
        assert(outage.drop_last() =~= shorter);
        assert(outage.last() == EventView::ConnectFailed);
    }
    let resumed = outage.push(EventView::ConnectOk);
    assert(resumed.drop_last() =~= outage);
}

/// Nothing is relayed twice: a frame is only ever written in answer to an
/// event that the mailbox has just handed out, it is the frame of that very
/// event, and the mailbox is not asked again before the write has been
/// reported. So each event taken from the mailbox is written at most once,
/// and one whose write was confirmed is never written again.
pub proof fn lemma_sends_answer_items(link: Link, event: EventView)
    ensures
        step(link, event).1 is Send <==> link == Link::Connected && event is Item,
        event matches EventView::Item(json) ==> link == Link::Connected ==> step(link, event)
            == (Link::Connected, CommandView::Send { frame: frame_of(json) }),
{
}

/// The mailbox is only read while the connection stands: a worker that is
/// connecting, or has stopped, never asks for an event.
pub proof fn lemma_mailbox_waits_for_connection(link: Link, event: EventView)
    requires
        step(link, event).1 is Receive,
    ensures
        step(link, event).0 == Link::Connected,
        link == Link::Connected || event == EventView::ConnectOk,
{
}

/// The worker never gives up: it ends only when the mailbox is closed, and
/// while it is connecting every failure is answered with another attempt.
pub proof fn lemma_never_gives_up(link: Link, event: EventView)
    requires
        link != Link::Stopped,
    ensures
        step(link, event).0 == Link::Stopped <==> link == Link::Connected && event
            == EventView::Closed,
        link == Link::Connecting && event != EventView::ConnectOk ==> step(link, event) == (
            Link::Connecting,
            CommandView::Connect { delay: RETRY_DELAY },
        ),
{
}

} // verus!
