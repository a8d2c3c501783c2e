//! The event multiplexer: one stream of key and tick events for the UI loop.

use crate::inputs::key::{chord_of, Key, KeyPress};
use crate::inputs::InputEvent;
use crate::io::channel::recv;
use std::sync::mpsc::{Receiver, RecvError, Sender};
use vstd::prelude::*;

verus! {

/// How long one poll of the input source waits at most, in milliseconds; ticks
/// come no more often than this.
pub const TICK_RATE_MILLIS: u64 = 200;

/// The events that one round of polling produces: the key-chord of the key
/// press that arrived within the poll, if one did, and then always a tick.
pub open spec fn events_of(polled: Option<KeyPress>) -> Seq<InputEvent> {
    match polled {
        Some(press) => seq![InputEvent::Input(chord_of(press)), InputEvent::Tick],
        None => seq![InputEvent::Tick],
    }
}

/// Turns the outcome of one poll of the input source into the events to emit,
/// in the order in which they are to be sent.
pub fn multiplex(polled: Option<KeyPress>) -> (events: Vec<InputEvent>)
    ensures
        events@ == events_of(polled),
{
    let mut events: Vec<InputEvent> = Vec::new();
    if let Some(press) = polled {
        events.push(InputEvent::Input(Key::from_press(press)));
    }
    events.push(InputEvent::Tick);
    events
}

/// The multiplexer's channel has no sender left, so no event will come.
#[derive(Clone, Copy, Debug, PartialEq, Eq, Structural)]
pub struct Disconnected;

/// The receiving end of the multiplexed stream of input and tick events.
pub struct Events {
    rx: Receiver<InputEvent>,
    // Kept so that the channel never loses its last sender.
    _tx: Sender<InputEvent>,
}

/// What the stream makes of the outcome of one receive on its channel: the
/// event that arrived, or `Disconnected` when the channel has no sender left.
pub fn delivered(outcome: Result<InputEvent, RecvError>) -> (event: Result<
    InputEvent,
    Disconnected,
>)
    ensures
        event == match outcome {
            Ok(arrived) => Ok::<InputEvent, Disconnected>(arrived),
            Err(_) => Err::<InputEvent, Disconnected>(Disconnected),
        },
{
    match outcome {
        Ok(arrived) => Ok(arrived),
        Err(_) => Err(Disconnected),
    }
}

impl Events {
    /// The receiving half that `next` reads from.
    pub closed spec fn receiver(&self) -> Receiver<InputEvent> {
        self.rx
    }

    /// The sending half that the stream holds for as long as it lives.
    pub closed spec fn kept_sender(&self) -> Sender<InputEvent> {
        self._tx
    }

    /// Wraps the two halves of the multiplexer's channel: the stream reads
    /// from `rx`, and it holds `tx` for as long as it lives, which keeps the
    /// channel of `tx` open.
    pub fn from_channel(tx: Sender<InputEvent>, rx: Receiver<InputEvent>) -> (events: Events)
        ensures
            events.receiver() == rx,
            events.kept_sender() == tx,
    {
        Events { rx, _tx: tx }
    }

    /// Waits for the next event, blocking the current thread. Which event
    /// arrives is the senders' doing; see [`delivered`] for what is made of it.
    pub fn next(&self) -> Result<InputEvent, Disconnected> {
        delivered(recv(&self.rx))
    }
}

} // verus!
