//! Input side of the application: key-chords and the multiplexed event stream.

use crate::app::App;
use crate::inputs::key::Key;
use crate::io::{IoEvent, IoEventView};
use vstd::prelude::*;

pub mod events;
pub mod key;

verus! {

/// What the event multiplexer hands to the UI loop.
#[derive(Clone, Copy, Debug, PartialEq, Eq, Structural)]
pub enum InputEvent {
    /// An input event occurred.
    Input(Key),
    /// A tick event occurred.
    Tick,
}

/// The key that asks for a sleep when input goes to the application directly.
pub open spec fn sleep_key() -> Key {
    Key::Char('s')
}

/// Feeds a key to the application without going through its registry: `s`
/// asks the worker to sleep for the configured duration, and every other
/// key is left alone. Tells whether the key was taken.
pub fn handle_app(key: Key, app: &mut App) -> (taken: bool)
    ensures
        taken == (key == sleep_key()),
        taken ==> old(app)@.dispatch_leaves(
            IoEventView::Sleep(old(app)@.state.sleep_duration as u64),
            final(app)@,
        ),
        !taken ==> final(app)@ == old(app)@,
{
    match key {
        Key::Char('s') => {
            let _: Result<(), IoEvent> = app.do_sleep();
            true
        },
        _ => false,
    }
}

} // verus!
