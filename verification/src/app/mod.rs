//! The application: its action registry, its shared state and the queue that
//! leads to the worker.

use crate::app::action::{default_bindings, first_binding, ActionName, ActionView, Actions};
use crate::app::state::{AppState, AppStateView, MAX_SLEEP_SECS, MIN_SLEEP_SECS};
use crate::inputs::key::Key;
use crate::io::channel::send;
use crate::io::{IoEvent, IoEventView};
use std::sync::mpsc::Sender;
use vstd::prelude::*;

pub mod action;
pub mod state;
pub mod ui;

verus! {

/// What the UI loop does after an event was handled.
#[derive(Clone, Copy, Debug, PartialEq, Eq, Structural)]
pub enum AppReturn {
    /// Leave the loop.
    Exit,
    /// Go on with the next iteration.
    Continue,
}

/// The mathematical value of an [`App`].
pub struct AppView {
    /// The registered actions, in registration order.
    pub actions: Seq<ActionView>,
    /// The shared state.
    pub state: AppStateView,
    /// The events that the queue to the worker has accepted from this
    /// application, oldest first.
    pub dispatched: Seq<IoEventView>,
}

/// What a key press asks of the application.
pub enum Request {
    /// Leave the application.
    Exit,
    /// Hand this event to the worker.
    Dispatch(IoEventView),
    /// Make the sleep duration one second longer.
    IncreaseDelay,
    /// Make the sleep duration one second shorter.
    DecreaseDelay,
    /// Nothing: no registered action is bound to the key.
    Nothing,
}

impl AppView {
    /// The request that the first registered action bound to `key` stands for.
    pub open spec fn request_for(self, key: Key) -> Request {
        match first_binding(self.actions, key) {
            None => Request::Nothing,
            Some(index) => match self.actions[index].name {
                ActionName::Quit => Request::Exit,
                ActionName::Sleep => Request::Dispatch(
                    IoEventView::Sleep(self.state.sleep_duration as u64),
                ),
                ActionName::IncreaseDelay => Request::IncreaseDelay,
                ActionName::DecreaseDelay => Request::DecreaseDelay,
            },
        }
    }

    /// The application after the queue accepted `event`: it is loading, and
    /// the event is the newest of those dispatched.
    pub open spec fn accepted(self, event: IoEventView) -> AppView {
        AppView {
            state: self.state.mark_loading(),
            dispatched: self.dispatched.push(event),
            ..self
        }
    }

    /// The application after the queue refused an event: it is not loading,
    /// and nothing was dispatched.
    pub open spec fn refused(self) -> AppView {
        AppView { state: self.state.mark_loaded(), ..self }
    }

    /// The application with `state` in place of its state.
    pub open spec fn with_state(self, state: AppStateView) -> AppView {
        AppView { state, ..self }
    }

    /// Whether `after` is what a dispatch of `event` can leave of `self`.
    pub open spec fn dispatch_leaves(self, event: IoEventView, after: AppView) -> bool {
        after == self.accepted(event) || after == self.refused()
    }

    /// Whether `after` is what handling `key` can leave of `self`, together
    /// with the answer `outcome` to the UI loop.
    pub open spec fn action_leaves(self, key: Key, after: AppView, outcome: AppReturn) -> bool {
        match self.request_for(key) {
            Request::Exit => outcome == AppReturn::Exit && after == self,
            Request::Dispatch(event) => outcome == AppReturn::Continue && self.dispatch_leaves(
                event,
                after,
            ),
            Request::IncreaseDelay => outcome == AppReturn::Continue && after == self.with_state(
                self.state.increment_delay(),
            ),
            Request::DecreaseDelay => outcome == AppReturn::Continue && after == self.with_state(
                self.state.decrement_delay(),
            ),
            Request::Nothing => outcome == AppReturn::Continue && after == self,
        }
    }
}

/// The main application: the contextual actions, the state, and the sending
/// half of the queue to the worker.
pub struct App {
    actions: Actions,
    state: AppState,
    io_tx: Sender<IoEvent>,
    dispatched: Ghost<Seq<IoEventView>>,
}

impl View for App {
    type V = AppView;

    closed spec fn view(&self) -> AppView {
        AppView { actions: self.actions@, state: self.state@, dispatched: self.dispatched@ }
    }
}

impl App {
    /// An application at startup with the default key bindings, sending its
    /// work through `io_tx`.
    pub fn new(io_tx: Sender<IoEvent>) -> (app: App)
        ensures
            app@.actions == default_bindings(),
            app@.state == AppStateView::initial(),
            app@.dispatched == Seq::<IoEventView>::empty(),
    {
        App::with_actions(Actions::default(), io_tx)
    }

    /// An application at startup with the registry `actions`, sending its
    /// work through `io_tx`.
    pub fn with_actions(actions: Actions, io_tx: Sender<IoEvent>) -> (app: App)
        ensures
            app@.actions == actions@,
            app@.state == AppStateView::initial(),
            app@.dispatched == Seq::<IoEventView>::empty(),
    {
        App { actions, state: AppState::new(), io_tx, dispatched: Ghost(Seq::empty()) }
    }

    /// The contextual actions.
    pub fn actions(&self) -> (actions: &Actions)
        ensures
            actions@ == self@.actions,
    {
        &self.actions
    }

    /// The shared state.
    pub fn state(&self) -> (state: &AppState)
        ensures
            state@ == self@.state,
    {
        &self.state
    }

    /// Takes the answer of the queue to an event that was handed to it while
    /// the application was marked as loading. An event that the queue took
    /// leaves the application as it is. A refused event, which means that the
    /// receiving half of the queue is gone, clears the loading flag again and
    /// is given back to the caller.
    pub fn settle(&mut self, answer: Result<(), IoEvent>) -> (reported: Result<(), IoEvent>)
        ensures
            match answer {
                Ok(()) => reported is Ok && final(self)@ == old(self)@,
                Err(rejected) => {
                    &&& reported == Err::<(), IoEvent>(rejected)
                    &&& final(self)@ == old(self)@.refused()
                },
            },
    {
        match answer {
            Ok(()) => Ok(()),
            Err(rejected) => {
                self.state.mark_loaded();
                Err(rejected)
            },
        }
    }

    /// Marks the application as loading and hands `event` to the queue of the
    /// worker. When the queue refuses it, because its receiving half is gone,
    /// the loading flag is cleared again and the event is given back.
    pub fn dispatch(&mut self, event: IoEvent) -> (outcome: Result<(), IoEvent>)
        ensures
            match outcome {
                Ok(()) => final(self)@ == old(self)@.accepted(event@),
                Err(rejected) => rejected == event && final(self)@ == old(self)@.refused(),
            },
    {
        let ghost sent = event@;
        self.state.mark_loading();
        let answer = send(&self.io_tx, event);
        let outcome = self.settle(answer);
        if outcome.is_ok() {
            proof {
                self.dispatched@ = self.dispatched@.push(sent);
            }
        }
        outcome
    }

    /// Handles a user action: runs what the first registered action bound to
    /// `key` stands for, and ignores a key that no action is bound to.
    pub fn do_action(&mut self, key: Key) -> (outcome: AppReturn)
        ensures
            old(self)@.action_leaves(key, final(self)@, outcome),
    {
        let name = match self.actions.find(key) {
            Some(action) => Some(action.name()),
            None => None,
        };
        match name {
            Some(ActionName::Quit) => AppReturn::Exit,
            Some(ActionName::Sleep) => {
                let _ = self.do_sleep();
                AppReturn::Continue
            },
            Some(ActionName::IncreaseDelay) => {
                self.state.increment_delay();
                AppReturn::Continue
            },
            Some(ActionName::DecreaseDelay) => {
                self.state.decrement_delay();
                AppReturn::Continue
            },
            None => AppReturn::Continue,
        }
    }

    /// Asks the worker to sleep for the configured duration.
    pub fn do_sleep(&mut self) -> (outcome: Result<(), IoEvent>)
        ensures
            match outcome {
                Ok(()) => final(self)@ == old(self)@.accepted(
                    IoEventView::Sleep(old(self)@.state.sleep_duration as u64),
                ),
                Err(rejected) => {
                    &&& rejected@ == IoEventView::Sleep(old(self)@.state.sleep_duration as u64)
                    &&& final(self)@ == old(self)@.refused()
                },
            },
    {
        let seconds = self.state.duration();
        self.dispatch(IoEvent::Sleep(seconds))
    }

    /// Whether the bootstrap initialization has completed.
    pub fn is_initialized(&self) -> (initialized: bool)
        ensures
            initialized == self@.state.initialized,
    {
        self.state.is_initialized()
    }

    /// Whether an event handed to the worker is still being handled.
    pub fn is_loading(&self) -> (loading: bool)
        ensures
            loading == self@.state.is_loading,
    {
        self.state.is_loading()
    }

    /// Number of sleeps completed.
    pub fn count_sleep(&self) -> (sleeps: u32)
        ensures
            sleeps == self@.state.sleep_count,
    {
        self.state.count_sleep()
    }

    /// Number of ticks seen.
    pub fn count_tick(&self) -> (ticks: u64)
        ensures
            ticks == self@.state.tick_count,
    {
        self.state.count_tick()
    }

    /// The configured sleep duration in seconds, between one and ten.
    pub fn duration(&self) -> (seconds: u64)
        ensures
            seconds == self@.state.sleep_duration,
            MIN_SLEEP_SECS <= seconds <= MAX_SLEEP_SECS,
    {
        self.state.duration()
    }

    /// Records that the bootstrap initialization has completed.
    pub fn initialize(&mut self)
        ensures
            final(self)@ == old(self)@.with_state(old(self)@.state.mark_initialized()),
    {
        self.state.mark_initialized();
    }

    /// Records that the worker has finished handling an event.
    pub fn loaded(&mut self)
        ensures
            final(self)@ == old(self)@.with_state(old(self)@.state.mark_loaded()),
    {
        self.state.mark_loaded();
    }

    /// Counts one completed sleep.
    pub fn incr_sleep(&mut self)
        ensures
            final(self)@ == old(self)@.with_state(old(self)@.state.incr_sleep()),
    {
        self.state.incr_sleep();
    }

    /// Adds `message` to the log; a full log first gives up its oldest entry.
    pub fn do_add_message(&mut self, message: String)
        ensures
            final(self)@ == old(self)@.with_state(old(self)@.state.add_message(message@)),
    {
        self.state.add_message(message);
    }

    /// Updates the application on a tick of the clock: counts it.
    pub fn update_on_tick(&mut self) -> (outcome: AppReturn)
        ensures
            outcome == AppReturn::Continue,
            final(self)@ == old(self)@.with_state(old(self)@.state.incr_tick()),
    {
        self.state.incr_tick();
        AppReturn::Continue
    }
}

} // verus!
