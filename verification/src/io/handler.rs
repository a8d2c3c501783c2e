//! The decisions of the worker that handles IO events off the UI thread.
//!
//! Handling an event has two halves with a suspension between them: the
//! worker first learns for how long to suspend, and once that time has passed
//! it applies the event to the shared state. The suspension itself is the
//! caller's to perform, without holding the state.

use crate::app::state::{
    appended_all, lemma_add_evicts_oldest, lemma_log_keeps_newest, newest, AppStateView,
};
use crate::app::{App, AppView};
use crate::io::{IoEvent, IoEventView};
use vstd::prelude::*;

verus! {

/// The fixed delay of the bootstrap initialization, in seconds.
pub const BOOTSTRAP_SECS: u64 = 1;

/// For how many seconds the worker suspends before it applies `event`; nothing
/// for an event that is applied at once.
pub open spec fn suspension_of(event: IoEventView) -> Option<u64> {
    match event {
        IoEventView::Initialize => Some(BOOTSTRAP_SECS),
        IoEventView::Sleep(seconds) => Some(seconds),
        IoEventView::AddMessage(_) => None,
    }
}

/// What `event` does to the state once its suspension is over.
pub open spec fn effect_of(state: AppStateView, event: IoEventView) -> AppStateView {
    match event {
        IoEventView::Initialize => state.mark_initialized(),
        IoEventView::Sleep(_) => state.incr_sleep(),
        IoEventView::AddMessage(text) => state.add_message(text),
    }
}

/// The state after the worker is done with `event`: the effect of the event
/// if handling it succeeded, and in either case no longer loading.
pub open spec fn handled(state: AppStateView, event: IoEventView, succeeded: bool) -> AppStateView {
    if succeeded {
        effect_of(state, event).mark_loaded()
    } else {
        state.mark_loaded()
    }
}

/// The state after the worker has handled each of `events` in turn, every one
/// with success.
pub open spec fn handled_all(state: AppStateView, events: Seq<IoEventView>) -> AppStateView
    decreases events.len(),
{
    if events.len() == 0 {
        state
    } else {
        handled(handled_all(state, events.drop_last()), events.last(), true)
    }
}

/// The number of sleeps among `events`.
pub open spec fn sleeps_in(events: Seq<IoEventView>) -> nat
    decreases events.len(),
{
    if events.len() == 0 {
        0
    } else if events.last() is Sleep {
        sleeps_in(events.drop_last()) + 1
    } else {
        sleeps_in(events.drop_last())
    }
}

/// The texts of the messages among `events`, in the order of the events.
pub open spec fn texts_in(events: Seq<IoEventView>) -> Seq<Seq<char>>
    decreases events.len(),
{
    if events.len() == 0 {
        Seq::empty()
    } else {
        match events.last() {
            IoEventView::AddMessage(text) => texts_in(events.drop_last()).push(text),
            _ => texts_in(events.drop_last()),
        }
    }
}

/// Whether an initialization is among `events`.
pub open spec fn initializes(events: Seq<IoEventView>) -> bool {
    exists|i: int| 0 <= i < events.len() && events[i] is Initialize
}

/// Only an initialization that succeeded marks the application initialized,
/// and nothing the worker handles takes that mark away again.
pub proof fn lemma_initialized_by_initialize_only(
    state: AppStateView,
    event: IoEventView,
    succeeded: bool,
)
    ensures
        handled(state, event, succeeded).initialized == (state.initialized || (succeeded
            && event is Initialize)),
        !handled(state, event, succeeded).is_loading,
        state.wf() ==> handled(state, event, succeeded).wf(),
{
    if let IoEventView::AddMessage(text) = event {
        if state.wf() {
            lemma_add_evicts_oldest(state.messages, text);
        }
    }
}

/// The application is loading from the moment the queue accepts an event until
/// the worker is done with it, whether handling it succeeded or not; an event
/// that the queue refused leaves nothing loading.
pub proof fn lemma_loading_until_handled(app: AppView, event: IoEventView, succeeded: bool)
    ensures
        app.accepted(event).state.is_loading,
        !handled(app.accepted(event).state, event, succeeded).is_loading,
        !app.refused().state.is_loading,
{
}

/// Events take effect in the order in which the worker handles them. After a
/// run of events the sleep counter has grown by the number of sleeps among
/// them (it stops at its largest value), the log holds the newest of its old
/// entries followed by the added messages in their order, the application is
/// initialized if it was before or an initialization was among the events,
/// and nothing is loading once at least one event was handled. Ticks and the
/// sleep duration are not the worker's to change.
pub proof fn lemma_worker_handles_in_order(state: AppStateView, events: Seq<IoEventView>)
    requires
        state.wf(),
    ensures
        ({
            let end = handled_all(state, events);
            &&& end.wf()
            &&& end.sleep_count == if state.sleep_count + sleeps_in(events) <= u32::MAX {
                state.sleep_count + sleeps_in(events)
            } else {
                u32::MAX as nat
            }
            &&& end.messages == newest(state.messages + texts_in(events))
            &&& end.messages == appended_all(state.messages, texts_in(events))
            &&& end.initialized == (state.initialized || initializes(events))
            &&& end.is_loading == (events.len() == 0 && state.is_loading)
            &&& end.tick_count == state.tick_count
            &&& end.sleep_duration == state.sleep_duration
        }),
    decreases events.len(),
{
    if events.len() > 0 {
        let init = events.drop_last();
        let before = handled_all(state, init);
        lemma_worker_handles_in_order(state, init);
        lemma_initialized_by_initialize_only(before, events.last(), true);
        assert(initializes(events) == (initializes(init) || events.last() is Initialize)) by {
            if initializes(init) {
                let i = choose|i: int| 0 <= i < init.len() && init[i] is Initialize;
                assert(events[i] is Initialize);
            }
            if initializes(events) {
                let i = choose|i: int| 0 <= i < events.len() && events[i] is Initialize;
                if i < init.len() {
                    assert(init[i] is Initialize);
                }
            }
        }
    }
    lemma_log_keeps_newest(state.messages, texts_in(events));
}

/// Tells for how many seconds the worker is to suspend before `event` takes
/// effect.
pub fn suspension(event: &IoEvent) -> (seconds: Option<u64>)
    ensures
        seconds == suspension_of(event@),
{
    match event {
        IoEvent::Initialize => Some(BOOTSTRAP_SECS),
        IoEvent::Sleep(seconds) => Some(*seconds),
        IoEvent::AddMessage(_) => None,
    }
}

/// Finishes the handling of `io_event` after its suspension. When handling
/// succeeded the event takes effect: an initialization marks the application
/// initialized, a sleep is counted, a message joins the log. Whether it
/// succeeded or not, the application is no longer loading afterwards.
pub fn handle_io_event(app: &mut App, io_event: IoEvent, succeeded: bool)
    ensures
        final(app)@ == old(app)@.with_state(handled(old(app)@.state, io_event@, succeeded)),
{
    if succeeded {
        match io_event {
            IoEvent::Initialize => app.initialize(),
            IoEvent::Sleep(_) => app.incr_sleep(),
            IoEvent::AddMessage(message) => app.do_add_message(message),
        }
    }
    app.loaded();
}

} // verus!
