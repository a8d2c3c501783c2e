//! The decisions of the UI loop.
//!
//! Each iteration of the loop begins, renders, waits for the next event of
//! the multiplexer and handles it. Rendering and waiting are the caller's;
//! what is decided at the beginning of an iteration and on each event is here.

use crate::app::{App, AppReturn, AppView};
use crate::inputs::key::Key;
use crate::inputs::InputEvent;
use crate::io::{IoEvent, IoEventView};
use vstd::prelude::*;

verus! {

/// The states of the UI loop.
#[derive(Clone, Copy, Debug, PartialEq, Eq, Structural)]
pub enum UiPhase {
    /// The loop renders and handles events.
    Running,
    /// The quit action was taken: the loop is over.
    Terminating,
}

/// The mathematical value of a [`UiLoop`].
pub struct UiLoopView {
    /// The state of the loop.
    pub phase: UiPhase,
    /// Whether no iteration has begun yet.
    pub first_iteration: bool,
}

impl UiLoopView {
    /// A loop that has not begun its first iteration.
    pub open spec fn initial() -> UiLoopView {
        UiLoopView { phase: UiPhase::Running, first_iteration: true }
    }

    /// Whether beginning an iteration dispatches the initialization.
    pub open spec fn owes_initialize(self) -> bool {
        self.phase == UiPhase::Running && self.first_iteration
    }

    /// The loop after an iteration has begun.
    pub open spec fn begun(self) -> UiLoopView {
        UiLoopView { first_iteration: false, ..self }
    }

    /// The loop after an event was answered with `outcome`.
    pub open spec fn answered(self, outcome: AppReturn) -> UiLoopView {
        match outcome {
            AppReturn::Exit => UiLoopView { phase: UiPhase::Terminating, ..self },
            AppReturn::Continue => self,
        }
    }

    /// Whether `after` and `outcome` are what beginning an iteration can
    /// leave of the application `app`.
    pub open spec fn begin_leaves(
        self,
        app: AppView,
        after: AppView,
        outcome: Result<(), IoEvent>,
    ) -> bool {
        if self.owes_initialize() {
            match outcome {
                Ok(()) => after == app.accepted(IoEventView::Initialize),
                Err(rejected) => rejected == IoEvent::Initialize && after == app.refused(),
            }
        } else {
            outcome is Ok && after == app
        }
    }

    /// Whether `after` and `outcome` are what handling `event` can leave of
    /// the application `app`.
    pub open spec fn event_leaves(
        self,
        app: AppView,
        event: InputEvent,
        after: AppView,
        outcome: AppReturn,
    ) -> bool {
        match self.phase {
            UiPhase::Terminating => outcome == AppReturn::Exit && after == app,
            UiPhase::Running => match event {
                InputEvent::Input(key) => app.action_leaves(key, after, outcome),
                InputEvent::Tick => {
                    &&& outcome == AppReturn::Continue
                    &&& after == app.with_state(app.state.incr_tick())
                },
            },
        }
    }
}

/// The initialization is owed once only: a loop that has begun an iteration
/// never owes it again, whatever events it answers afterwards.
pub proof fn lemma_initialize_owed_once(ui: UiLoopView, outcome: AppReturn)
    ensures
        UiLoopView::initial().owes_initialize(),
        !ui.begun().owes_initialize(),
        ui.answered(outcome).owes_initialize() ==> ui.owes_initialize(),
{
}

/// A run of iterations of the loop in which every event is a tick.
///
/// Iteration `i` begins with the loop in state `uis[i]` and the application
/// as `apps[i]`. Beginning it gives the answer `answers[i]` and leaves the
/// application as `begun[i]`; the tick that follows is answered with
/// `Continue` and leaves the application as `apps[i + 1]`, the loop in state
/// `uis[i + 1]`.
pub struct TickRun {
    pub uis: Seq<UiLoopView>,
    pub apps: Seq<AppView>,
    pub begun: Seq<AppView>,
    pub answers: Seq<Result<(), IoEvent>>,
}

impl TickRun {
    /// The number of iterations of the run.
    pub open spec fn len(self) -> int {
        self.answers.len() as int
    }

    /// Whether iteration `i` is one that `begin_iteration` and then
    /// `handle_event`, on a tick, can make.
    pub open spec fn iteration_holds(self, i: int) -> bool {
        &&& self.uis[i].begin_leaves(self.apps[i], self.begun[i], self.answers[i])
        &&& self.uis[i].begun().event_leaves(
            self.begun[i],
            InputEvent::Tick,
            self.apps[i + 1],
            AppReturn::Continue,
        )
        &&& self.uis[i + 1] == self.uis[i].begun().answered(AppReturn::Continue)
    }

    /// Whether the run starts with a loop that has begun no iteration yet and
    /// each of its iterations follows from the one before.
    pub open spec fn holds(self) -> bool {
        &&& self.uis.len() == self.len() + 1
        &&& self.apps.len() == self.len() + 1
        &&& self.begun.len() == self.len()
        &&& self.uis[0] == UiLoopView::initial()
        &&& forall|i: int| 0 <= i < self.len() ==> #[trigger] self.iteration_holds(i)
    }

    /// What the run has added to the events that the queue accepted: the
    /// initialization, if the queue took it when the first iteration began.
    pub open spec fn added(self) -> Seq<IoEventView> {
        if self.len() > 0 && self.answers[0] is Ok {
            seq![IoEventView::Initialize]
        } else {
            Seq::empty()
        }
    }
}

/// While no key is pressed, the loop hands the initialization to the queue
/// when its first iteration begins and hands it nothing ever after. After any
/// number of iterations on ticks alone, what the queue has accepted from the
/// application is what it had accepted before, followed by the
/// initialization once if the queue took it and by nothing if the queue
/// refused it; every iteration after the first begins without a dispatch
/// and leaves the application as it found it.
pub proof fn lemma_ticks_dispatch_initialize_once(run: TickRun, n: int)
    requires
        run.holds(),
        0 <= n <= run.len(),
    ensures
        run.apps[n].dispatched == if n == 0 {
            run.apps[0].dispatched
        } else {
            run.apps[0].dispatched + run.added()
        },
        run.uis[n].phase == UiPhase::Running,
        run.uis[n].owes_initialize() == (n == 0),
        n >= 2 ==> run.answers[n - 1] is Ok && run.begun[n - 1] == run.apps[n - 1],
        run.apps[n].actions == run.apps[0].actions,
    decreases n,
{
    if n > 0 {
        lemma_ticks_dispatch_initialize_once(run, n - 1);
        assert(run.iteration_holds(n - 1));
        if n == 1 {
            assert(run.apps[1].dispatched =~= run.apps[0].dispatched + run.added());
        }
    }
}

/// A key bound to the quit action ends a running loop with the event that
/// brings it, whether or not the worker is still busy, and leaves the
/// application as it was.
pub proof fn lemma_quit_ends_the_loop(
    ui: UiLoopView,
    app: AppView,
    key: Key,
    after: AppView,
    outcome: AppReturn,
)
    requires
        ui.phase == UiPhase::Running,
        app.request_for(key) is Exit,
        ui.event_leaves(app, InputEvent::Input(key), after, outcome),
    ensures
        outcome == AppReturn::Exit,
        ui.answered(outcome).phase == UiPhase::Terminating,
        after == app,
{
}

/// The state machine of the UI loop.
#[derive(Debug)]
pub struct UiLoop {
    phase: UiPhase,
    first_iteration: bool,
}

impl View for UiLoop {
    type V = UiLoopView;

    closed spec fn view(&self) -> UiLoopView {
        UiLoopView { phase: self.phase, first_iteration: self.first_iteration }
    }
}

impl UiLoop {
    /// A running loop that has not begun its first iteration.
    pub fn new() -> (ui: UiLoop)
        ensures
            ui@ == UiLoopView::initial(),
    {
        UiLoop { phase: UiPhase::Running, first_iteration: true }
    }

    /// The state of the loop.
    pub fn phase(&self) -> (phase: UiPhase)
        ensures
            phase == self@.phase,
    {
        self.phase
    }

    /// Whether the loop goes on.
    pub fn is_running(&self) -> (running: bool)
        ensures
            running == (self@.phase == UiPhase::Running),
    {
        self.phase == UiPhase::Running
    }

    /// Begins an iteration, before anything is rendered or read. The first
    /// iteration of a running loop dispatches `Initialize`; every later one
    /// leaves the application alone. An event that the queue refused is given
    /// back.
    pub fn begin_iteration(&mut self, app: &mut App) -> (outcome: Result<(), IoEvent>)
        ensures
            final(self)@ == old(self)@.begun(),
            old(self)@.begin_leaves(old(app)@, final(app)@, outcome),
    {
        let owes = self.is_running() && self.first_iteration;
        self.first_iteration = false;
        if owes {
            app.dispatch(IoEvent::Initialize)
        } else {
            Ok(())
        }
    }

    /// Handles the next event of the multiplexer. A key runs the action it is
    /// bound to, and the quit action ends the loop at once, whatever the
    /// worker is doing; a tick is counted. A loop that is over answers `Exit`
    /// and changes nothing.
    pub fn handle_event(&mut self, app: &mut App, event: InputEvent) -> (outcome: AppReturn)
        ensures
            old(self)@.event_leaves(old(app)@, event, final(app)@, outcome),
            final(self)@ == old(self)@.answered(outcome),
    {
        if !self.is_running() {
            return AppReturn::Exit;
        }
        let outcome = match event {
            InputEvent::Input(key) => app.do_action(key),
            InputEvent::Tick => app.update_on_tick(),
        };
        if outcome == AppReturn::Exit {
            self.phase = UiPhase::Terminating;
        }
        outcome
    }
}

} // verus!
