//! The shared application state and its invariant-preserving mutators.

use vstd::prelude::*;

verus! {

/// Shortest sleep duration, in seconds.
pub const MIN_SLEEP_SECS: u64 = 1;

/// Longest sleep duration, in seconds.
pub const MAX_SLEEP_SECS: u64 = 10;

/// Number of messages that the log holds at most.
pub const MESSAGE_CAPACITY: usize = 10;

/// `seconds` brought into the range of sleep durations.
pub open spec fn clamp_secs(seconds: int) -> int {
    if seconds < MIN_SLEEP_SECS {
        MIN_SLEEP_SECS as int
    } else if seconds > MAX_SLEEP_SECS {
        MAX_SLEEP_SECS as int
    } else {
        seconds
    }
}

/// The log after `text` was added: `text` is appended, and when that makes the
/// log longer than its capacity the oldest entry leaves.
pub open spec fn appended(log: Seq<Seq<char>>, text: Seq<char>) -> Seq<Seq<char>> {
    let grown = log.push(text);
    if grown.len() > MESSAGE_CAPACITY {
        grown.drop_first()
    } else {
        grown
    }
}

/// The contents of a list of strings, in the same order.
pub open spec fn texts_of(messages: Seq<String>) -> Seq<Seq<char>> {
    Seq::new(messages.len(), |i: int| messages[i]@)
}

/// The mathematical value of an [`AppState`].
pub struct AppStateView {
    /// Whether the bootstrap initialization has completed.
    pub initialized: bool,
    /// Whether an event handed to the worker is still being handled.
    pub is_loading: bool,
    /// Number of ticks seen.
    pub tick_count: nat,
    /// Number of sleeps completed.
    pub sleep_count: nat,
    /// Configured sleep duration, in seconds.
    pub sleep_duration: nat,
    /// The message log, oldest entry first.
    pub messages: Seq<Seq<char>>,
}

impl AppStateView {
    /// The invariant of the state: the sleep duration lies between one and ten
    /// seconds, the log holds at most ten messages, and the counters fit their
    /// machine types.
    pub open spec fn wf(self) -> bool {
        &&& MIN_SLEEP_SECS <= self.sleep_duration <= MAX_SLEEP_SECS
        &&& self.messages.len() <= MESSAGE_CAPACITY
        &&& self.tick_count <= u64::MAX
        &&& self.sleep_count <= u32::MAX
    }

    /// The state that an application starts with.
    pub open spec fn initial() -> AppStateView {
        AppStateView {
            initialized: false,
            is_loading: false,
            tick_count: 0,
            sleep_count: 0,
            sleep_duration: MIN_SLEEP_SECS as nat,
            messages: Seq::empty(),
        }
    }

    /// One more tick; the counter stays at its largest value once it got there.
    pub open spec fn incr_tick(self) -> AppStateView {
        AppStateView {
            tick_count: if self.tick_count < u64::MAX {
                self.tick_count + 1
            } else {
                self.tick_count
            },
            ..self
        }
    }

    /// One more sleep; the counter stays at its largest value once it got there.
    pub open spec fn incr_sleep(self) -> AppStateView {
        AppStateView {
            sleep_count: if self.sleep_count < u32::MAX {
                self.sleep_count + 1
            } else {
                self.sleep_count
            },
            ..self
        }
    }

    /// The sleep duration set to `seconds`, clamped to its range.
    pub open spec fn set_sleep_duration(self, seconds: int) -> AppStateView {
        AppStateView { sleep_duration: clamp_secs(seconds) as nat, ..self }
    }

    /// The sleep duration made one second longer, up to its longest.
    pub open spec fn increment_delay(self) -> AppStateView {
        self.set_sleep_duration(self.sleep_duration as int + 1)
    }

    /// The sleep duration made one second shorter, down to its shortest.
    pub open spec fn decrement_delay(self) -> AppStateView {
        self.set_sleep_duration(self.sleep_duration as int - 1)
    }

    /// `text` added to the log.
    pub open spec fn add_message(self, text: Seq<char>) -> AppStateView {
        AppStateView { messages: appended(self.messages, text), ..self }
    }

    /// The initialization recorded as completed.
    pub open spec fn mark_initialized(self) -> AppStateView {
        AppStateView { initialized: true, ..self }
    }

    /// The loading flag raised.
    pub open spec fn mark_loading(self) -> AppStateView {
        AppStateView { is_loading: true, ..self }
    }

    /// The loading flag cleared.
    pub open spec fn mark_loaded(self) -> AppStateView {
        AppStateView { is_loading: false, ..self }
    }
}

/// The state after a run of delay changes, applied in order: `true` stands for
/// one "increase delay", `false` for one "decrease delay".
pub open spec fn after_delay_steps(state: AppStateView, steps: Seq<bool>) -> AppStateView
    decreases steps.len(),
{
    if steps.len() == 0 {
        state
    } else {
        let before = after_delay_steps(state, steps.drop_last());
        if steps.last() {
            before.increment_delay()
        } else {
            before.decrement_delay()
        }
    }
}

/// Whether `after` is `before` with, at most, another sleep duration.
pub open spec fn same_but_duration(before: AppStateView, after: AppStateView) -> bool {
    &&& after.initialized == before.initialized
    &&& after.is_loading == before.is_loading
    &&& after.tick_count == before.tick_count
    &&& after.sleep_count == before.sleep_count
    &&& after.messages == before.messages
}

/// Whatever number of seconds the sleep duration is set to, and however many
/// times it is then increased or decreased, in any order, it stays between
/// one and ten seconds, and nothing else in the state changes.
pub proof fn lemma_delay_stays_in_range(state: AppStateView, start: int, steps: Seq<bool>)
    ensures
        ({
            let reached = after_delay_steps(state.set_sleep_duration(start), steps);
            &&& MIN_SLEEP_SECS <= reached.sleep_duration <= MAX_SLEEP_SECS
            &&& same_but_duration(state, reached)
        }),
    decreases steps.len(),
{
    if steps.len() > 0 {
        lemma_delay_stays_in_range(state, start, steps.drop_last());
    }
}

/// From any well-formed state, any run of delay changes leaves the sleep
/// duration between one and ten seconds and changes nothing else.
pub proof fn lemma_delay_steps_keep_wf(state: AppStateView, steps: Seq<bool>)
    requires
        state.wf(),
    ensures
        after_delay_steps(state, steps).wf(),
        same_but_duration(state, after_delay_steps(state, steps)),
    decreases steps.len(),
{
    if steps.len() > 0 {
        lemma_delay_steps_keep_wf(state, steps.drop_last());
    }
}

/// Every mutator keeps the invariant of the state: whatever it is given, the
/// sleep duration stays between one and ten seconds and the log within ten
/// messages. No mutator other than `mark_initialized` changes whether the
/// application is initialized, and that one only ever sets the mark.
pub proof fn lemma_mutators_keep_wf(state: AppStateView, seconds: int, text: Seq<char>)
    requires
        state.wf(),
    ensures
        state.incr_tick().wf(),
        state.incr_sleep().wf(),
        state.set_sleep_duration(seconds).wf(),
        state.increment_delay().wf(),
        state.decrement_delay().wf(),
        state.add_message(text).wf(),
        state.mark_initialized().wf(),
        state.mark_loading().wf(),
        state.mark_loaded().wf(),
        state.mark_initialized().initialized,
        state.incr_tick().initialized == state.initialized,
        state.incr_sleep().initialized == state.initialized,
        state.set_sleep_duration(seconds).initialized == state.initialized,
        state.add_message(text).initialized == state.initialized,
        state.mark_loading().initialized == state.initialized,
        state.mark_loaded().initialized == state.initialized,
{
}

/// The log after each of `texts` was added to it in turn.
pub open spec fn appended_all(log: Seq<Seq<char>>, texts: Seq<Seq<char>>) -> Seq<Seq<char>>
    decreases texts.len(),
{
    if texts.len() == 0 {
        log
    } else {
        appended(appended_all(log, texts.drop_last()), texts.last())
    }
}

/// The newest entries of `entries`, as many as the log has room for.
pub open spec fn newest(entries: Seq<Seq<char>>) -> Seq<Seq<char>> {
    if entries.len() > MESSAGE_CAPACITY {
        entries.subrange(entries.len() - MESSAGE_CAPACITY, entries.len() as int)
    } else {
        entries
    }
}

/// Adding to a full log removes its oldest entry and nothing else: every other
/// entry moves one place towards the front and the new text comes last. Adding
/// to a log with room left removes nothing.
pub proof fn lemma_add_evicts_oldest(log: Seq<Seq<char>>, text: Seq<char>)
    requires
        log.len() <= MESSAGE_CAPACITY,
    ensures
        appended(log, text).len() <= MESSAGE_CAPACITY,
        appended(log, text).last() == text,
        log.len() < MESSAGE_CAPACITY ==> appended(log, text) == log.push(text),
        log.len() == MESSAGE_CAPACITY ==> appended(log, text) == log.drop_first().push(text),
{
}

/// After any run of additions the log holds at most ten messages, and they are
/// the newest ones of the old log followed by the added texts, in that order:
/// whatever was evicted was older than everything that stayed.
pub proof fn lemma_log_keeps_newest(log: Seq<Seq<char>>, texts: Seq<Seq<char>>)
    requires
        log.len() <= MESSAGE_CAPACITY,
    ensures
        appended_all(log, texts).len() <= MESSAGE_CAPACITY,
        appended_all(log, texts) == newest(log + texts),
    decreases texts.len(),
{
    if texts.len() > 0 {
        lemma_log_keeps_newest(log, texts.drop_last());
    }
}

/// The bound on the log holds after each single addition of a run, not only
/// at its end.
pub proof fn lemma_log_bounded_after_each(log: Seq<Seq<char>>, texts: Seq<Seq<char>>, n: int)
    requires
        log.len() <= MESSAGE_CAPACITY,
        0 <= n <= texts.len(),
    ensures
        appended_all(log, texts.take(n)).len() <= MESSAGE_CAPACITY,
{
    lemma_log_keeps_newest(log, texts.take(n));
}

/// The single shared mutable record of the application.
///
/// Its fields change only through the mutators below, each of which keeps the
/// sleep duration within one to ten seconds and the log within ten messages.
#[derive(Debug)]
pub struct AppState {
    initialized: bool,
    is_loading: bool,
    tick_count: u64,
    sleep_count: u32,
    sleep_duration: u64,
    messages: Vec<String>,
}

impl View for AppState {
    type V = AppStateView;

    closed spec fn view(&self) -> AppStateView {
        AppStateView {
            initialized: self.initialized,
            is_loading: self.is_loading,
            tick_count: self.tick_count as nat,
            sleep_count: self.sleep_count as nat,
            sleep_duration: self.sleep_duration as nat,
            messages: texts_of(self.messages@),
        }
    }
}

impl AppState {
    #[verifier::type_invariant]
    spec fn well_formed(self) -> bool {
        self@.wf()
    }

    /// The state at startup: nothing initialized or loading, counters at zero,
    /// a sleep duration of one second and an empty log.
    pub fn new() -> (state: AppState)
        ensures
            state@ == AppStateView::initial(),
            state@.wf(),
    {
        let state = AppState {
            initialized: false,
            is_loading: false,
            tick_count: 0,
            sleep_count: 0,
            sleep_duration: MIN_SLEEP_SECS,
            messages: Vec::new(),
        };
        assert(state@.messages =~= Seq::empty());
        state
    }

    /// Whether the bootstrap initialization has completed.
    pub fn is_initialized(&self) -> (initialized: bool)
        ensures
            initialized == self@.initialized,
    {
        self.initialized
    }

    /// Whether an event handed to the worker is still being handled.
    pub fn is_loading(&self) -> (loading: bool)
        ensures
            loading == self@.is_loading,
    {
        self.is_loading
    }

    /// Number of ticks seen.
    pub fn count_tick(&self) -> (ticks: u64)
        ensures
            ticks == self@.tick_count,
    {
        self.tick_count
    }

    /// Number of sleeps completed.
    pub fn count_sleep(&self) -> (sleeps: u32)
        ensures
            sleeps == self@.sleep_count,
    {
        self.sleep_count
    }

    /// The configured sleep duration in seconds, between one and ten.
    pub fn duration(&self) -> (seconds: u64)
        ensures
            seconds == self@.sleep_duration,
            MIN_SLEEP_SECS <= seconds <= MAX_SLEEP_SECS,
    {
        proof {
            use_type_invariant(self);
        }
        self.sleep_duration
    }

    /// The message log, oldest entry first; it holds at most ten messages.
    pub fn messages(&self) -> (messages: &[String])
        ensures
            texts_of(messages@) == self@.messages,
            messages@.len() <= MESSAGE_CAPACITY,
    {
        proof {
            use_type_invariant(self);
        }
        self.messages.as_slice()
    }

    /// Counts one tick.
    pub fn incr_tick(&mut self)
        ensures
            final(self)@ == old(self)@.incr_tick(),
            final(self)@.wf(),
    {
        proof {
            use_type_invariant(&*self);
        }
        if self.tick_count < u64::MAX {
            self.tick_count = self.tick_count + 1;
        }
    }

    /// Counts one completed sleep.
    pub fn incr_sleep(&mut self)
        ensures
            final(self)@ == old(self)@.incr_sleep(),
            final(self)@.wf(),
    {
        proof {
            use_type_invariant(&*self);
        }
        if self.sleep_count < u32::MAX {
            self.sleep_count = self.sleep_count + 1;
        }
    }

    /// Stores `seconds` clamped to the range of one to ten seconds.
    pub fn set_sleep_duration(&mut self, seconds: u64)
        ensures
            final(self)@ == old(self)@.set_sleep_duration(seconds as int),
            final(self)@.wf(),
    {
        proof {
            use_type_invariant(&*self);
        }
        let clamped = if seconds < MIN_SLEEP_SECS {
            MIN_SLEEP_SECS
        } else if seconds > MAX_SLEEP_SECS {
            MAX_SLEEP_SECS
        } else {
            seconds
        };
        self.sleep_duration = clamped;
    }

    /// Makes the sleep duration one second longer, up to ten seconds.
    pub fn increment_delay(&mut self)
        ensures
            final(self)@ == old(self)@.increment_delay(),
            final(self)@.wf(),
    {
        proof {
            use_type_invariant(&*self);
        }
        let seconds = self.sleep_duration + 1;
        self.set_sleep_duration(seconds);
    }

    /// Makes the sleep duration one second shorter, down to one second.
    pub fn decrement_delay(&mut self)
        ensures
            final(self)@ == old(self)@.decrement_delay(),
            final(self)@.wf(),
    {
        proof {
            use_type_invariant(&*self);
        }
        let seconds = self.sleep_duration - 1;
        self.set_sleep_duration(seconds);
    }

    /// Adds `text` to the log; a full log first gives up its oldest entry.
    pub fn add_message(&mut self, text: String)
        ensures
            final(self)@ == old(self)@.add_message(text@),
            final(self)@.wf(),
    {
        proof {
            use_type_invariant(&*self);
        }
        let mut log: Vec<String> = Vec::new();
        std::mem::swap(&mut log, &mut self.messages);
        let ghost before = log@;
        if log.len() >= MESSAGE_CAPACITY {
            log.remove(0);
        }
        log.push(text);
        proof {
            assert(texts_of(log@) =~= appended(texts_of(before), text@));
        }
        self.messages = log;
    }

    /// Records that the bootstrap initialization has completed.
    pub fn mark_initialized(&mut self)
        ensures
            final(self)@ == old(self)@.mark_initialized(),
            final(self)@.wf(),
    {
        proof {
            use_type_invariant(&*self);
        }
        self.initialized = true;
    }

    /// Raises the loading flag.
    pub fn mark_loading(&mut self)
        ensures
            final(self)@ == old(self)@.mark_loading(),
            final(self)@.wf(),
    {
        proof {
            use_type_invariant(&*self);
        }
        self.is_loading = true;
    }

    /// Clears the loading flag.
    pub fn mark_loaded(&mut self)
        ensures
            final(self)@ == old(self)@.mark_loaded(),
            final(self)@.wf(),
    {
        proof {
            use_type_invariant(&*self);
        }
        self.is_loading = false;
    }
}

} // verus!
