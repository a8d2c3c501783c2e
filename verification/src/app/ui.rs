//! What a renderer is given: a snapshot of the application, taken while the
//! state is held, from which a frame can be drawn without touching the state.

use crate::app::action::{views_of, Action, ActionView, Actions};
use crate::app::state::texts_of;
use crate::app::{App, AppView};
use crate::inputs::key::Key;
use vstd::prelude::*;

verus! {

/// One row of the help table: a key and, beside the first key of an action,
/// the help text of that action.
#[derive(Debug, PartialEq, Eq)]
pub struct HelpRow {
    /// The key of this row.
    pub key: Key,
    /// The help text of the action, or nothing on the rows of its further keys.
    pub help: String,
}

/// The mathematical value of a [`HelpRow`].
pub struct HelpRowView {
    pub key: Key,
    pub help: Seq<char>,
}

impl View for HelpRow {
    type V = HelpRowView;

    open spec fn view(&self) -> HelpRowView {
        HelpRowView { key: self.key, help: self.help@ }
    }
}

/// The mathematical values of a list of rows, in the same order.
pub open spec fn rows_view(rows: Seq<HelpRow>) -> Seq<HelpRowView> {
    Seq::new(rows.len(), |i: int| rows[i]@)
}

/// The rows of one action: one for each of its keys, in order, the first of
/// them with the help text.
pub open spec fn rows_of(action: ActionView) -> Seq<HelpRowView> {
    Seq::new(
        action.keys.len(),
        |i: int|
            HelpRowView {
                key: action.keys[i],
                help: if i == 0 {
                    action.help
                } else {
                    Seq::empty()
                },
            },
    )
}

/// The rows of the help table: those of each registered action, in
/// registration order.
pub open spec fn help_rows(registry: Seq<ActionView>) -> Seq<HelpRowView>
    decreases registry.len(),
{
    if registry.len() == 0 {
        Seq::empty()
    } else {
        help_rows(registry.drop_last()) + rows_of(registry.last())
    }
}

/// Everything that a frame is drawn from.
#[derive(Debug, PartialEq, Eq)]
pub struct Snapshot {
    /// Whether the bootstrap initialization has completed.
    pub initialized: bool,
    /// Whether an event handed to the worker is still being handled.
    pub is_loading: bool,
    /// Number of ticks seen.
    pub tick_count: u64,
    /// Number of sleeps completed.
    pub sleep_count: u32,
    /// Configured sleep duration, in seconds.
    pub sleep_duration: u64,
    /// The message log, oldest entry first.
    pub messages: Vec<String>,
    /// The rows of the help table.
    pub help: Vec<HelpRow>,
}

/// The mathematical value of a [`Snapshot`].
pub struct SnapshotView {
    pub initialized: bool,
    pub is_loading: bool,
    pub tick_count: nat,
    pub sleep_count: nat,
    pub sleep_duration: nat,
    pub messages: Seq<Seq<char>>,
    pub help: Seq<HelpRowView>,
}

impl View for Snapshot {
    type V = SnapshotView;

    open spec fn view(&self) -> SnapshotView {
        SnapshotView {
            initialized: self.initialized,
            is_loading: self.is_loading,
            tick_count: self.tick_count as nat,
            sleep_count: self.sleep_count as nat,
            sleep_duration: self.sleep_duration as nat,
            messages: texts_of(self.messages@),
            help: rows_view(self.help@),
        }
    }
}

/// The snapshot of an application: its state as it is, and the help table of
/// its registry.
pub open spec fn snapshot_of(app: AppView) -> SnapshotView {
    SnapshotView {
        initialized: app.state.initialized,
        is_loading: app.state.is_loading,
        tick_count: app.state.tick_count,
        sleep_count: app.state.sleep_count,
        sleep_duration: app.state.sleep_duration,
        messages: app.state.messages,
        help: help_rows(app.actions),
    }
}

/// Appends the rows of `action` to `rows`.
fn push_rows(rows: &mut Vec<HelpRow>, action: &Action)
    ensures
        rows_view(final(rows)@) == rows_view(old(rows)@) + rows_of(action@),
{
    let keys = action.keys();
    let ghost before = rows_view(rows@);
    let mut j: usize = 0;
    while j < keys.len()
        invariant
            j <= keys.len(),
            keys@ == action@.keys,
            rows_view(rows@) == before + rows_of(action@).take(j as int),
        decreases keys.len() - j,
    {
        let help = if j == 0 {
            action.help().to_owned()
        } else {
            String::new()
        };
        let row = HelpRow { key: keys[j], help };
        let ghost earlier = rows@;
        rows.push(row);
        assert(rows_view(rows@) =~= rows_view(earlier).push(row@));
        j += 1;
    }
}

/// Builds the rows of the help table of `actions`: for each action in
/// registration order one row per key, the help text on the first.
pub fn help_table(actions: &Actions) -> (rows: Vec<HelpRow>)
    ensures
        rows_view(rows@) == help_rows(actions@),
{
    let list = actions.actions();
    let mut rows: Vec<HelpRow> = Vec::new();
    let mut i: usize = 0;
    while i < list.len()
        invariant
            i <= list.len(),
            views_of(list@) == actions@,
            rows_view(rows@) == help_rows(actions@.take(i as int)),
        decreases list.len() - i,
    {
        push_rows(&mut rows, &list[i]);
        assert(actions@.take(i + 1).drop_last() =~= actions@.take(i as int));
        i += 1;
    }
    assert(actions@.take(i as int) =~= actions@);
    rows
}

/// A copy of `messages`.
fn copy_messages(messages: &[String]) -> (copy: Vec<String>)
    ensures
        texts_of(copy@) == texts_of(messages@),
{
    let mut copy: Vec<String> = Vec::new();
    let mut i: usize = 0;
    while i < messages.len()
        invariant
            i <= messages.len(),
            copy@.len() == i,
            forall|j: int| 0 <= j < i ==> copy@[j]@ == messages@[j]@,
        decreases messages.len() - i,
    {
        copy.push(messages[i].clone());
        i += 1;
    }
    copy
}

impl App {
    /// Takes the snapshot that the next frame is drawn from.
    pub fn snapshot(&self) -> (snapshot: Snapshot)
        ensures
            snapshot@ == snapshot_of(self@),
    {
        let state = self.state();
        Snapshot {
            initialized: state.is_initialized(),
            is_loading: state.is_loading(),
            tick_count: state.count_tick(),
            sleep_count: state.count_sleep(),
            sleep_duration: state.duration(),
            messages: copy_messages(state.messages()),
            help: help_table(self.actions()),
        }
    }
}

} // verus!
