//! The action registry: named actions bound to key-chords, looked up by key in
//! registration order.

use crate::inputs::key::Key;
use vstd::prelude::*;

verus! {

/// The operations that a user can trigger.
#[derive(Clone, Copy, Debug, PartialEq, Eq, Structural, Hash)]
pub enum ActionName {
    /// Leave the application.
    Quit,
    /// Ask the worker to sleep for the configured duration.
    Sleep,
    /// Make the configured sleep duration one second longer.
    IncreaseDelay,
    /// Make the configured sleep duration one second shorter.
    DecreaseDelay,
}

/// A named, user-facing operation bound to one or more key-chords.
///
/// The keys form an ordered set: they keep the order in which they were given
/// and none occurs twice.
#[derive(Debug)]
pub struct Action {
    name: ActionName,
    help: String,
    keys: Vec<Key>,
}

/// The mathematical value of an [`Action`].
pub struct ActionView {
    pub name: ActionName,
    pub help: Seq<char>,
    pub keys: Seq<Key>,
}

impl ActionView {
    /// Whether `key` is one of the key-chords of this action.
    pub open spec fn binds(self, key: Key) -> bool {
        self.keys.contains(key)
    }
}

/// The keys of `keys` in their order, each kept at its first occurrence only.
pub open spec fn distinct(keys: Seq<Key>) -> Seq<Key>
    decreases keys.len(),
{
    if keys.len() == 0 {
        keys
    } else {
        let front = distinct(keys.drop_last());
        if front.contains(keys.last()) {
            front
        } else {
            front.push(keys.last())
        }
    }
}

/// `distinct` holds no key twice and holds exactly the keys it was given.
pub proof fn lemma_distinct(keys: Seq<Key>)
    ensures
        distinct(keys).no_duplicates(),
        distinct(keys).len() <= keys.len(),
        forall|k: Key| #[trigger] distinct(keys).contains(k) <==> keys.contains(k),
    decreases keys.len(),
{
    if keys.len() > 0 {
        let init = keys.drop_last();
        let front = distinct(init);
        lemma_distinct(init);
        assert forall|k: Key| keys.contains(k) implies #[trigger] distinct(keys).contains(k) by {
            let i = choose|i: int| 0 <= i < keys.len() && keys[i] == k;
            if i < init.len() {
                assert(init[i] == k);
                assert(front.contains(k));
                let j = choose|j: int| 0 <= j < front.len() && front[j] == k;
                assert(distinct(keys)[j] == k);
            } else if !front.contains(k) {
                assert(distinct(keys)[front.len() as int] == k);
            }
        }
        assert forall|k: Key| #[trigger] distinct(keys).contains(k) implies keys.contains(k) by {
            let j = choose|j: int| 0 <= j < distinct(keys).len() && distinct(keys)[j] == k;
            if j < front.len() {
                assert(front.contains(k));
                let i = choose|i: int| 0 <= i < init.len() && init[i] == k;
                assert(keys[i] == k);
            }
        }
    }
}

/// A sequence that holds no key twice is its own `distinct`.
pub proof fn lemma_distinct_of_set(keys: Seq<Key>)
    requires
        keys.no_duplicates(),
    ensures
        distinct(keys) == keys,
    decreases keys.len(),
{
    if keys.len() > 0 {
        let init = keys.drop_last();
        lemma_distinct_of_set(init);
        if init.contains(keys.last()) {
            let i = choose|i: int| 0 <= i < init.len() && init[i] == keys.last();
            assert(keys[i] == keys[keys.len() - 1]);
        }
    }
}

impl View for Action {
    type V = ActionView;

    closed spec fn view(&self) -> ActionView {
        ActionView { name: self.name, help: self.help@, keys: self.keys@ }
    }
}

/// Whether `key` occurs in `keys`.
fn holds_key(keys: &Vec<Key>, key: Key) -> (found: bool)
    ensures
        found == keys@.contains(key),
{
    let mut i: usize = 0;
    while i < keys.len()
        invariant
            i <= keys.len(),
            forall|j: int| 0 <= j < i ==> keys@[j] != key,
        decreases keys.len() - i,
    {
        if keys[i] == key {
            return true;
        }
        i += 1;
    }
    false
}

impl Action {
    #[verifier::type_invariant]
    spec fn keys_form_a_set(self) -> bool {
        self.keys@.no_duplicates()
    }

    /// Builds an action. A key given more than once is kept at its first place.
    pub fn new(name: ActionName, help: &str, keys: Vec<Key>) -> (action: Action)
        ensures
            action@.name == name,
            action@.help == help@,
            action@.keys == distinct(keys@),
    {
        let mut set: Vec<Key> = Vec::new();
        let mut i: usize = 0;
        while i < keys.len()
            invariant
                i <= keys.len(),
                set@ == distinct(keys@.take(i as int)),
            decreases keys.len() - i,
        {
            let key = keys[i];
            proof {
                assert(keys@.take(i + 1).drop_last() =~= keys@.take(i as int));
            }
            if !holds_key(&set, key) {
                set.push(key);
            }
            i += 1;
        }
        proof {
            assert(keys@.take(i as int) =~= keys@);
            lemma_distinct(keys@);
        }
        Action { name, help: help.to_owned(), keys: set }
    }

    /// The operation that this action stands for.
    pub fn name(&self) -> (name: ActionName)
        ensures
            name == self@.name,
    {
        self.name
    }

    /// The key-chords bound to this action, in order and without repetition.
    pub fn keys(&self) -> (keys: &[Key])
        ensures
            keys@ == self@.keys,
            keys@.no_duplicates(),
    {
        proof {
            use_type_invariant(self);
        }
        self.keys.as_slice()
    }

    /// The text shown to the user for this action.
    pub fn help(&self) -> (help: &str)
        ensures
            help@ == self@.help,
    {
        self.help.as_str()
    }

    /// Whether `key` is bound to this action.
    pub fn has_key(&self, key: Key) -> (bound: bool)
        ensures
            bound == self@.binds(key),
    {
        holds_key(&self.keys, key)
    }
}

/// The ordered list of actions that a key press is looked up in.
///
/// Built once and never changed afterwards.
#[derive(Debug)]
pub struct Actions {
    actions: Vec<Action>,
}

/// The mathematical values of a list of actions, in the same order.
pub open spec fn views_of(actions: Seq<Action>) -> Seq<ActionView> {
    Seq::new(actions.len(), |i: int| actions[i]@)
}

/// Whether `index` is the place of the first action, in registration order,
/// that `key` is bound to.
pub open spec fn is_first_binding(registry: Seq<ActionView>, key: Key, index: int) -> bool {
    &&& 0 <= index < registry.len()
    &&& registry[index].binds(key)
    &&& forall|j: int| 0 <= j < index ==> !(#[trigger] registry[j]).binds(key)
}

/// The place of the first action, in registration order, that `key` is bound
/// to, if there is one.
pub open spec fn first_binding(registry: Seq<ActionView>, key: Key) -> Option<int>
    decreases registry.len(),
{
    if registry.len() == 0 {
        None
    } else {
        match first_binding(registry.drop_last(), key) {
            Some(index) => Some(index),
            None => if registry.last().binds(key) {
                Some(registry.len() - 1)
            } else {
                None
            },
        }
    }
}

/// `first_binding` gives the least place whose action binds the key, and
/// nothing exactly when no action binds it.
pub proof fn lemma_first_binding(registry: Seq<ActionView>, key: Key)
    ensures
        match first_binding(registry, key) {
            Some(index) => is_first_binding(registry, key, index),
            None => forall|j: int| 0 <= j < registry.len() ==> !(#[trigger] registry[j]).binds(key),
        },
    decreases registry.len(),
{
    if registry.len() > 0 {
        let init = registry.drop_last();
        lemma_first_binding(init, key);
        assert forall|j: int| 0 <= j < init.len() implies init[j] == registry[j] by {}
    }
}

/// When two registered actions are bound to the same key, the lookup of that
/// key never yields the one registered later.
pub proof fn lemma_first_registered_wins(
    registry: Seq<ActionView>,
    key: Key,
    earlier: int,
    later: int,
)
    requires
        0 <= earlier < later < registry.len(),
        registry[earlier].binds(key),
        registry[later].binds(key),
    ensures
        first_binding(registry, key) is Some,
        0 <= first_binding(registry, key).unwrap() <= earlier,
        first_binding(registry, key) != Some(later),
{
    lemma_first_binding(registry, key);
}

/// Registering `first` and then `second`, both bound to `key`, makes the
/// lookup of `key` yield `first`.
pub proof fn lemma_tie_goes_to_first(first: ActionView, second: ActionView, key: Key)
    requires
        first.binds(key),
        second.binds(key),
    ensures
        first_binding(seq![first, second], key) == Some(0int),
{
    lemma_first_registered_wins(seq![first, second], key, 0, 1);
}

/// The default key bindings, in registration order: quit on control-c and
/// `q`, sleep on `s`, a longer delay on `+` and a shorter one on `-`.
pub open spec fn default_bindings() -> Seq<ActionView> {
    seq![
        ActionView {
            name: ActionName::Quit,
            help: "Quit"@,
            keys: seq![Key::Ctrl('c'), Key::Char('q')],
        },
        ActionView { name: ActionName::Sleep, help: "Sleep"@, keys: seq![Key::Char('s')] },
        ActionView {
            name: ActionName::IncreaseDelay,
            help: "Increase delay"@,
            keys: seq![Key::Char('+')],
        },
        ActionView {
            name: ActionName::DecreaseDelay,
            help: "Decrease delay"@,
            keys: seq![Key::Char('-')],
        },
    ]
}

impl View for Actions {
    type V = Seq<ActionView>;

    closed spec fn view(&self) -> Seq<ActionView> {
        views_of(self.actions@)
    }
}

impl Actions {
    /// Builds the registry that holds `actions` in the order given.
    pub fn new(actions: Vec<Action>) -> (registry: Actions)
        ensures
            registry@ == views_of(actions@),
    {
        Actions { actions }
    }

    /// An action bound to the single key `key`.
    fn single(name: ActionName, help: &str, key: Key) -> (action: Action)
        ensures
            action@ == (ActionView { name, help: help@, keys: seq![key] }),
    {
        let mut keys: Vec<Key> = Vec::new();
        keys.push(key);
        proof {
            lemma_distinct_of_set(keys@);
        }
        Action::new(name, help, keys)
    }

    /// The registered actions, in registration order.
    pub fn actions(&self) -> (actions: &[Action])
        ensures
            views_of(actions@) == self@,
    {
        self.actions.as_slice()
    }

    /// The place of the first registered action that `key` is bound to.
    pub fn position(&self, key: Key) -> (place: Option<usize>)
        ensures
            first_binding(self@, key) == match place {
                Some(index) => Some(index as int),
                None => None,
            },
    {
        let mut i: usize = 0;
        while i < self.actions.len()
            invariant
                i <= self.actions.len(),
                self@ == views_of(self.actions@),
                forall|j: int| 0 <= j < i ==> !(#[trigger] self@[j]).binds(key),
            decreases self.actions.len() - i,
        {
            if self.actions[i].has_key(key) {
                proof {
                    assert(is_first_binding(self@, key, i as int));
                    lemma_first_binding(self@, key);
                }
                return Some(i);
            }
            i += 1;
        }
        proof {
            lemma_first_binding(self@, key);
        }
        None
    }

    /// The first registered action, in registration order, whose keys hold
    /// `key`; nothing when no registered action is bound to `key`.
    pub fn find(&self, key: Key) -> (found: Option<&Action>)
        ensures
            match first_binding(self@, key) {
                Some(index) => found is Some && found.unwrap()@ == self@[index],
                None => found is None,
            },
    {
        proof {
            lemma_first_binding(self@, key);
        }
        match self.position(key) {
            Some(place) => Some(&self.actions[place]),
            None => None,
        }
    }
}


impl Default for Actions {
    /// The registry of the default key bindings.
    fn default() -> (registry: Actions)
        ensures
            registry@ == default_bindings(),
    {
        let mut quit_keys: Vec<Key> = Vec::new();
        quit_keys.push(Key::Ctrl('c'));
        quit_keys.push(Key::Char('q'));
        proof {
            assert(quit_keys@ =~= seq![Key::Ctrl('c'), Key::Char('q')]);
            lemma_distinct_of_set(quit_keys@);
        }
        let mut actions: Vec<Action> = Vec::new();
        actions.push(Action::new(ActionName::Quit, "Quit", quit_keys));
        actions.push(Actions::single(ActionName::Sleep, "Sleep", Key::Char('s')));
        actions.push(Actions::single(ActionName::IncreaseDelay, "Increase delay", Key::Char('+')));
        actions.push(Actions::single(ActionName::DecreaseDelay, "Decrease delay", Key::Char('-')));
        let registry = Actions::new(actions);
        registry
    }
}

} // verus!
