use plop_tui::app::action::{Action, ActionName, Actions};
use plop_tui::inputs::key::Key;

#[test]
fn action_keeps_name_help_and_keys() {
    let action = Action::new(ActionName::Quit, "Quit", vec![Key::Ctrl('c'), Key::Char('q')]);
    assert_eq!(action.name(), ActionName::Quit);
    assert_eq!(action.help(), "Quit");
    assert_eq!(action.keys(), &[Key::Ctrl('c'), Key::Char('q')]);
}

#[test]
fn action_keys_form_an_ordered_set() {
    let action = Action::new(
        ActionName::Sleep,
        "Sleep",
        vec![Key::Char('s'), Key::Char('z'), Key::Char('s'), Key::Alt('s'), Key::Char('z')],
    );
    assert_eq!(action.keys(), &[Key::Char('s'), Key::Char('z'), Key::Alt('s')]);
}

#[test]
fn action_without_keys_binds_nothing() {
    let action = Action::new(ActionName::Sleep, "", Vec::new());
    assert!(action.keys().is_empty());
    assert_eq!(action.help(), "");
    assert!(!action.has_key(Key::Char('s')));
}

#[test]
fn has_key_tells_chords_apart() {
    let action = Action::new(ActionName::Quit, "Quit", vec![Key::Ctrl('c'), Key::Char('q')]);
    assert!(action.has_key(Key::Ctrl('c')));
    assert!(action.has_key(Key::Char('q')));
    assert!(!action.has_key(Key::Char('c')));
    assert!(!action.has_key(Key::Alt('q')));
    assert!(!action.has_key(Key::Unknown));
}

#[test]
fn find_returns_the_bound_action() {
    let registry = Actions::default();
    assert_eq!(registry.find(Key::Char('q')).map(|a| a.name()), Some(ActionName::Quit));
    assert_eq!(registry.find(Key::Ctrl('c')).map(|a| a.name()), Some(ActionName::Quit));
    assert_eq!(registry.find(Key::Char('s')).map(|a| a.name()), Some(ActionName::Sleep));
    assert_eq!(registry.find(Key::Char('+')).map(|a| a.name()), Some(ActionName::IncreaseDelay));
    assert_eq!(registry.find(Key::Char('-')).map(|a| a.name()), Some(ActionName::DecreaseDelay));
}

#[test]
fn find_returns_nothing_for_an_unbound_key() {
    let registry = Actions::default();
    assert!(registry.find(Key::Char('x')).is_none());
    assert!(registry.find(Key::Ctrl('q')).is_none());
    assert!(registry.find(Key::Unknown).is_none());
    assert_eq!(registry.position(Key::Char('x')), None);
}

#[test]
fn find_in_an_empty_registry_returns_nothing() {
    let registry = Actions::new(Vec::new());
    assert!(registry.actions().is_empty());
    assert!(registry.find(Key::Char('q')).is_none());
}

#[test]
fn first_registered_action_wins_a_shared_key() {
    let x = Key::Char('x');
    let a = Action::new(ActionName::Sleep, "A", vec![x]);
    let b = Action::new(ActionName::Quit, "B", vec![x]);
    let registry = Actions::new(vec![a, b]);
    for _ in 0..3 {
        let found = registry.find(x).expect("the key is bound");
        assert_eq!(found.help(), "A");
        assert_eq!(found.name(), ActionName::Sleep);
        assert_eq!(registry.position(x), Some(0));
    }
}

#[test]
fn registration_order_decides_not_key_order() {
    let x = Key::Char('x');
    let y = Key::Char('y');
    let a = Action::new(ActionName::IncreaseDelay, "A", vec![y]);
    let b = Action::new(ActionName::DecreaseDelay, "B", vec![x, y]);
    let c = Action::new(ActionName::Quit, "C", vec![x]);
    let registry = Actions::new(vec![a, b, c]);
    assert_eq!(registry.position(y), Some(0));
    assert_eq!(registry.position(x), Some(1));
    assert_eq!(registry.find(x).map(|a| a.help().to_string()), Some("B".to_string()));
}

#[test]
fn default_bindings_are_the_documented_table() {
    let registry = Actions::default();
    let actions = registry.actions();
    assert_eq!(actions.len(), 4);
    assert_eq!(actions[0].name(), ActionName::Quit);
    assert_eq!(actions[0].keys(), &[Key::Ctrl('c'), Key::Char('q')]);
    assert_eq!(actions[0].help(), "Quit");
    assert_eq!(actions[1].name(), ActionName::Sleep);
    assert_eq!(actions[1].keys(), &[Key::Char('s')]);
    assert_eq!(actions[1].help(), "Sleep");
    assert_eq!(actions[2].name(), ActionName::IncreaseDelay);
    assert_eq!(actions[2].keys(), &[Key::Char('+')]);
    assert_eq!(actions[2].help(), "Increase delay");
    assert_eq!(actions[3].name(), ActionName::DecreaseDelay);
    assert_eq!(actions[3].keys(), &[Key::Char('-')]);
    assert_eq!(actions[3].help(), "Decrease delay");
}
