use plop_tui::inputs::events::{delivered, multiplex, Disconnected, Events, TICK_RATE_MILLIS};
use plop_tui::inputs::key::{Key, KeyPress};
use plop_tui::inputs::InputEvent;
use std::sync::mpsc::{channel, RecvError};

fn press(character: Option<char>, shift: bool, control: bool, alt: bool) -> KeyPress {
    KeyPress { character, shift, control, alt }
}

#[test]
fn a_plain_character_is_a_char_chord() {
    assert_eq!(Key::from_press(press(Some('q'), false, false, false)), Key::Char('q'));
    assert_eq!(Key::from_press(press(Some('Q'), true, false, false)), Key::Char('Q'));
}

#[test]
fn control_alone_makes_a_control_chord() {
    assert_eq!(Key::from_press(press(Some('c'), false, true, false)), Key::Ctrl('c'));
}

#[test]
fn alt_alone_makes_an_alt_chord() {
    assert_eq!(Key::from_press(press(Some('x'), false, false, true)), Key::Alt('x'));
}

#[test]
fn mixed_modifiers_fall_back_to_the_character() {
    assert_eq!(Key::from_press(press(Some('c'), false, true, true)), Key::Char('c'));
    assert_eq!(Key::from_press(press(Some('c'), true, true, false)), Key::Char('c'));
    assert_eq!(Key::from_press(press(Some('c'), true, false, true)), Key::Char('c'));
    assert_eq!(Key::from_press(press(Some('c'), true, true, true)), Key::Char('c'));
}

#[test]
fn a_press_without_character_is_unknown() {
    assert_eq!(Key::from_press(press(None, false, false, false)), Key::Unknown);
    assert_eq!(Key::from_press(press(None, false, true, false)), Key::Unknown);
    assert_eq!(Key::from_press(press(None, true, true, true)), Key::Unknown);
}

#[test]
fn a_poll_without_input_emits_a_tick() {
    assert_eq!(multiplex(None), vec![InputEvent::Tick]);
}

#[test]
fn a_poll_with_input_emits_the_key_and_then_a_tick() {
    assert_eq!(
        multiplex(Some(press(Some('s'), false, false, false))),
        vec![InputEvent::Input(Key::Char('s')), InputEvent::Tick]
    );
    assert_eq!(
        multiplex(Some(press(Some('c'), false, true, false))),
        vec![InputEvent::Input(Key::Ctrl('c')), InputEvent::Tick]
    );
    assert_eq!(
        multiplex(Some(press(None, false, false, false))),
        vec![InputEvent::Input(Key::Unknown), InputEvent::Tick]
    );
}

#[test]
fn next_hands_out_events_in_the_order_sent() {
    let (tx, rx) = channel();
    let events = Events::from_channel(tx.clone(), rx);
    for polled in [None, Some(press(Some('q'), false, false, false)), None] {
        for event in multiplex(polled) {
            tx.send(event).unwrap();
        }
    }
    assert_eq!(events.next(), Ok(InputEvent::Tick));
    assert_eq!(events.next(), Ok(InputEvent::Input(Key::Char('q'))));
    assert_eq!(events.next(), Ok(InputEvent::Tick));
    assert_eq!(events.next(), Ok(InputEvent::Tick));
}

#[test]
fn next_fails_once_every_sender_is_gone() {
    let (tx, rx) = channel();
    let (other_tx, _other_rx) = channel();
    tx.send(InputEvent::Tick).unwrap();
    drop(tx);
    let events = Events::from_channel(other_tx, rx);
    assert_eq!(events.next(), Ok(InputEvent::Tick));
    assert_eq!(events.next(), Err(Disconnected));
}

#[test]
fn delivered_keeps_the_event_and_names_the_failure() {
    assert_eq!(delivered(Ok(InputEvent::Tick)), Ok(InputEvent::Tick));
    assert_eq!(
        delivered(Ok(InputEvent::Input(Key::Alt('a')))),
        Ok(InputEvent::Input(Key::Alt('a')))
    );
    assert_eq!(delivered(Err(RecvError)), Err(Disconnected));
}

#[test]
fn the_tick_rate_is_two_hundred_milliseconds() {
    assert_eq!(TICK_RATE_MILLIS, 200);
}
