use plop_tui::app::{App, AppReturn};
use plop_tui::inputs::key::Key;
use plop_tui::inputs::InputEvent;
use plop_tui::io::handler::handle_io_event;
use plop_tui::io::IoEvent;
use plop_tui::ui_loop::{UiLoop, UiPhase};
use std::sync::mpsc::{channel, TryRecvError};

#[test]
fn a_new_loop_is_running() {
    let ui = UiLoop::new();
    assert_eq!(ui.phase(), UiPhase::Running);
    assert!(ui.is_running());
}

#[test]
fn initialize_is_dispatched_once_before_any_key() {
    let (tx, rx) = channel();
    let mut app = App::new(tx);
    let mut ui = UiLoop::new();

    assert_eq!(ui.begin_iteration(&mut app), Ok(()));
    assert!(app.is_loading());
    assert!(!app.is_initialized());
    assert_eq!(rx.try_recv(), Ok(IoEvent::Initialize));
    assert_eq!(rx.try_recv(), Err(TryRecvError::Empty));

    assert_eq!(ui.handle_event(&mut app, InputEvent::Tick), AppReturn::Continue);
    assert!(!app.is_initialized());

    handle_io_event(&mut app, IoEvent::Initialize, true);
    assert!(app.is_initialized());
    assert!(!app.is_loading());

    for _ in 0..5 {
        assert_eq!(ui.begin_iteration(&mut app), Ok(()));
        assert_eq!(ui.handle_event(&mut app, InputEvent::Tick), AppReturn::Continue);
    }
    assert_eq!(rx.try_recv(), Err(TryRecvError::Empty));
    assert!(!app.is_loading());
    assert_eq!(app.count_tick(), 6);
}

#[test]
fn a_refused_initialize_is_reported_and_not_repeated() {
    let (tx, rx) = channel();
    let mut app = App::new(tx);
    let mut ui = UiLoop::new();
    drop(rx);
    assert_eq!(ui.begin_iteration(&mut app), Err(IoEvent::Initialize));
    assert!(!app.is_loading());
    assert!(ui.is_running());
    assert_eq!(ui.begin_iteration(&mut app), Ok(()));
    assert!(!app.is_loading());
}

#[test]
fn quit_ends_the_loop_while_the_worker_is_busy() {
    let (tx, rx) = channel();
    let mut app = App::new(tx);
    let mut ui = UiLoop::new();
    assert!(ui.begin_iteration(&mut app).is_ok());
    assert_eq!(ui.handle_event(&mut app, InputEvent::Input(Key::Char('s'))), AppReturn::Continue);
    assert!(app.is_loading());
    assert!(ui.is_running());

    assert!(ui.begin_iteration(&mut app).is_ok());
    assert_eq!(ui.handle_event(&mut app, InputEvent::Input(Key::Char('q'))), AppReturn::Exit);
    assert_eq!(ui.phase(), UiPhase::Terminating);
    assert!(!ui.is_running());
    assert!(app.is_loading());
    assert!(!app.is_initialized());
    let pending: Vec<IoEvent> = rx.try_iter().collect();
    assert_eq!(pending, vec![IoEvent::Initialize, IoEvent::Sleep(1)]);
}

#[test]
fn control_c_ends_the_loop_too() {
    let (tx, _rx) = channel();
    let mut app = App::new(tx);
    let mut ui = UiLoop::new();
    assert_eq!(ui.handle_event(&mut app, InputEvent::Input(Key::Ctrl('c'))), AppReturn::Exit);
    assert_eq!(ui.phase(), UiPhase::Terminating);
}

#[test]
fn a_loop_that_is_over_changes_nothing() {
    let (tx, rx) = channel();
    let mut app = App::new(tx);
    let mut ui = UiLoop::new();
    assert_eq!(ui.handle_event(&mut app, InputEvent::Input(Key::Char('q'))), AppReturn::Exit);
    assert_eq!(ui.handle_event(&mut app, InputEvent::Tick), AppReturn::Exit);
    assert_eq!(ui.handle_event(&mut app, InputEvent::Input(Key::Char('s'))), AppReturn::Exit);
    assert_eq!(ui.handle_event(&mut app, InputEvent::Input(Key::Char('+'))), AppReturn::Exit);
    assert_eq!(ui.begin_iteration(&mut app), Ok(()));
    assert_eq!(app.count_tick(), 0);
    assert_eq!(app.duration(), 1);
    assert!(!app.is_loading());
    assert_eq!(rx.try_recv(), Err(TryRecvError::Empty));
}

#[test]
fn ticks_and_keys_drive_the_state() {
    let (tx, rx) = channel();
    let mut app = App::new(tx);
    let mut ui = UiLoop::new();
    let events = [
        InputEvent::Tick,
        InputEvent::Input(Key::Char('+')),
        InputEvent::Tick,
        InputEvent::Input(Key::Char('z')),
        InputEvent::Input(Key::Char('+')),
        InputEvent::Input(Key::Char('-')),
        InputEvent::Tick,
    ];
    for event in events {
        assert_eq!(ui.handle_event(&mut app, event), AppReturn::Continue);
    }
    assert_eq!(app.count_tick(), 3);
    assert_eq!(app.duration(), 2);
    assert!(ui.is_running());
    assert_eq!(rx.try_recv(), Err(TryRecvError::Empty));
}

#[test]
fn ticks_alone_enqueue_initialize_once_and_first() {
    for k in 1..=6 {
        let (tx, rx) = channel();
        let mut app = App::new(tx);
        let mut ui = UiLoop::new();
        for _ in 0..k {
            assert_eq!(ui.begin_iteration(&mut app), Ok(()));
            assert_eq!(ui.handle_event(&mut app, InputEvent::Tick), AppReturn::Continue);
        }
        let enqueued: Vec<IoEvent> = rx.try_iter().collect();
        assert_eq!(enqueued, vec![IoEvent::Initialize]);
        assert_eq!(app.count_tick(), k);
        assert!(app.is_loading());
        assert!(ui.is_running());
    }
}
