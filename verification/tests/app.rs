use blockdash::app::{App, Event, KeyCode, KeyEvent, KeyEventKind, Modifiers};

fn no_mods() -> Modifiers {
    Modifiers { ctrl: false, alt: false, shift: false }
}

fn ctrl() -> Modifiers {
    Modifiers { ctrl: true, alt: false, shift: false }
}

fn press(code: KeyCode, modifiers: Modifiers) -> Event {
    Event::Key(KeyEvent { kind: KeyEventKind::Press, code, modifiers })
}

#[test]
fn new_app_is_running() {
    let app = App::new();
    assert!(app.is_running());
}

#[test]
fn default_app_is_running() {
    let app = App::default();
    assert!(app.is_running());
}

#[test]
fn quit_stops_the_app() {
    let mut app = App::new();
    app.quit();
    assert!(!app.is_running());
}

#[test]
fn quit_keys_stop_exactly_once() {
    let cases = [
        (KeyCode::Esc, no_mods()),
        (KeyCode::Char('q'), no_mods()),
        (KeyCode::Char('Q'), no_mods()),
        (KeyCode::Char('c'), ctrl()),
        (KeyCode::Char('C'), ctrl()),
    ];
    for &(code, modifiers) in cases.iter() {
        let mut app = App::new();
        app.on_key_event(code, modifiers);
        assert!(!app.is_running());
        // Pressing the same combination again is idempotent.
        app.on_key_event(code, modifiers);
        assert!(!app.is_running());
    }
}

#[test]
fn escape_quits_with_any_modifiers() {
    let mut app = App::new();
    app.on_key_event(KeyCode::Esc, Modifiers { ctrl: true, alt: true, shift: true });
    assert!(!app.is_running());
}

#[test]
fn other_keys_leave_running_unchanged() {
    let cases = [
        (KeyCode::Char('x'), no_mods()),
        (KeyCode::Char('q'), ctrl()),
        (KeyCode::Char('Q'), Modifiers { ctrl: false, alt: true, shift: false }),
        (KeyCode::Char('c'), no_mods()),
        (KeyCode::Char('C'), Modifiers { ctrl: true, alt: true, shift: false }),
        (KeyCode::Other, no_mods()),
        (KeyCode::Other, ctrl()),
    ];
    for &(code, modifiers) in cases.iter() {
        let mut app = App::new();
        app.on_key_event(code, modifiers);
        assert!(app.is_running());
    }
}

#[test]
fn only_key_presses_are_acted_on() {
    let mut app = App::new();
    app.handle_event(Event::Key(KeyEvent {
        kind: KeyEventKind::Release,
        code: KeyCode::Char('q'),
        modifiers: no_mods(),
    }));
    assert!(app.is_running());
    app.handle_event(Event::Key(KeyEvent {
        kind: KeyEventKind::Repeat,
        code: KeyCode::Char('q'),
        modifiers: no_mods(),
    }));
    assert!(app.is_running());
    app.handle_event(press(KeyCode::Char('q'), no_mods()));
    assert!(!app.is_running());
}

#[test]
fn event_sequence_quits_on_fourth_event() {
    let mut app = App::new();
    app.handle_event(Event::Resize(80, 24));
    assert!(app.is_running());
    app.handle_event(Event::Mouse);
    assert!(app.is_running());
    app.handle_event(Event::Key(KeyEvent {
        kind: KeyEventKind::Release,
        code: KeyCode::Char('q'),
        modifiers: no_mods(),
    }));
    assert!(app.is_running());
    app.handle_event(press(KeyCode::Char('q'), no_mods()));
    assert!(!app.is_running());
}

#[test]
fn stopped_app_stays_stopped() {
    let mut app = App::new();
    app.handle_event(press(KeyCode::Esc, no_mods()));
    assert!(!app.is_running());
    app.handle_event(Event::Resize(10, 10));
    app.handle_event(press(KeyCode::Char('x'), no_mods()));
    assert!(!app.is_running());
}
