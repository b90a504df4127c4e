//! The application state machine: a single `running` flag, the key
//! combinations that stop it, and the per-event transition.

use vstd::prelude::*;

verus! {

/// A key identified by what it types, as far as the state machine cares:
/// Escape, a character key, or anything else.
#[derive(Clone, Copy, Debug, PartialEq, Eq, Structural)]
pub enum KeyCode {
    Esc,
    Char(char),
    Other,
}

/// Which modifier keys were held during a key event.
#[derive(Clone, Copy, Debug, PartialEq, Eq, Structural)]
pub struct Modifiers {
    pub ctrl: bool,
    pub alt: bool,
    pub shift: bool,
}

/// Whether a key event reports the key going down, auto-repeating, or being
/// released.
#[derive(Clone, Copy, Debug, PartialEq, Eq, Structural)]
pub enum KeyEventKind {
    Press,
    Repeat,
    Release,
}

/// One key event as delivered by the terminal driver.
#[derive(Clone, Copy, Debug, PartialEq, Eq, Structural)]
pub struct KeyEvent {
    pub kind: KeyEventKind,
    pub code: KeyCode,
    pub modifiers: Modifiers,
}

/// One input event. Mouse and resize events carry nothing the state machine
/// reads; a resize takes effect through the canvas handed to the next frame.
/// `Other` stands for anything else the terminal driver may deliver.
#[derive(Clone, Copy, Debug, PartialEq, Eq, Structural)]
pub enum Event {
    Key(KeyEvent),
    Mouse,
    Resize(u16, u16),
    Other,
}

/// No modifier key held.
pub open spec fn no_modifiers(m: Modifiers) -> bool {
    !m.ctrl && !m.alt && !m.shift
}

/// Exactly the control modifier held.
pub open spec fn ctrl_only(m: Modifiers) -> bool {
    m.ctrl && !m.alt && !m.shift
}

/// The key combinations that quit: Escape, `q` or `Q` without modifiers, or
/// `c` / `C` with control.
pub open spec fn quit_combo(code: KeyCode, m: Modifiers) -> bool {
    ||| code == KeyCode::Esc
    ||| ((code == KeyCode::Char('q') || code == KeyCode::Char('Q')) && no_modifiers(m))
    ||| ((code == KeyCode::Char('c') || code == KeyCode::Char('C')) && ctrl_only(m))
}

/// Whether an event fires the quit transition: only a key press of a quit
/// combination does; releases, repeats, mouse and resize events never do.
pub open spec fn event_quits(ev: Event) -> bool {
    match ev {
        Event::Key(k) => k.kind == KeyEventKind::Press && quit_combo(k.code, k.modifiers),
        Event::Mouse => false,
        Event::Resize(_, _) => false,
        Event::Other => false,
    }
}

/// The state transition: the application keeps running exactly when it was
/// running and the event does not quit.
pub open spec fn next_running(running: bool, ev: Event) -> bool {
    running && !event_quits(ev)
}

/// The quit transition stops a running application exactly once: a quitting
/// event leaves it stopped, repeating that event leaves it stopped, and an
/// event that does not quit leaves the flag unchanged.
pub proof fn lemma_quit_transition(running: bool, ev: Event)
    ensures
        event_quits(ev) ==> !next_running(running, ev),
        !event_quits(ev) ==> next_running(running, ev) == running,
        next_running(next_running(running, ev), ev) == next_running(running, ev),
{
}

/// The application: one lifecycle flag, true until a quit key is pressed.
#[derive(Debug)]
pub struct App {
    running: bool,
}

impl App {
    /// Whether the application is still running.
    pub closed spec fn spec_running(self) -> bool {
        self.running
    }

    /// Constructs a new instance, which starts out running.
    pub fn new() -> (r: App)
        ensures
            r.spec_running(),
    {
        App { running: true }
    }

    /// Returns whether the main loop should keep going.
    pub fn is_running(&self) -> (r: bool)
        ensures
            r == self.spec_running(),
    {
        self.running
    }

    /// Sets running to false to quit the application.
    pub fn quit(&mut self)
        ensures
            !final(self).spec_running(),
    {
        self.running = false;
    }

    /// Applies one already-pressed key to the state: a quit combination
    /// stops the application, anything else is a no-op.
    pub fn on_key_event(&mut self, code: KeyCode, modifiers: Modifiers)
        ensures
            final(self).spec_running() == (old(self).spec_running() && !quit_combo(
                code,
                modifiers,
            )),
    {
        let quit = match code {
            KeyCode::Esc => true,
            KeyCode::Char(c) => ((c == 'q' || c == 'Q') && !modifiers.ctrl && !modifiers.alt
                && !modifiers.shift) || ((c == 'c' || c == 'C') && modifiers.ctrl && !modifiers.alt
                && !modifiers.shift),
            KeyCode::Other => false,
        };
        if quit {
            self.quit();
        }
    }

    /// Consumes one input event: only key presses are acted on; key repeats
    /// and releases, mouse events and resize events are discarded.
    pub fn handle_event(&mut self, ev: Event)
        ensures
            final(self).spec_running() == next_running(old(self).spec_running(), ev),
    {
        match ev {
            Event::Key(k) => {
                match k.kind {
                    KeyEventKind::Press => self.on_key_event(k.code, k.modifiers),
                    KeyEventKind::Repeat => {},
                    KeyEventKind::Release => {},
                }
            },
            Event::Mouse => {},
            Event::Resize(_, _) => {},
            Event::Other => {},
        }
    }
}

impl Default for App {
    /// The default application starts out running.
    fn default() -> (r: Self)
        ensures
            r.spec_running(),
    {
        App { running: true }
    }
}

} // verus!
