//! Key events and their dispatch: which operation of the session a key
//! selects on each screen, and when the session ends.

use vstd::prelude::*;
use crate::app::{App, CurrentScreen, CurrentlyEditing, Session};

verus! {

/// The key of an event.
#[derive(Clone, Copy, Debug, PartialEq, Eq, Structural)]
pub enum Key {
    /// A key that types a character.
    Char(char),
    Enter,
    Backspace,
    Esc,
    Tab,
    /// Any other key.
    Other,
}

/// The modifier keys held with a key.
#[derive(Clone, Copy, Debug, PartialEq, Eq, Structural)]
pub enum Modifiers {
    /// No modifier.
    Plain,
    /// Control, and no other modifier.
    Control,
    /// Any other combination.
    Other,
}

/// Whether the key went down, is held, or came up.
#[derive(Clone, Copy, Debug, PartialEq, Eq, Structural)]
pub enum KeyKind {
    Press,
    Repeat,
    Release,
}

/// One key event.
#[derive(Clone, Copy, Debug, PartialEq, Eq, Structural)]
pub struct KeyEvent {
    pub code: Key,
    pub modifiers: Modifiers,
    pub kind: KeyKind,
}

/// What the host does after an event.
#[derive(Clone, Copy, Debug, PartialEq, Eq, Structural)]
pub enum Decision {
    /// Show the session and wait for the next event.
    Continue,
    /// End the session; `persist` says whether the store is written out.
    Terminate { persist: bool },
}

impl KeyEvent {
    /// The press of `code` with `modifiers` held.
    pub fn press(code: Key, modifiers: Modifiers) -> (r: KeyEvent)
        ensures
            r == (KeyEvent { code, modifiers, kind: KeyKind::Press }),
    {
        KeyEvent { code, modifiers, kind: KeyKind::Press }
    }

    /// The key is the character `c`, with no modifier held.
    pub open spec fn is_plain(self, c: char) -> bool {
        self.code == Key::Char(c) && self.modifiers == Modifiers::Plain
    }

    /// The key is the character `c`, with control held and nothing else.
    pub open spec fn is_control(self, c: char) -> bool {
        self.code == Key::Char(c) && self.modifiers == Modifiers::Control
    }
}

/// The session after a key press on the main screen.
pub open spec fn after_main_key(s: Session, e: KeyEvent) -> Session {
    if e.is_plain('e') {
        s.begin_edit()
    } else if e.is_plain('d') {
        s.begin_delete()
    } else if e.is_plain('1') {
        s.switch_screen(CurrentScreen::FileTree)
    } else if e.is_plain('q') || e.is_control('c') {
        s.switch_screen(CurrentScreen::Exiting)
    } else {
        s
    }
}

/// The session after a key press on the editing screen. Modifiers play no
/// part there.
pub open spec fn after_editing_key(s: Session, code: Key) -> Session {
    match code {
        Key::Enter => match s.currently_editing {
            Some(CurrentlyEditing::Key) => Session {
                currently_editing: Some(CurrentlyEditing::Value),
                ..s
            },
            Some(CurrentlyEditing::Value) => s.commit_pair(),
            None => s,
        },
        Key::Backspace => s.pop_active_edit_field(),
        Key::Tab => s.toggle_editing(),
        Key::Esc => s.cancel(),
        Key::Char(c) => s.append_to_active_edit_field(c),
        Key::Other => s,
    }
}

/// The session after a key press on the deleting screen. Modifiers play no
/// part there.
pub open spec fn after_deleting_key(s: Session, code: Key) -> Session {
    match code {
        Key::Enter => s.commit_delete(),
        Key::Backspace => s.pop_delete_buffer(),
        Key::Esc => s.cancel(),
        Key::Char(c) => s.append_to_delete_buffer(c),
        _ => s,
    }
}

/// The session after a key press on the file screen.
pub open spec fn after_file_tree_key(s: Session, e: KeyEvent) -> Session {
    if e.is_plain('2') {
        s.switch_screen(CurrentScreen::Main)
    } else if e.is_control('c') {
        s.switch_screen(CurrentScreen::Exiting)
    } else {
        s
    }
}

/// The session after an event. Only presses count: a release or a repeat
/// changes nothing. No key changes the session on the exiting screen.
pub open spec fn next_session(s: Session, e: KeyEvent) -> Session {
    if e.kind != KeyKind::Press {
        s
    } else {
        match s.current_screen {
            CurrentScreen::Main => after_main_key(s, e),
            CurrentScreen::Editing => after_editing_key(s, e.code),
            CurrentScreen::Deleting => after_deleting_key(s, e.code),
            CurrentScreen::FileTree => after_file_tree_key(s, e),
            CurrentScreen::Exiting => s,
        }
    }
}

/// What a key press on the exiting screen decides: the session ends with
/// the store written out on `y`, and ends without on `n`, `q` and control
/// with `c`; any other key decides nothing.
pub open spec fn exit_decision(e: KeyEvent) -> Decision {
    if e.is_plain('y') {
        Decision::Terminate { persist: true }
    } else if e.is_plain('n') || e.is_plain('q') || e.is_control('c') {
        Decision::Terminate { persist: false }
    } else {
        Decision::Continue
    }
}

/// What the host does after an event: the session ends only by a key
/// press on the exiting screen.
pub open spec fn decision(s: Session, e: KeyEvent) -> Decision {
    if e.kind == KeyKind::Press && s.current_screen == CurrentScreen::Exiting {
        exit_decision(e)
    } else {
        Decision::Continue
    }
}

fn on_main(c: char, modifiers: Modifiers, app: &mut App)
    ensures
        final(app)@ == after_main_key(
            old(app)@,
            KeyEvent { code: Key::Char(c), modifiers, kind: KeyKind::Press },
        ),
{
    match modifiers {
        Modifiers::Plain => {
            if c == 'e' {
                app.begin_edit();
            } else if c == 'd' {
                app.begin_delete();
            } else if c == '1' {
                app.switch_screen(CurrentScreen::FileTree);
            } else if c == 'q' {
                app.switch_screen(CurrentScreen::Exiting);
            }
        },
        Modifiers::Control => {
            if c == 'c' {
                app.switch_screen(CurrentScreen::Exiting);
            }
        },
        Modifiers::Other => {},
    }
}

fn on_editing(code: Key, app: &mut App)
    requires
        old(app).wf(),
    ensures
        final(app)@ == after_editing_key(old(app)@, code),
        final(app).wf(),
{
    match code {
        Key::Enter => match app.currently_editing {
            Some(CurrentlyEditing::Key) => {
                app.currently_editing = Some(CurrentlyEditing::Value);
            },
            Some(CurrentlyEditing::Value) => {
                app.commit_pair();
            },
            None => {},
        },
        Key::Backspace => {
            app.pop_active_edit_field();
        },
        Key::Tab => {
            app.toggle_editing();
        },
        Key::Esc => {
            app.cancel();
        },
        Key::Char(c) => {
            app.append_to_active_edit_field(c);
        },
        Key::Other => {},
    }
}

fn on_deleting(code: Key, app: &mut App)
    requires
        old(app).wf(),
    ensures
        final(app)@ == after_deleting_key(old(app)@, code),
        final(app).wf(),
{
    match code {
        Key::Enter => {
            app.commit_delete();
        },
        Key::Backspace => {
            app.pop_delete_buffer();
        },
        Key::Esc => {
            app.cancel();
        },
        Key::Char(c) => {
            app.append_to_delete_buffer(c);
        },
        _ => {},
    }
}

fn on_file_tree(c: char, modifiers: Modifiers, app: &mut App)
    ensures
        final(app)@ == after_file_tree_key(
            old(app)@,
            KeyEvent { code: Key::Char(c), modifiers, kind: KeyKind::Press },
        ),
{
    match modifiers {
        Modifiers::Plain => {
            if c == '2' {
                app.switch_screen(CurrentScreen::Main);
            }
        },
        Modifiers::Control => {
            if c == 'c' {
                app.switch_screen(CurrentScreen::Exiting);
            }
        },
        Modifiers::Other => {},
    }
}

fn on_exiting(c: char, modifiers: Modifiers) -> (r: Decision)
    ensures
        r == exit_decision(KeyEvent { code: Key::Char(c), modifiers, kind: KeyKind::Press }),
{
    match modifiers {
        Modifiers::Plain => {
            if c == 'y' {
                Decision::Terminate { persist: true }
            } else if c == 'n' || c == 'q' {
                Decision::Terminate { persist: false }
            } else {
                Decision::Continue
            }
        },
        Modifiers::Control => {
            if c == 'c' {
                Decision::Terminate { persist: false }
            } else {
                Decision::Continue
            }
        },
        Modifiers::Other => Decision::Continue,
    }
}

/// Applies one key event to the session and says whether the session
/// goes on. The session becomes `next_session` of the session before and
/// the event, and the result is `decision` of the two. An event that is
/// no press changes nothing, on every screen. A session whose markers
/// agree with its screen stays so.
pub fn dispatch(event: KeyEvent, app: &mut App) -> (r: Decision)
    requires
        old(app).wf(),
    ensures
        final(app)@ == next_session(old(app)@, event),
        r == decision(old(app)@, event),
        final(app).wf(),
        event.kind != KeyKind::Press ==> final(app)@ == old(app)@ && r == Decision::Continue,
        old(app)@.coherent() ==> final(app)@.coherent(),
{
    match event.kind {
        KeyKind::Press => {},
        _ => {
            return Decision::Continue;
        },
    }
    match app.current_screen {
        CurrentScreen::Main => {
            match event.code {
                Key::Char(c) => {
                    on_main(c, event.modifiers, app);
                },
                _ => {},
            }
            Decision::Continue
        },
        CurrentScreen::Editing => {
            on_editing(event.code, app);
            Decision::Continue
        },
        CurrentScreen::Deleting => {
            on_deleting(event.code, app);
            Decision::Continue
        },
        CurrentScreen::FileTree => {
            match event.code {
                Key::Char(c) => {
                    on_file_tree(c, event.modifiers, app);
                },
                _ => {},
            }
            Decision::Continue
        },
        CurrentScreen::Exiting => match event.code {
            Key::Char(c) => on_exiting(c, event.modifiers),
            _ => Decision::Continue,
        },
    }
}

} // verus!
