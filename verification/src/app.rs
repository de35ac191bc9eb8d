//! The session: the store being built, the text buffers that collect what
//! is typed, the screen that is shown, and the operations that change them.

use vstd::prelude::*;
use crate::store::{keys_distinct, put, take_out, Pairs, Store};
use crate::text::{index_of_text, parse_index};

verus! {

/// The screen that the session shows.
#[derive(Clone, Copy, Debug, PartialEq, Eq, Structural)]
pub enum CurrentScreen {
    /// Browsing the store.
    Main,
    /// Composing a new pair.
    Editing,
    /// A view of files, without behaviour of its own.
    FileTree,
    /// Asking whether to write the store out before leaving.
    Exiting,
    /// Typing the position of a pair to delete.
    Deleting,
}

/// The buffer that typed characters go to while a pair is composed.
#[derive(Clone, Copy, Debug, PartialEq, Eq, Structural)]
pub enum CurrentlyEditing {
    Key,
    Value,
}

/// What is being typed while a pair is deleted.
#[derive(Clone, Copy, Debug, PartialEq, Eq, Structural)]
pub enum CurrentlyDeleting {
    Index,
}

/// The mathematical model of a session.
pub struct Session {
    pub key_input: Seq<char>,
    pub value_input: Seq<char>,
    pub delete_index: Seq<char>,
    pub pairs: Pairs,
    pub current_screen: CurrentScreen,
    pub currently_editing: Option<CurrentlyEditing>,
    pub currently_deleting: Option<CurrentlyDeleting>,
}

impl Session {
    /// The session at its start: nothing stored, nothing typed, the main
    /// screen.
    pub open spec fn initial() -> Session {
        Session {
            key_input: Seq::empty(),
            value_input: Seq::empty(),
            delete_index: Seq::empty(),
            pairs: Pairs::empty(),
            current_screen: CurrentScreen::Main,
            currently_editing: None,
            currently_deleting: None,
        }
    }

    /// No key is stored twice.
    pub open spec fn wf(self) -> bool {
        keys_distinct(self.pairs)
    }

    /// The markers agree with the screen: a buffer is marked as edited
    /// exactly on the editing screen, and the index as typed exactly on the
    /// deleting screen.
    pub open spec fn coherent(self) -> bool {
        &&& (self.currently_editing.is_some() <==> self.current_screen
            == CurrentScreen::Editing)
        &&& (self.currently_deleting.is_some() <==> self.current_screen
            == CurrentScreen::Deleting)
    }

    /// The session with `screen` shown and nothing else changed.
    pub open spec fn switch_screen(self, screen: CurrentScreen) -> Session {
        Session { current_screen: screen, ..self }
    }

    /// The session on the editing screen, with the key as the edited buffer.
    pub open spec fn begin_edit(self) -> Session {
        Session {
            current_screen: CurrentScreen::Editing,
            currently_editing: Some(CurrentlyEditing::Key),
            ..self
        }
    }

    /// The session on the deleting screen, with the index marked as typed.
    pub open spec fn begin_delete(self) -> Session {
        Session {
            current_screen: CurrentScreen::Deleting,
            currently_deleting: Some(CurrentlyDeleting::Index),
            ..self
        }
    }

    /// The session with the other buffer edited: the value after the key,
    /// the key after the value, and the key where none was marked.
    pub open spec fn toggle_editing(self) -> Session {
        Session {
            currently_editing: match self.currently_editing {
                Some(CurrentlyEditing::Key) => Some(CurrentlyEditing::Value),
                Some(CurrentlyEditing::Value) => Some(CurrentlyEditing::Key),
                None => Some(CurrentlyEditing::Key),
            },
            ..self
        }
    }

    /// The session with `ch` appended to the edited buffer; the same session
    /// where no buffer is marked.
    pub open spec fn append_to_active_edit_field(self, ch: char) -> Session {
        match self.currently_editing {
            Some(CurrentlyEditing::Key) => Session { key_input: self.key_input.push(ch), ..self },
            Some(CurrentlyEditing::Value) => Session {
                value_input: self.value_input.push(ch),
                ..self
            },
            None => self,
        }
    }

    /// The session with the edited buffer shortened by its last character;
    /// the same session where that buffer is empty or none is marked.
    pub open spec fn pop_active_edit_field(self) -> Session {
        match self.currently_editing {
            Some(CurrentlyEditing::Key) => Session {
                key_input: without_last(self.key_input),
                ..self
            },
            Some(CurrentlyEditing::Value) => Session {
                value_input: without_last(self.value_input),
                ..self
            },
            None => self,
        }
    }

    /// The session with the typed value stored under the typed key, both
    /// buffers empty and no buffer marked.
    pub open spec fn save_key_value(self) -> Session {
        Session {
            pairs: put(self.pairs, self.key_input, self.value_input),
            key_input: Seq::empty(),
            value_input: Seq::empty(),
            currently_editing: None,
            ..self
        }
    }

    /// The session with the typed pair stored, on the main screen.
    pub open spec fn commit_pair(self) -> Session {
        self.save_key_value().switch_screen(CurrentScreen::Main)
    }

    /// The session with `ch` appended to the typed index.
    pub open spec fn append_to_delete_buffer(self, ch: char) -> Session {
        Session { delete_index: self.delete_index.push(ch), ..self }
    }

    /// The session with the typed index shortened by its last character.
    pub open spec fn pop_delete_buffer(self) -> Session {
        Session { delete_index: without_last(self.delete_index), ..self }
    }

    /// The session without the pair at the index that the typed text
    /// denotes; the same session where the text denotes no index or one
    /// past the end of the store.
    pub open spec fn delete_key(self) -> Session {
        match index_of_text(self.delete_index) {
            Some(n) => Session { pairs: take_out(self.pairs, n), ..self },
            None => self,
        }
    }

    /// The session after `delete_key`, with the typed index empty and
    /// unmarked, on the main screen.
    pub open spec fn commit_delete(self) -> Session {
        Session {
            delete_index: Seq::empty(),
            currently_deleting: None,
            current_screen: CurrentScreen::Main,
            ..self.delete_key()
        }
    }

    /// The session after the editing or the deleting screen is left for the
    /// main screen and what was typed there is discarded; the same session
    /// on any other screen.
    pub open spec fn cancel(self) -> Session {
        match self.current_screen {
            CurrentScreen::Editing => Session {
                key_input: Seq::empty(),
                value_input: Seq::empty(),
                currently_editing: None,
                current_screen: CurrentScreen::Main,
                ..self
            },
            CurrentScreen::Deleting => Session {
                delete_index: Seq::empty(),
                currently_deleting: None,
                current_screen: CurrentScreen::Main,
                ..self
            },
            _ => self,
        }
    }
}

/// `s` without its last character; an empty text stays empty.
pub open spec fn without_last(s: Seq<char>) -> Seq<char> {
    if s.len() > 0 {
        s.drop_last()
    } else {
        s
    }
}

/// The session of one run of the editor.
pub struct App {
    /// The key that is being typed.
    pub key_input: String,
    /// The value that is being typed.
    pub value_input: String,
    /// The position that is being typed, of a pair to delete.
    pub delete_index: String,
    /// The pairs stored so far.
    pub pairs: Store,
    /// The screen that is shown.
    pub current_screen: CurrentScreen,
    /// The buffer that typed characters go to, on the editing screen.
    pub currently_editing: Option<CurrentlyEditing>,
    /// Set on the deleting screen.
    pub currently_deleting: Option<CurrentlyDeleting>,
}

impl View for App {
    type V = Session;

    open spec fn view(&self) -> Session {
        Session {
            key_input: self.key_input@,
            value_input: self.value_input@,
            delete_index: self.delete_index@,
            pairs: self.pairs@,
            current_screen: self.current_screen,
            currently_editing: self.currently_editing,
            currently_deleting: self.currently_deleting,
        }
    }
}

impl App {
    /// The session's invariant: no key is stored twice.
    pub open spec fn wf(&self) -> bool {
        self@.wf()
    }

    /// A session with nothing stored and nothing typed, on the main screen.
    pub fn new() -> (r: App)
        ensures
            r@ == Session::initial(),
            r.wf(),
    {
        App {
            key_input: String::new(),
            value_input: String::new(),
            delete_index: String::new(),
            pairs: Store::new(),
            current_screen: CurrentScreen::Main,
            currently_editing: None,
            currently_deleting: None,
        }
    }

    /// Shows `screen`; nothing else changes.
    pub fn switch_screen(&mut self, screen: CurrentScreen)
        ensures
            final(self)@ == old(self)@.switch_screen(screen),
    {
        self.current_screen = screen;
    }

    /// Starts composing a pair: the editing screen, with the key as the
    /// buffer that is typed into.
    pub fn begin_edit(&mut self)
        ensures
            final(self)@ == old(self)@.begin_edit(),
    {
        self.current_screen = CurrentScreen::Editing;
        self.currently_editing = Some(CurrentlyEditing::Key);
    }

    /// Starts deleting a pair: the deleting screen, with the index marked
    /// as typed.
    pub fn begin_delete(&mut self)
        ensures
            final(self)@ == old(self)@.begin_delete(),
    {
        self.current_screen = CurrentScreen::Deleting;
        self.currently_deleting = Some(CurrentlyDeleting::Index);
    }

    /// Moves typing from the key to the value or back; with no buffer
    /// marked, marks the key. The buffers keep their text.
    pub fn toggle_editing(&mut self)
        ensures
            final(self)@ == old(self)@.toggle_editing(),
    {
        self.currently_editing = match self.currently_editing {
            Some(CurrentlyEditing::Key) => Some(CurrentlyEditing::Value),
            Some(CurrentlyEditing::Value) => Some(CurrentlyEditing::Key),
            None => Some(CurrentlyEditing::Key),
        };
    }

    /// Appends `ch` to the buffer that is typed into; without one, does
    /// nothing.
    pub fn append_to_active_edit_field(&mut self, ch: char)
        ensures
            final(self)@ == old(self)@.append_to_active_edit_field(ch),
    {
        match self.currently_editing {
            Some(CurrentlyEditing::Key) => {
                self.key_input.push(ch);
            },
            Some(CurrentlyEditing::Value) => {
                self.value_input.push(ch);
            },
            None => {},
        }
    }

    /// Removes the last character of the buffer that is typed into; does
    /// nothing where that buffer is empty or none is marked.
    pub fn pop_active_edit_field(&mut self)
        ensures
            final(self)@ == old(self)@.pop_active_edit_field(),
    {
        match self.currently_editing {
            Some(CurrentlyEditing::Key) => {
                self.key_input.pop();
            },
            Some(CurrentlyEditing::Value) => {
                self.value_input.pop();
            },
            None => {},
        }
    }

    /// Stores the typed value under the typed key, replacing the value of
    /// a key that is stored already, then empties both buffers and unmarks
    /// the edited buffer. The screen stays.
    pub fn save_key_value(&mut self)
        requires
            old(self).wf(),
        ensures
            final(self)@ == old(self)@.save_key_value(),
            final(self).wf(),
    {
        self.pairs.insert(self.key_input.clone(), self.value_input.clone());
        self.key_input = String::new();
        self.value_input = String::new();
        self.currently_editing = None;
    }

    /// Stores the typed pair as `save_key_value` does and returns to the
    /// main screen.
    pub fn commit_pair(&mut self)
        requires
            old(self).wf(),
        ensures
            final(self)@ == old(self)@.commit_pair(),
            final(self).wf(),
    {
        self.save_key_value();
        self.current_screen = CurrentScreen::Main;
    }

    /// Appends `ch` to the typed index.
    pub fn append_to_delete_buffer(&mut self, ch: char)
        ensures
            final(self)@ == old(self)@.append_to_delete_buffer(ch),
    {
        self.delete_index.push(ch);
    }

    /// Removes the last character of the typed index, if it has one.
    pub fn pop_delete_buffer(&mut self)
        ensures
            final(self)@ == old(self)@.pop_delete_buffer(),
    {
        self.delete_index.pop();
    }

    /// Takes out the pair at the typed index, counted from zero in the
    /// store's order. Where the typed text denotes no index, or one past
    /// the end of the store, nothing is taken out. The typed text and the
    /// screen stay.
    pub fn delete_key(&mut self)
        requires
            old(self).wf(),
        ensures
            final(self)@ == old(self)@.delete_key(),
            final(self).wf(),
    {
        proof {
            self.pairs.lemma_len_fits();
        }
        match parse_index(self.delete_index.as_str()) {
            Some(index) => {
                self.pairs.remove_at(index);
            },
            None => {},
        }
    }

    /// Deletes as `delete_key` does, then empties the typed index, unmarks
    /// it and returns to the main screen, whether or not a pair was taken
    /// out.
    pub fn commit_delete(&mut self)
        requires
            old(self).wf(),
        ensures
            final(self)@ == old(self)@.commit_delete(),
            final(self).wf(),
            index_of_text(old(self)@.delete_index).is_none() ==> final(self)@.pairs == old(
                self,
            )@.pairs,
            index_of_text(old(self)@.delete_index).is_some() && index_of_text(
                old(self)@.delete_index,
            ).unwrap() < old(self)@.pairs.len() ==> final(self)@.pairs.len() == old(
                self,
            )@.pairs.len() - 1,
    {
        self.delete_key();
        self.delete_index = String::new();
        self.currently_deleting = None;
        self.current_screen = CurrentScreen::Main;
    }

    /// Leaves the editing or the deleting screen for the main screen and
    /// discards what was typed there: both edit buffers and their marker
    /// on the editing screen, the typed index and its marker on the
    /// deleting screen. On any other screen nothing changes.
    pub fn cancel(&mut self)
        ensures
            final(self)@ == old(self)@.cancel(),
            old(self)@.current_screen == CurrentScreen::Editing ==> {
                &&& final(self)@.current_screen == CurrentScreen::Main
                &&& final(self)@.key_input.len() == 0
                &&& final(self)@.value_input.len() == 0
            },
    {
        match self.current_screen {
            CurrentScreen::Editing => {
                self.key_input = String::new();
                self.value_input = String::new();
                self.currently_editing = None;
                self.current_screen = CurrentScreen::Main;
            },
            CurrentScreen::Deleting => {
                self.delete_index = String::new();
                self.currently_deleting = None;
                self.current_screen = CurrentScreen::Main;
            },
            _ => {},
        }
    }
}

} // verus!
