//! Properties that relate several operations of the session.

use vstd::prelude::*;
use crate::app::{CurrentScreen, Session};
use crate::display::{decimal_text, lemma_decimal_text_is_read_back};
use crate::input::{decision, next_session, Decision, KeyEvent, KeyKind};
use crate::store::{
    as_map, key_index, keys_distinct, lemma_put_as_map, lemma_put_keeps_distinct,
    lemma_put_key_index, lemma_put_len, lemma_take_out_keeps_distinct, lookup,
};
use crate::text::index_of_text;

verus! {

/// The session after the characters of `text` are typed, one by one, into
/// the buffer that is edited.
pub open spec fn type_into_edit_field(s: Session, text: Seq<char>) -> Session
    decreases text.len(),
{
    if text.len() == 0 {
        s
    } else {
        type_into_edit_field(s, text.drop_last()).append_to_active_edit_field(text.last())
    }
}

/// The session after `n` characters are removed, one by one, from the end
/// of the buffer that is edited.
pub open spec fn erase_from_edit_field(s: Session, n: nat) -> Session
    decreases n,
{
    if n == 0 {
        s
    } else {
        erase_from_edit_field(s.pop_active_edit_field(), (n - 1) as nat)
    }
}

/// The session after the characters of `text` are typed, one by one, into
/// the index to delete.
pub open spec fn type_into_delete_buffer(s: Session, text: Seq<char>) -> Session
    decreases text.len(),
{
    if text.len() == 0 {
        s
    } else {
        type_into_delete_buffer(s, text.drop_last()).append_to_delete_buffer(text.last())
    }
}

/// The session after `n` characters are removed, one by one, from the end
/// of the index to delete.
pub open spec fn erase_from_delete_buffer(s: Session, n: nat) -> Session
    decreases n,
{
    if n == 0 {
        s
    } else {
        erase_from_delete_buffer(s.pop_delete_buffer(), (n - 1) as nat)
    }
}

/// Removing a character right after appending one gives the session back.
pub proof fn law_append_then_pop(s: Session, ch: char)
    ensures
        s.append_to_active_edit_field(ch).pop_active_edit_field() == s,
        s.append_to_delete_buffer(ch).pop_delete_buffer() == s,
{
    assert(s.key_input.push(ch).drop_last() =~= s.key_input);
    assert(s.value_input.push(ch).drop_last() =~= s.value_input);
    assert(s.delete_index.push(ch).drop_last() =~= s.delete_index);
}

/// Typing any text into the edited buffer and then removing as many
/// characters as were typed gives the session back, whichever buffer is
/// edited and whatever it held.
pub proof fn law_edit_round_trip(s: Session, text: Seq<char>)
    ensures
        erase_from_edit_field(type_into_edit_field(s, text), text.len()) == s,
    decreases text.len(),
{
    if text.len() > 0 {
        let typed = type_into_edit_field(s, text.drop_last());
        law_append_then_pop(typed, text.last());
        law_edit_round_trip(s, text.drop_last());
    }
}

/// Typing any text into the index to delete and then removing as many
/// characters as were typed gives the session back.
pub proof fn law_delete_round_trip(s: Session, text: Seq<char>)
    ensures
        erase_from_delete_buffer(type_into_delete_buffer(s, text), text.len()) == s,
    decreases text.len(),
{
    if text.len() > 0 {
        let typed = type_into_delete_buffer(s, text.drop_last());
        law_append_then_pop(typed, text.last());
        law_delete_round_trip(s, text.drop_last());
    }
}

/// After a pair is committed, the store holds the typed value under the
/// typed key, and reads as a map like the store before with that pair
/// inserted.
pub proof fn law_commit_then_lookup(s: Session)
    ensures
        lookup(s.commit_pair().pairs, s.key_input) == Some(s.value_input),
        as_map(s.commit_pair().pairs) == as_map(s.pairs).insert(s.key_input, s.value_input),
{
    lemma_put_as_map(s.pairs, s.key_input, s.value_input);
}

/// The session in which, after `s`, `key` and `value` have been typed.
pub open spec fn with_typed(s: Session, key: Seq<char>, value: Seq<char>) -> Session {
    Session { key_input: key, value_input: value, ..s }
}

/// Committing a second value under a key that was just committed
/// overwrites: the store keeps its size, the key keeps its position, and
/// the key's value is the second one.
pub proof fn law_second_commit_overwrites(s: Session, second: Seq<char>)
    ensures
        ({
            let once = s.commit_pair();
            let twice = with_typed(once, s.key_input, second).commit_pair();
            &&& twice.pairs.len() == once.pairs.len()
            &&& key_index(twice.pairs, s.key_input) == key_index(once.pairs, s.key_input)
            &&& lookup(twice.pairs, s.key_input) == Some(second)
        }),
{
    let once = s.commit_pair();
    lemma_put_as_map(s.pairs, s.key_input, s.value_input);
    lemma_put_as_map(once.pairs, s.key_input, second);
    lemma_put_len(once.pairs, s.key_input, second);
    lemma_put_key_index(once.pairs, s.key_input, second, s.key_input);
}

/// A commit of an index that the typed text does not denote leaves the
/// store as it is; one of an index inside the store takes exactly one pair
/// out; one of an index past the end leaves the store as it is.
pub proof fn law_commit_delete_size(s: Session)
    ensures
        match index_of_text(s.delete_index) {
            None => s.commit_delete().pairs == s.pairs,
            Some(n) => if n < s.pairs.len() {
                s.commit_delete().pairs.len() == s.pairs.len() - 1
            } else {
                s.commit_delete().pairs == s.pairs
            },
        },
{
}

/// The index that the listing shows for a pair is the one that takes it
/// out: with the decimal text of a position inside the store typed as the
/// index, a commit removes the pair at that position and no other.
pub proof fn law_shown_index_deletes_its_row(s: Session, position: nat)
    requires
        position < s.pairs.len(),
    ensures
        (Session { delete_index: decimal_text(position), ..s }).commit_delete().pairs
            == s.pairs.remove(position as int),
{
    lemma_decimal_text_is_read_back(position);
}

/// Cancelling on the editing screen leads to the main screen with both
/// edit buffers empty, whatever they held, and leaves the store alone.
pub proof fn law_cancel_editing(s: Session)
    requires
        s.current_screen == CurrentScreen::Editing,
    ensures
        s.cancel().current_screen == CurrentScreen::Main,
        s.cancel().key_input == Seq::<char>::empty(),
        s.cancel().value_input == Seq::<char>::empty(),
        s.cancel().pairs == s.pairs,
{
}

/// A key release alters nothing, on every screen, and never ends the
/// session.
pub proof fn law_release_changes_nothing(s: Session, e: KeyEvent)
    requires
        e.kind == KeyKind::Release,
    ensures
        next_session(s, e) == s,
        decision(s, e) == Decision::Continue,
{
}

/// Every event keeps the session valid: no key is stored twice, and the
/// markers go on agreeing with the screen.
pub proof fn law_events_keep_invariants(s: Session, e: KeyEvent)
    ensures
        s.wf() ==> next_session(s, e).wf(),
        s.coherent() ==> next_session(s, e).coherent(),
{
    if s.wf() {
        lemma_put_keeps_distinct(s.pairs, s.key_input, s.value_input);
        match index_of_text(s.delete_index) {
            Some(n) => {
                lemma_take_out_keeps_distinct(s.pairs, n);
            },
            None => {},
        }
    }
}

} // verus!
