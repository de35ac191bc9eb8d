//! What the session shows, as text: the labels of the status bar and the
//! rows that list the store. Drawing them is the host's business.

use vstd::prelude::*;
use vstd::string::StringExecFns;
use crate::app::{CurrentScreen, CurrentlyEditing};
use crate::store::Store;
use crate::text::{all_digits, digit_value, digits_value, index_of_text, is_digit, without_sign};

verus! {

/// The width to which the index and the key of a row are padded.
pub const COLUMN_WIDTH: usize = 25;

/// The decimal digit for `d`, which is less than ten.
pub open spec fn digit_char(d: nat) -> char {
    ('0' as nat + d) as char
}

/// `n` in decimal digits, without leading zeros.
pub open spec fn decimal_text(n: nat) -> Seq<char>
    decreases n,
{
    if n < 10 {
        seq![digit_char(n)]
    } else {
        decimal_text(n / 10).push(digit_char(n % 10))
    }
}

/// `s` followed by as many spaces as it takes to make it `width`
/// characters long; a longer text stays as it is.
pub open spec fn padded(s: Seq<char>, width: nat) -> Seq<char> {
    if s.len() >= width {
        s
    } else {
        s + Seq::new((width - s.len()) as nat, |i: int| ' ')
    }
}

/// One row of the listing: the index and the key, each padded to the
/// column width, and the value, with ` | ` and ` : ` between them.
pub open spec fn row_text(index: Seq<char>, key: Seq<char>, value: Seq<char>) -> Seq<char> {
    padded(index, COLUMN_WIDTH as nat) + seq![' ', '|', ' '] + padded(key, COLUMN_WIDTH as nat)
        + seq![' ', ':', ' '] + value
}

/// The decimal text of a number denotes that number as an index.
pub proof fn lemma_decimal_text_is_read_back(n: nat)
    ensures
        decimal_text(n).len() > 0,
        all_digits(decimal_text(n)),
        digits_value(decimal_text(n)) == n,
        index_of_text(decimal_text(n)) == Some(n),
    decreases n,
{
    let t = decimal_text(n);
    if n < 10 {
        assert(is_digit(digit_char(n)));
        assert(digit_value(digit_char(n)) == n);
        assert(t.drop_last() =~= Seq::<char>::empty());
        assert(digits_value(t.drop_last()) == 0);
    } else {
        let front = decimal_text(n / 10);
        lemma_decimal_text_is_read_back(n / 10);
        assert(is_digit(digit_char(n % 10)));
        assert(digit_value(digit_char(n % 10)) == n % 10);
        assert(t.drop_last() =~= front);
        assert forall|i: int| 0 <= i < t.len() implies is_digit(#[trigger] t[i]) by {
            if i < front.len() {
                assert(t[i] == front[i]);
            }
        }
    }
    assert(is_digit(t[0]));
    assert(without_sign(t) == t);
}

fn digit(d: usize) -> (r: char)
    requires
        d < 10,
    ensures
        r == digit_char(d as nat),
{
    if d == 0 {
        '0'
    } else if d == 1 {
        '1'
    } else if d == 2 {
        '2'
    } else if d == 3 {
        '3'
    } else if d == 4 {
        '4'
    } else if d == 5 {
        '5'
    } else if d == 6 {
        '6'
    } else if d == 7 {
        '7'
    } else if d == 8 {
        '8'
    } else {
        '9'
    }
}

/// `n` in decimal digits. Typed on the deleting screen, the text denotes
/// `n` again.
pub fn decimal(n: usize) -> (r: String)
    ensures
        r@ == decimal_text(n as nat),
        index_of_text(r@) == Some(n as nat),
    decreases n,
{
    proof {
        lemma_decimal_text_is_read_back(n as nat);
    }
    if n < 10 {
        let mut r = String::new();
        r.push(digit(n));
        assert(r@ =~= decimal_text(n as nat));
        r
    } else {
        let mut r = decimal(n / 10);
        r.push(digit(n % 10));
        r
    }
}

fn push_padded(out: &mut String, s: &str, width: usize)
    ensures
        final(out)@ == old(out)@ + padded(s@, width as nat),
{
    let len: usize = s.unicode_len();
    out.append(s);
    let mut i: usize = len;
    while i < width
        invariant
            len == s@.len(),
            len <= i,
            len >= width ==> i == len,
            len < width ==> i <= width,
            out@ == old(out)@ + s@ + Seq::new((i - len) as nat, |j: int| ' '),
        decreases width - i,
    {
        out.push(' ');
        assert(Seq::new((i - len) as nat, |j: int| ' ').push(' ') =~= Seq::new(
            (i + 1 - len) as nat,
            |j: int| ' ',
        ));
        assert(out@ =~= old(out)@ + s@ + Seq::new((i + 1 - len) as nat, |j: int| ' '));
        i = i + 1;
    }
    assert(out@ =~= old(out)@ + padded(s@, width as nat));
}

/// One row of the listing, from its three texts.
pub fn row(index: &str, key: &str, value: &str) -> (r: String)
    ensures
        r@ == row_text(index@, key@, value@),
{
    let mut r = String::new();
    push_padded(&mut r, index, COLUMN_WIDTH);
    r.push(' ');
    r.push('|');
    r.push(' ');
    push_padded(&mut r, key, COLUMN_WIDTH);
    r.push(' ');
    r.push(':');
    r.push(' ');
    r.append(value);
    assert(r@ =~= row_text(index@, key@, value@));
    r
}

/// The heading of the listing.
pub open spec fn heading_text() -> Seq<char> {
    row_text("Index"@, "Key"@, "Value"@)
}

/// The rows that list `s`: the heading, then one row for each pair, in
/// the store's order, numbered from zero.
pub open spec fn listing_text(s: crate::store::Pairs) -> Seq<Seq<char>> {
    Seq::new(
        s.len() + 1,
        |i: int|
            if i == 0 {
                heading_text()
            } else {
                row_text(decimal_text((i - 1) as nat), s[i - 1].0, s[i - 1].1)
            },
    )
}

/// The rows of `listing`, as plain values.
pub open spec fn rows_view(rows: Seq<String>) -> Seq<Seq<char>> {
    Seq::new(rows.len(), |i: int| rows[i]@)
}

/// The listing of the store: the heading, then one row for each pair, in
/// the store's order. The index shown in a row is the one that, typed on
/// the deleting screen, takes that row's pair out.
pub fn listing(store: &Store) -> (r: Vec<String>)
    ensures
        rows_view(r@) == listing_text(store@),
{
    let mut rows: Vec<String> = Vec::new();
    rows.push(row("Index", "Key", "Value"));
    let count: usize = store.len();
    let mut i: usize = 0;
    while i < count
        invariant
            count == store@.len(),
            i <= count,
            rows@.len() == i + 1,
            forall|j: int| 0 <= j <= i ==> (#[trigger] rows@[j])@ == listing_text(store@)[j],
        decreases count - i,
    {
        match store.entry(i) {
            Some((key, value)) => {
                let number = decimal(i);
                rows.push(row(number.as_str(), key.as_str(), value.as_str()));
            },
            None => {},
        }
        i = i + 1;
    }
    assert(rows_view(rows@) =~= listing_text(store@));
    rows
}

/// The name of the mode that the status bar shows for a screen.
pub open spec fn mode_label_text(screen: CurrentScreen) -> Seq<char> {
    match screen {
        CurrentScreen::Main => "Normal Mode"@,
        CurrentScreen::Editing => "Editing Mode"@,
        CurrentScreen::FileTree => "File Tree"@,
        CurrentScreen::Exiting => "Exiting"@,
        CurrentScreen::Deleting => "Deleting"@,
    }
}

/// The name of the mode that the status bar shows for a screen.
pub fn mode_label(screen: CurrentScreen) -> (r: &'static str)
    ensures
        r@ == mode_label_text(screen),
{
    match screen {
        CurrentScreen::Main => "Normal Mode",
        CurrentScreen::Editing => "Editing Mode",
        CurrentScreen::FileTree => "File Tree",
        CurrentScreen::Exiting => "Exiting",
        CurrentScreen::Deleting => "Deleting",
    }
}

/// What the status bar says of the buffer that is edited.
pub open spec fn editing_label_text(editing: Option<CurrentlyEditing>) -> Seq<char> {
    match editing {
        Some(CurrentlyEditing::Key) => "Editing Json Key"@,
        Some(CurrentlyEditing::Value) => "Editing Json Value"@,
        None => "Not Editing Anything"@,
    }
}

/// What the status bar says of the buffer that is edited.
pub fn editing_label(editing: Option<CurrentlyEditing>) -> (r: &'static str)
    ensures
        r@ == editing_label_text(editing),
{
    match editing {
        Some(CurrentlyEditing::Key) => "Editing Json Key",
        Some(CurrentlyEditing::Value) => "Editing Json Value",
        None => "Not Editing Anything",
    }
}

/// The keys that the status bar names for a screen.
pub open spec fn keys_hint_text(screen: CurrentScreen) -> Seq<char> {
    match screen {
        CurrentScreen::Main => "(q) or (CTRL+c) to quit / (e) to make new pair / (d) to delete a pair"@,
        CurrentScreen::Editing => "(ESC) to cancel/(Tab) to switch boxes/enter to complete"@,
        CurrentScreen::FileTree => "(2) to go back / (CTRL+c) to quit"@,
        CurrentScreen::Exiting => "(q) to quit / (e) to make new pair"@,
        CurrentScreen::Deleting => "enter to delete"@,
    }
}

/// The keys that the status bar names for a screen.
pub fn keys_hint(screen: CurrentScreen) -> (r: &'static str)
    ensures
        r@ == keys_hint_text(screen),
{
    match screen {
        CurrentScreen::Main => "(q) or (CTRL+c) to quit / (e) to make new pair / (d) to delete a pair",
        CurrentScreen::Editing => "(ESC) to cancel/(Tab) to switch boxes/enter to complete",
        CurrentScreen::FileTree => "(2) to go back / (CTRL+c) to quit",
        CurrentScreen::Exiting => "(q) to quit / (e) to make new pair",
        CurrentScreen::Deleting => "enter to delete",
    }
}

/// The share of a side that is left free on each side of a popup that
/// takes `percent` of it, in percent.
pub fn popup_margin(percent: u16) -> (r: u16)
    requires
        percent <= 100,
    ensures
        r == (100 - percent) / 2,
{
    (100 - percent) / 2
}

} // verus!
