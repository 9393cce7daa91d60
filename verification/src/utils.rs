//! A single-line text field for typing a number, with a byte cursor.

use vstd::prelude::*;
use vstd::std_specs::convert::FromSpecImpl;
use vstd::utf8::*;
use crate::Key;

verus! {

/// The characters encoded by the bytes of `text` before byte position `at`.
pub open spec fn text_before(text: Seq<char>, at: int) -> Seq<char> {
    decode_utf8(encode_utf8(text).subrange(0, at))
}

/// The characters encoded by the bytes of `text` from byte position `at` on.
pub open spec fn text_from(text: Seq<char>, at: int) -> Seq<char> {
    decode_utf8(encode_utf8(text).subrange(at, encode_utf8(text).len() as int))
}

/// Byte position `at` is the start of a character of `text`, or its end.
pub open spec fn on_char_boundary(text: Seq<char>, at: int) -> bool {
    is_char_boundary(encode_utf8(text), at)
}

/// `text` with `ch` put in at byte position `at`.
pub open spec fn text_with(text: Seq<char>, at: int, ch: char) -> Seq<char> {
    text_before(text, at) + seq![ch] + text_from(text, at)
}

/// `text` without the character that starts at byte position `at`.
pub open spec fn text_without(text: Seq<char>, at: int) -> Seq<char> {
    text_before(text, at) + text_from(text, at).drop_first()
}

/// `ch` is one of `0` to `9`.
pub open spec fn is_digit(ch: char) -> bool {
    '0' <= ch <= '9'
}

/// Calls `String::insert`, which puts `ch` into the string at byte position
/// `at` and panics unless `at` lies on a character boundary. The length of a
/// string in bytes always fits a `usize`.
#[verifier::external_body]
fn string_insert(s: &mut String, at: usize, ch: char)
    requires
        on_char_boundary(old(s)@, at as int),
    ensures
        final(s)@ == text_with(old(s)@, at as int, ch),
        encode_utf8(final(s)@).len() <= usize::MAX,
{
    s.insert(at, ch)
}

/// Calls `String::remove`, which takes the character that starts at byte
/// position `at` out of the string and returns it; it panics unless `at` is
/// the start of a character.
#[verifier::external_body]
fn string_remove(s: &mut String, at: usize) -> (ch: char)
    requires
        on_char_boundary(old(s)@, at as int),
        at < encode_utf8(old(s)@).len(),
    ensures
        final(s)@ == text_without(old(s)@, at as int),
        ch == text_from(old(s)@, at as int)[0],
{
    s.remove(at)
}

/// Calls `String::len`: the length of the string in bytes.
#[verifier::external_body]
pub(crate) fn string_len(s: &String) -> (n: usize)
    ensures
        n == encode_utf8(s@).len(),
{
    s.len()
}

/// Calls `str::contains` with a character as the pattern: whether `ch`
/// occurs in the string.
#[verifier::external_body]
fn string_contains(s: &String, ch: char) -> (found: bool)
    ensures
        found == s@.contains(ch),
{
    s.contains(ch)
}

/// A text field as the proofs see it: its characters and the cursor.
pub struct TextField {
    pub text: Seq<char>,
    pub cursor: nat,
}

impl TextField {
    /// The field opened on `text`, with the cursor behind the last character.
    pub open spec fn opened(text: Seq<char>) -> TextField {
        TextField { text, cursor: text.len() }
    }

    /// The text is plain ASCII and the cursor lies within it.
    pub open spec fn wf(self) -> bool {
        &&& is_ascii_chars(self.text)
        &&& self.cursor <= self.text.len()
    }

    /// Whether the field takes `ch`: a digit always, a dot if the text has
    /// none, a minus sign at the very start if the text has none.
    pub open spec fn accepts(self, ch: char) -> bool {
        ||| is_digit(ch)
        ||| (ch == '.' && !self.text.contains('.'))
        ||| (ch == '-' && self.cursor == 0 && !self.text.contains('-'))
    }

    /// An ASCII field after `ch` was typed.
    pub open spec fn insert(self, ch: char) -> TextField {
        if self.accepts(ch) {
            TextField { text: self.text.insert(self.cursor as int, ch), cursor: self.cursor + 1 }
        } else {
            self
        }
    }

    /// An ASCII field after the character before the cursor was removed.
    pub open spec fn backspace(self) -> TextField {
        if self.cursor > 0 {
            TextField {
                text: self.text.remove(self.cursor - 1),
                cursor: (self.cursor - 1) as nat,
            }
        } else {
            self
        }
    }

    /// An ASCII field after the character under the cursor was removed.
    pub open spec fn delete(self) -> TextField {
        if self.cursor < self.text.len() {
            TextField { text: self.text.remove(self.cursor as int), cursor: self.cursor }
        } else {
            self
        }
    }

    /// The field with the cursor one place to the left, if there is one.
    pub open spec fn left(self) -> TextField {
        if self.cursor > 0 {
            TextField { text: self.text, cursor: (self.cursor - 1) as nat }
        } else {
            self
        }
    }

    /// An ASCII field with the cursor one place to the right, if there is one.
    pub open spec fn right(self) -> TextField {
        if self.cursor < self.text.len() {
            TextField { text: self.text, cursor: self.cursor + 1 }
        } else {
            self
        }
    }

    /// An ASCII field after a key press: typing, removing, or moving the
    /// cursor; any other key leaves it as it is.
    pub open spec fn typed(self, key: Key) -> TextField {
        match key {
            Key::Char(ch) => self.insert(ch),
            Key::Backspace => self.backspace(),
            Key::Delete => self.delete(),
            Key::Left => self.left(),
            Key::Right => self.right(),
            _ => self,
        }
    }
}

/// An open edit as the proofs see it: the parameter that is being edited and
/// the text typed so far.
pub struct EditView<F> {
    pub field: F,
    pub input: TextField,
}

/// Text typed into a numeric field, and the byte position of the cursor in it.
#[derive(Clone)]
pub struct NumericInput {
    pub value: String,
    pub cursor: usize,
}

impl View for NumericInput {
    type V = TextField;

    open spec fn view(&self) -> TextField {
        TextField { text: self.value@, cursor: self.cursor as nat }
    }
}

impl Default for NumericInput {
    /// The empty field.
    fn default() -> (input: Self)
        ensures
            input@ == TextField::opened(Seq::empty()),
    {
        NumericInput { value: String::new(), cursor: 0 }
    }
}

impl From<String> for NumericInput {
    /// The field opened on `value`, with the cursor at its end.
    fn from(value: String) -> (input: Self)
        ensures
            input.value == value,
            input.cursor == encode_utf8(value@).len(),
    {
        let len = string_len(&value);
        NumericInput { value, cursor: len }
    }
}

impl FromSpecImpl<String> for NumericInput {
    open spec fn obeys_from_spec() -> bool {
        true
    }

    open spec fn from_spec(value: String) -> Self {
        NumericInput { value, cursor: encode_utf8(value@).len() as usize }
    }
}

impl NumericInput {
    /// The length of the text in bytes.
    pub open spec fn byte_len(&self) -> nat {
        encode_utf8(self.value@).len()
    }

    /// The text is plain ASCII and the cursor lies within it. A field that
    /// starts from the rendering of a number and is changed only through the
    /// methods below stays so, and byte positions are then character
    /// positions (see [`lemma_ascii_positions`]).
    pub open spec fn wf(&self) -> bool {
        self@.wf()
    }

    /// Types `ch` at the cursor and moves the cursor behind it. A character
    /// that the field does not accept changes nothing.
    pub fn insert(&mut self, ch: char)
        requires
            old(self)@.accepts(ch) ==> on_char_boundary(old(self).value@, old(self).cursor as int),
        ensures
            old(self)@.accepts(ch) ==> {
                &&& final(self).value@ == text_with(old(self).value@, old(self).cursor as int, ch)
                &&& final(self).cursor == old(self).cursor + 1
            },
            !old(self)@.accepts(ch) ==> *final(self) == *old(self),
            old(self).wf() ==> final(self).wf() && final(self)@ == old(self)@.insert(ch),
    {
        let digit = '0' <= ch && ch <= '9';
        if digit || (ch == '.' && !string_contains(&self.value, '.')) || (ch == '-' && self.cursor
            == 0 && !string_contains(&self.value, '-')) {
            proof {
                lemma_boundary_in_range(self.value@, self.cursor as int);
                if self.wf() {
                    lemma_ascii_positions(self.value@, self.cursor as int);
                }
            }
            string_insert(&mut self.value, self.cursor, ch);
            proof {
                lemma_insert_len(old(self).value@, old(self).cursor as int, ch);
            }
            self.cursor += 1;
            proof {
                if old(self).wf() {
                    assert(self.value@ =~= old(self).value@.insert(old(self).cursor as int, ch));
                }
            }
        }
    }

    /// Removes the character before the cursor and moves the cursor onto its
    /// place. With the cursor at the start nothing changes.
    pub fn backspace(&mut self)
        requires
            old(self).cursor > 0 ==> {
                &&& old(self).cursor - 1 < old(self).byte_len()
                &&& on_char_boundary(old(self).value@, old(self).cursor - 1)
            },
        ensures
            old(self).cursor > 0 ==> {
                &&& final(self).value@ == text_without(old(self).value@, old(self).cursor - 1)
                &&& final(self).cursor == old(self).cursor - 1
            },
            old(self).cursor == 0 ==> *final(self) == *old(self),
            old(self).wf() ==> final(self).wf() && final(self)@ == old(self)@.backspace(),
    {
        if self.cursor > 0 {
            self.cursor -= 1;
            proof {
                if old(self).wf() {
                    lemma_ascii_positions(self.value@, self.cursor as int);
                }
            }
            let _ = string_remove(&mut self.value, self.cursor);
            proof {
                if old(self).wf() {
                    assert(self.value@ =~= old(self).value@.remove(old(self).cursor - 1));
                }
            }
        }
    }

    /// Removes the character under the cursor. With the cursor at the end
    /// nothing changes.
    pub fn delete(&mut self)
        requires
            old(self).cursor < old(self).byte_len() ==> on_char_boundary(
                old(self).value@,
                old(self).cursor as int,
            ),
        ensures
            old(self).cursor < old(self).byte_len() ==> {
                &&& final(self).value@ == text_without(old(self).value@, old(self).cursor as int)
                &&& final(self).cursor == old(self).cursor
            },
            old(self).cursor >= old(self).byte_len() ==> *final(self) == *old(self),
            old(self).wf() ==> final(self).wf() && final(self)@ == old(self)@.delete(),
    {
        proof {
            if self.wf() {
                lemma_ascii_positions(self.value@, self.cursor as int);
            }
        }
        if self.cursor < string_len(&self.value) {
            let _ = string_remove(&mut self.value, self.cursor);
            proof {
                if old(self).wf() {
                    assert(self.value@ =~= old(self).value@.remove(old(self).cursor as int));
                }
            }
        }
    }

    /// Moves the cursor one byte to the left, unless it is at the start.
    pub fn move_left(&mut self)
        ensures
            final(self)@ == old(self)@.left(),
            final(self).value == old(self).value,
            old(self).wf() ==> final(self).wf(),
    {
        if self.cursor > 0 {
            self.cursor -= 1;
        }
    }

    /// Moves the cursor one byte to the right, unless it is at the end.
    pub fn move_right(&mut self)
        ensures
            final(self).value == old(self).value,
            final(self).cursor == if old(self).cursor < old(self).byte_len() {
                old(self).cursor + 1
            } else {
                old(self).cursor as int
            },
            old(self).wf() ==> final(self).wf() && final(self)@ == old(self)@.right(),
    {
        proof {
            if self.wf() {
                lemma_ascii_positions(self.value@, self.cursor as int);
            }
        }
        if self.cursor < string_len(&self.value) {
            self.cursor += 1;
        }
    }

    /// Applies a key press to an ASCII field: a character is typed,
    /// `Backspace` and `Delete` remove one, `Left` and `Right` move the
    /// cursor, and any other key does nothing.
    pub fn apply_key(&mut self, key: Key)
        requires
            old(self).wf(),
        ensures
            final(self).wf(),
            final(self)@ == old(self)@.typed(key),
    {
        proof {
            lemma_ascii_positions(self.value@, self.cursor as int);
            if self.cursor > 0 {
                lemma_ascii_positions(self.value@, self.cursor - 1);
            }
        }
        match key {
            Key::Char(ch) => self.insert(ch),
            Key::Backspace => self.backspace(),
            Key::Delete => self.delete(),
            Key::Left => self.move_left(),
            Key::Right => self.move_right(),
            _ => {},
        }
    }
}

/// A character boundary lies within the text.
pub proof fn lemma_boundary_in_range(text: Seq<char>, at: int)
    requires
        on_char_boundary(text, at),
    ensures
        0 <= at <= encode_utf8(text).len(),
{
    broadcast use encode_utf8_valid_utf8;

    lemma_char_boundary_in_range(encode_utf8(text), at);
}

proof fn lemma_char_boundary_in_range(bytes: Seq<u8>, at: int)
    requires
        valid_utf8(bytes),
        is_char_boundary(bytes, at),
    ensures
        0 <= at <= bytes.len(),
{
    reveal_with_fuel(is_char_boundary, 1);
}

/// Encoding a text that is made of two parts gives the two encodings in turn.
proof fn lemma_encode_concat(a: Seq<char>, b: Seq<char>)
    ensures
        encode_utf8(a + b) == encode_utf8(a) + encode_utf8(b),
    decreases a.len(),
{
    if a.len() == 0 {
        assert(a + b =~= b);
        assert(encode_utf8(a) + encode_utf8(b) =~= encode_utf8(b));
    } else {
        assert((a + b).drop_first() =~= a.drop_first() + b);
        lemma_encode_concat(a.drop_first(), b);
        assert(encode_utf8(a + b) =~= encode_utf8(a) + encode_utf8(b));
    }
}

/// The two parts into which a character boundary splits a text encode to the
/// bytes before and after it.
proof fn lemma_split_bytes(text: Seq<char>, at: int)
    requires
        on_char_boundary(text, at),
    ensures
        0 <= at <= encode_utf8(text).len(),
        encode_utf8(text_before(text, at)) == encode_utf8(text).subrange(0, at),
        encode_utf8(text_from(text, at)) == encode_utf8(text).subrange(
            at,
            encode_utf8(text).len() as int,
        ),
{
    broadcast use encode_utf8_valid_utf8;

    let bytes = encode_utf8(text);
    lemma_char_boundary_in_range(bytes, at);
    valid_utf8_split(bytes, at);
    decode_utf8_encode_utf8(bytes.subrange(0, at));
    decode_utf8_encode_utf8(bytes.subrange(at, bytes.len() as int));
}

/// Putting a character in makes the text longer, in bytes, by at least one.
proof fn lemma_insert_len(text: Seq<char>, at: int, ch: char)
    requires
        on_char_boundary(text, at),
    ensures
        encode_utf8(text_with(text, at, ch)).len() > encode_utf8(text).len(),
{
    let before = text_before(text, at);
    let from = text_from(text, at);
    lemma_split_bytes(text, at);
    lemma_encode_concat(before + seq![ch], from);
    lemma_encode_concat(before, seq![ch]);
    assert(encode_utf8(seq![ch]).len() >= 1) by {
        assert(seq![ch].drop_first() =~= Seq::<char>::empty());
        assert(encode_utf8(seq![ch]) =~= encode_scalar(ch as u32) + encode_utf8(
            Seq::<char>::empty(),
        ));
    }
}

/// In ASCII text every byte position up to the end is a character boundary
/// and counts characters: the text before it and from it on are the two
/// parts of the text split there.
pub proof fn lemma_ascii_positions(text: Seq<char>, at: int)
    requires
        is_ascii_chars(text),
        0 <= at <= text.len(),
    ensures
        encode_utf8(text).len() == text.len(),
        on_char_boundary(text, at),
        text_before(text, at) == text.subrange(0, at),
        text_from(text, at) == text.subrange(at, text.len() as int),
{
    broadcast use encode_utf8_valid_utf8;

    let bytes = encode_utf8(text);
    let head = text.subrange(0, at);
    let tail = text.subrange(at, text.len() as int);
    is_ascii_chars_encode_utf8(text);
    is_ascii_chars_encode_utf8(head);
    is_ascii_chars_encode_utf8(tail);
    assert(encode_utf8(head) =~= bytes.subrange(0, at));
    assert(encode_utf8(tail) =~= bytes.subrange(at, bytes.len() as int));
    encode_utf8_decode_utf8(head);
    encode_utf8_decode_utf8(tail);
    if at == bytes.len() {
        is_char_boundary_start_end_of_seq(bytes);
    } else {
        is_char_boundary_iff_not_is_continuation_byte(bytes, at);
        assert(bytes[at] == text[at] as u8);
    }
}

} // verus!
