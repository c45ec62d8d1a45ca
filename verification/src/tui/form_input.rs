//! Form input: a single-line text field whose cursor is a byte index into
//! its value, always on a character boundary.
use crate::text::{
    byte_offset, char_is_whitespace, char_utf8_len, chars_of, is_ws, lemma_byte_offset_full,
    lemma_byte_offset_step, lemma_byte_offset_strict, lemma_utf8_size_concat, string_of,
    utf8_len, utf8_size,
};
use crate::tui::types::{KeyCode, KeyEvent};
use vstd::prelude::*;

verus! {

/// Input mode for text fields.
#[derive(Debug, Clone, Copy, PartialEq, Eq, Structural)]
pub enum InputMode {
    Normal,
    Editing,
}

/// A text input field with cursor support.
#[derive(Debug, Clone)]
pub struct InputField {
    /// Current input value.
    pub value: String,
    /// Cursor position (byte index).
    pub cursor: usize,
    /// Placeholder/label text.
    pub placeholder: String,
    /// Current input mode.
    pub mode: InputMode,
}

// ---------------------------------------------------------------------------
// Byte positions and character positions
// ---------------------------------------------------------------------------

/// `b` is the byte offset of a character boundary of `s`.
pub open spec fn at_boundary(s: Seq<char>, b: int) -> bool {
    exists|k: int| 0 <= k <= s.len() && byte_offset(s, k) == b
}

/// The character index whose byte offset is `b`.
pub open spec fn boundary_index(s: Seq<char>, b: int) -> int {
    choose|k: int| 0 <= k <= s.len() && byte_offset(s, k) == b
}

pub proof fn lemma_boundary_index(s: Seq<char>, b: int)
    requires
        at_boundary(s, b),
    ensures
        0 <= boundary_index(s, b) <= s.len(),
        byte_offset(s, boundary_index(s, b)) == b,
        forall|k: int| 0 <= k <= s.len() && byte_offset(s, k) == b ==> k == boundary_index(s, b),
{
    let i = boundary_index(s, b);
    assert forall|k: int| 0 <= k <= s.len() && byte_offset(s, k) == b implies k == i by {
        if k < i {
            lemma_byte_offset_strict(s, k, i);
        } else if k > i {
            lemma_byte_offset_strict(s, i, k);
        }
    }
}

/// Every character index gives a boundary, and it is found again from its offset.
pub proof fn lemma_offset_boundary(s: Seq<char>, k: int)
    requires
        0 <= k <= s.len(),
    ensures
        at_boundary(s, byte_offset(s, k) as int),
        boundary_index(s, byte_offset(s, k) as int) == k,
{
    assert(0 <= k <= s.len() && byte_offset(s, k) == byte_offset(s, k));
    lemma_boundary_index(s, byte_offset(s, k) as int);
}

/// The encoding of `s` is that of its first `i` characters followed by the rest.
pub proof fn lemma_utf8_size_split(s: Seq<char>, i: int)
    requires
        0 <= i <= s.len(),
    ensures
        utf8_size(s) == byte_offset(s, i) + utf8_size(s.skip(i)),
{
    assert(s =~= s.take(i) + s.skip(i));
    lemma_utf8_size_concat(s.take(i), s.skip(i));
}

pub proof fn lemma_offset_mono(s: Seq<char>, i: int, j: int)
    requires
        0 <= i <= j <= s.len(),
    ensures
        byte_offset(s, i) <= byte_offset(s, j),
        byte_offset(s, j) <= utf8_size(s),
{
    if i < j {
        lemma_byte_offset_strict(s, i, j);
    }
    lemma_utf8_size_split(s, j);
}

// ---------------------------------------------------------------------------
// Word movement
// ---------------------------------------------------------------------------

/// Moves back from `i` over whitespace.
pub open spec fn skip_ws_back(s: Seq<char>, i: int) -> int
    decreases i,
{
    if i > 0 && is_ws(s[i - 1]) {
        skip_ws_back(s, i - 1)
    } else {
        i
    }
}

/// Moves back from `i` over non-whitespace.
pub open spec fn skip_word_back(s: Seq<char>, i: int) -> int
    decreases i,
{
    if i > 0 && !is_ws(s[i - 1]) {
        skip_word_back(s, i - 1)
    } else {
        i
    }
}

/// Start of the word before character index `k` (Ctrl+Left).
pub open spec fn word_start_before(s: Seq<char>, k: int) -> int {
    skip_word_back(s, skip_ws_back(s, k))
}

/// Moves forward from `i` over non-whitespace.
pub open spec fn skip_word_fwd(s: Seq<char>, i: int) -> int
    decreases s.len() - i,
{
    if 0 <= i < s.len() && !is_ws(s[i]) {
        skip_word_fwd(s, i + 1)
    } else {
        i
    }
}

/// Moves forward from `i` over whitespace.
pub open spec fn skip_ws_fwd(s: Seq<char>, i: int) -> int
    decreases s.len() - i,
{
    if 0 <= i < s.len() && is_ws(s[i]) {
        skip_ws_fwd(s, i + 1)
    } else {
        i
    }
}

/// Start of the next word after character index `k` (Ctrl+Right).
pub open spec fn next_word_start(s: Seq<char>, k: int) -> int {
    skip_ws_fwd(s, skip_word_fwd(s, k))
}

/// Text and character position after Ctrl+W: the word before the cursor is deleted.
pub open spec fn delete_word_before(s: Seq<char>, k: int) -> (Seq<char>, int) {
    let j = word_start_before(s, k);
    (s.take(j) + s.skip(k), j)
}

/// What a key does to the text and the character position of the cursor;
/// `None` when the field does not consume the key.
pub open spec fn key_effect(s: Seq<char>, k: int, key: KeyEvent) -> Option<(Seq<char>, int)> {
    match key.code {
        KeyCode::Char(c) => if key.control && c == 'a' {
            Some((s, 0))
        } else if key.control && c == 'e' {
            Some((s, s.len() as int))
        } else if key.control && c == 'u' {
            Some((Seq::<char>::empty(), 0))
        } else if key.control && c == 'k' {
            Some((s.take(k), k))
        } else if key.control && c == 'w' {
            Some(delete_word_before(s, k))
        } else {
            Some((s.insert(k, c), k + 1))
        },
        KeyCode::Backspace => if k > 0 {
            Some((s.remove(k - 1), k - 1))
        } else {
            Some((s, k))
        },
        KeyCode::Delete => if k < s.len() {
            Some((s.remove(k), k))
        } else {
            Some((s, k))
        },
        KeyCode::Left => if key.control {
            Some((s, word_start_before(s, k)))
        } else if k > 0 {
            Some((s, k - 1))
        } else {
            Some((s, k))
        },
        KeyCode::Right => if key.control {
            Some((s, next_word_start(s, k)))
        } else if k < s.len() {
            Some((s, k + 1))
        } else {
            Some((s, k))
        },
        KeyCode::Home => Some((s, 0)),
        KeyCode::End => Some((s, s.len() as int)),
        _ => None,
    }
}

/// Byte offset of character `k` of `v`.
fn offset_of(v: &Vec<char>, k: usize) -> (r: usize)
    requires
        k <= v.len(),
        utf8_size(v@) <= usize::MAX,
    ensures
        r == byte_offset(v@, k as int),
{
    assert(v@.take(0) =~= Seq::<char>::empty());
    let mut acc: usize = 0;
    let mut i: usize = 0;
    while i < k
        invariant
            i <= k <= v.len(),
            utf8_size(v@) <= usize::MAX,
            acc == byte_offset(v@, i as int),
        decreases k - i,
    {
        proof {
            lemma_byte_offset_step(v@, i as int);
            lemma_offset_mono(v@, i + 1, v.len() as int);
        }
        acc = acc + char_utf8_len(v[i]);
        i += 1;
    }
    acc
}

/// Character index of the boundary at byte offset `b`.
fn index_at(v: &Vec<char>, b: usize) -> (k: usize)
    requires
        at_boundary(v@, b as int),
        utf8_size(v@) <= usize::MAX,
    ensures
        k as int == boundary_index(v@, b as int),
{
    proof {
        lemma_boundary_index(v@, b as int);
    }
    let ghost target = boundary_index(v@, b as int);
    assert(v@.take(0) =~= Seq::<char>::empty());
    let mut acc: usize = 0;
    let mut i: usize = 0;
    while acc < b
        invariant
            0 <= i <= target <= v.len(),
            byte_offset(v@, target) == b,
            utf8_size(v@) <= usize::MAX,
            acc == byte_offset(v@, i as int),
        decreases target - i,
    {
        proof {
            if i == target {
                assert(false);
            }
            lemma_byte_offset_step(v@, i as int);
            lemma_offset_mono(v@, i + 1, target);
        }
        acc = acc + char_utf8_len(v[i]);
        i += 1;
    }
    proof {
        if i < target {
            lemma_byte_offset_strict(v@, i as int, target);
        }
    }
    i
}

fn word_start_index(v: &Vec<char>, k: usize) -> (j: usize)
    requires
        k <= v.len(),
    ensures
        j as int == word_start_before(v@, k as int),
        j <= k,
{
    let mut i = k;
    while i > 0 && char_is_whitespace(v[i - 1])
        invariant
            i <= k <= v.len(),
            skip_ws_back(v@, i as int) == skip_ws_back(v@, k as int),
        decreases i,
    {
        i -= 1;
    }
    let ghost w = i;
    while i > 0 && !char_is_whitespace(v[i - 1])
        invariant
            i <= w <= k <= v.len(),
            w == skip_ws_back(v@, k as int),
            skip_word_back(v@, i as int) == skip_word_back(v@, w as int),
        decreases i,
    {
        i -= 1;
    }
    i
}

fn next_word_index(v: &Vec<char>, k: usize) -> (j: usize)
    requires
        k <= v.len(),
    ensures
        j as int == next_word_start(v@, k as int),
        k <= j <= v.len(),
{
    let mut i = k;
    while i < v.len() && !char_is_whitespace(v[i])
        invariant
            k <= i <= v.len(),
            skip_word_fwd(v@, i as int) == skip_word_fwd(v@, k as int),
        decreases v.len() - i,
    {
        i += 1;
    }
    let ghost w = i;
    while i < v.len() && char_is_whitespace(v[i])
        invariant
            k <= w <= i <= v.len(),
            w == skip_word_fwd(v@, k as int),
            skip_ws_fwd(v@, i as int) == skip_ws_fwd(v@, w as int),
        decreases v.len() - i,
    {
        i += 1;
    }
    i
}

impl InputField {
    /// The characters of the value.
    pub open spec fn text(&self) -> Seq<char> {
        self.value@
    }

    /// The value's length fits in memory and the cursor sits on a character boundary.
    pub open spec fn wf(&self) -> bool {
        &&& utf8_size(self.text()) <= usize::MAX
        &&& at_boundary(self.text(), self.cursor as int)
    }

    /// Character index of the cursor.
    pub open spec fn pos(&self) -> int {
        boundary_index(self.text(), self.cursor as int)
    }

    /// The field holds `s` with its cursor before character `k`; the rest is as in `other`.
    pub open spec fn holds(&self, other: &InputField, s: Seq<char>, k: int) -> bool {
        &&& self.wf()
        &&& self.text() == s
        &&& self.pos() == k
        &&& self.cursor == byte_offset(s, k)
        &&& self.placeholder == other.placeholder
        &&& self.mode == other.mode
    }

    pub fn new(default: String, placeholder: &str) -> (r: Self)
        requires
            utf8_size(default@) <= usize::MAX,
        ensures
            r.wf(),
            r.text() == default@,
            r.cursor == utf8_size(default@),
            r.pos() == default@.len(),
            r.placeholder@ == placeholder@,
            r.mode == InputMode::Normal,
    {
        let v = chars_of(default.as_str());
        let cursor = offset_of(&v, v.len());
        proof {
            lemma_byte_offset_full(default@);
            lemma_offset_boundary(default@, default@.len() as int);
        }
        InputField {
            value: default,
            cursor,
            placeholder: String::from_str(placeholder),
            mode: InputMode::Normal,
        }
    }

    pub fn value(&self) -> (r: &str)
        ensures
            r@ == self.text(),
    {
        self.value.as_str()
    }

    pub fn cursor(&self) -> (r: usize)
        ensures
            r == self.cursor,
    {
        self.cursor
    }

    /// Replaces the value and puts the cursor at its end.
    pub fn set_value(&mut self, value: String)
        requires
            utf8_size(value@) <= usize::MAX,
        ensures
            final(self).holds(old(self), value@, value@.len() as int),
            final(self).cursor == utf8_size(value@),
    {
        let v = chars_of(value.as_str());
        let n = v.len();
        self.commit(v, n);
        proof {
            lemma_byte_offset_full(value@);
        }
    }

    /// Stores `v` as the value with the cursor before character `k`.
    fn commit(&mut self, v: Vec<char>, k: usize)
        requires
            k <= v.len(),
            utf8_size(v@) <= usize::MAX,
        ensures
            final(self).holds(old(self), v@, k as int),
    {
        let cursor = offset_of(&v, k);
        proof {
            lemma_offset_boundary(v@, k as int);
        }
        self.value = string_of(&v);
        self.cursor = cursor;
    }

    fn chars(&self) -> (v: Vec<char>)
        ensures
            v@ == self.text(),
    {
        chars_of(self.value.as_str())
    }

    /// Character index of the cursor, computed.
    fn char_pos(&self, v: &Vec<char>) -> (k: usize)
        requires
            self.wf(),
            v@ == self.text(),
        ensures
            k as int == self.pos(),
            k <= v.len(),
    {
        proof {
            lemma_boundary_index(v@, self.cursor as int);
        }
        index_at(v, self.cursor)
    }

    /// Handle a key event, returns true if the event was consumed.
    pub fn handle_key(&mut self, key: KeyEvent) -> (consumed: bool)
        requires
            old(self).wf(),
            utf8_size(old(self).text()) + 4 <= usize::MAX,
        ensures
            match key_effect(old(self).text(), old(self).pos(), key) {
                Some((s, k)) => consumed && final(self).holds(old(self), s, k),
                None => !consumed && *final(self) == *old(self),
            },
    {
        proof {
            lemma_boundary_index(self.text(), self.cursor as int);
        }
        let ghost s = self.text();
        let ghost k = self.pos();
        match key.code {
            KeyCode::Char(c) => {
                if key.control && c == 'a' {
                    let v = self.chars();
                    self.commit(v, 0);
                    return true;
                }
                if key.control && c == 'e' {
                    let v = self.chars();
                    let n = v.len();
                    self.commit(v, n);
                    return true;
                }
                if key.control && c == 'u' {
                    self.commit(Vec::new(), 0);
                    assert(utf8_size(Seq::<char>::empty()) == 0);
                    return true;
                }
                if key.control && c == 'k' {
                    let mut v = self.chars();
                    let pos = self.char_pos(&v);
                    proof {
                        lemma_offset_mono(s, k, k);
                    }
                    v.truncate(pos);
                    proof {
                        lemma_byte_offset_full(v@);
                    }
                    self.commit(v, pos);
                    return true;
                }
                if key.control && c == 'w' {
                    self.delete_word_backward();
                    return true;
                }
                self.insert_char(c);
                true
            },
            KeyCode::Backspace => {
                self.delete_char_backward();
                true
            },
            KeyCode::Delete => {
                self.delete_char_forward();
                true
            },
            KeyCode::Left => {
                if key.control {
                    self.move_word_backward();
                } else {
                    self.move_cursor_left();
                }
                true
            },
            KeyCode::Right => {
                if key.control {
                    self.move_word_forward();
                } else {
                    self.move_cursor_right();
                }
                true
            },
            KeyCode::Home => {
                let v = self.chars();
                self.commit(v, 0);
                true
            },
            KeyCode::End => {
                let v = self.chars();
                let n = v.len();
                self.commit(v, n);
                true
            },
            _ => false,
        }
    }

    /// Inserts `c` at the cursor and moves the cursor past it.
    pub fn insert_char(&mut self, c: char)
        requires
            old(self).wf(),
            utf8_size(old(self).text()) + 4 <= usize::MAX,
        ensures
            final(self).holds(old(self), old(self).text().insert(old(self).pos(), c), old(self).pos() + 1),
            final(self).cursor == old(self).cursor + utf8_len(c),
    {
        let mut v = self.chars();
        let pos = self.char_pos(&v);
        let ghost s = v@;
        v.insert(pos, c);
        assert(pos < v.len());
        proof {
            let t = v@;
            lemma_boundary_index(s, self.cursor as int);
            assert(t.take(pos + 1) =~= s.take(pos as int).push(c));
            crate::text::lemma_utf8_size_push(s.take(pos as int), c);
            assert(t.skip(pos + 1) =~= s.skip(pos as int));
            lemma_utf8_size_split(t, pos + 1);
            lemma_utf8_size_split(s, pos as int);
        }
        self.commit(v, pos + 1);
    }

    /// Deletes the character before the cursor.
    pub fn delete_char_backward(&mut self)
        requires
            old(self).wf(),
        ensures
            old(self).pos() > 0 ==> final(self).holds(old(self), old(self).text().remove(old(self).pos() - 1), old(self).pos() - 1),
            old(self).pos() == 0 ==> *final(self) == *old(self),
    {
        proof {
            lemma_boundary_index(self.text(), self.cursor as int);
            assert(self.text().take(0) =~= Seq::<char>::empty());
            if self.pos() > 0 {
                lemma_byte_offset_strict(self.text(), 0, self.pos());
            }
        }
        if self.cursor > 0 {
            let mut v = self.chars();
            let pos = self.char_pos(&v);
            let ghost s = v@;
            v.remove(pos - 1);
            proof {
                Self::lemma_remove_size(s, pos - 1);
            }
            self.commit(v, pos - 1);
        }
    }

    /// Deletes the character under the cursor.
    pub fn delete_char_forward(&mut self)
        requires
            old(self).wf(),
        ensures
            old(self).pos() < old(self).text().len() ==> final(self).holds(old(self), old(self).text().remove(old(self).pos()), old(self).pos()),
            old(self).pos() == old(self).text().len() ==> *final(self) == *old(self),
    {
        let mut v = self.chars();
        let pos = self.char_pos(&v);
        let ghost s = v@;
        if pos < v.len() {
            v.remove(pos);
            proof {
                Self::lemma_remove_size(s, pos as int);
                assert(v@.take(pos as int) =~= s.take(pos as int));
            }
            self.commit(v, pos);
        }
    }

    proof fn lemma_remove_size(s: Seq<char>, i: int)
        requires
            0 <= i < s.len(),
        ensures
            utf8_size(s.remove(i)) <= utf8_size(s),
    {
        let t = s.remove(i);
        assert(t.take(i) =~= s.take(i));
        assert(t.skip(i) =~= s.skip(i + 1));
        lemma_utf8_size_split(t, i);
        lemma_utf8_size_split(s, i + 1);
        lemma_offset_mono(s, i, i + 1);
    }

    pub fn move_cursor_left(&mut self)
        requires
            old(self).wf(),
        ensures
            old(self).pos() > 0 ==> final(self).holds(old(self), old(self).text(), old(self).pos() - 1),
            old(self).pos() == 0 ==> *final(self) == *old(self),
    {
        proof {
            lemma_boundary_index(self.text(), self.cursor as int);
            assert(self.text().take(0) =~= Seq::<char>::empty());
            if self.pos() > 0 {
                lemma_byte_offset_strict(self.text(), 0, self.pos());
            }
        }
        if self.cursor > 0 {
            let v = self.chars();
            let pos = self.char_pos(&v);
            self.commit(v, pos - 1);
        }
    }

    pub fn move_cursor_right(&mut self)
        requires
            old(self).wf(),
        ensures
            old(self).pos() < old(self).text().len() ==> final(self).holds(old(self), old(self).text(), old(self).pos() + 1),
            old(self).pos() == old(self).text().len() ==> *final(self) == *old(self),
    {
        let v = self.chars();
        let pos = self.char_pos(&v);
        if pos < v.len() {
            self.commit(v, pos + 1);
        }
    }

    /// Moves the cursor back over whitespace, then over the word before it.
    pub fn move_word_backward(&mut self)
        requires
            old(self).wf(),
        ensures
            final(self).holds(old(self), old(self).text(), word_start_before(old(self).text(), old(self).pos())),
    {
        let v = self.chars();
        let pos = self.char_pos(&v);
        let j = word_start_index(&v, pos);
        self.commit(v, j);
    }

    /// Moves the cursor over the rest of the word, then over the whitespace after it.
    pub fn move_word_forward(&mut self)
        requires
            old(self).wf(),
        ensures
            final(self).holds(old(self), old(self).text(), next_word_start(old(self).text(), old(self).pos())),
    {
        let v = self.chars();
        let pos = self.char_pos(&v);
        let j = next_word_index(&v, pos);
        self.commit(v, j);
    }

    /// Deletes from the start of the word before the cursor up to the cursor.
    pub fn delete_word_backward(&mut self)
        requires
            old(self).wf(),
        ensures
            final(self).holds(
                old(self),
                delete_word_before(old(self).text(), old(self).pos()).0,
                delete_word_before(old(self).text(), old(self).pos()).1,
            ),
    {
        let mut v = self.chars();
        let pos = self.char_pos(&v);
        let ghost s = v@;
        let j = word_start_index(&v, pos);
        let mut tail = v.split_off(pos);
        v.truncate(j);
        v.append(&mut tail);
        proof {
            let t = v@;
            assert(t =~= s.take(j as int) + s.skip(pos as int));
            assert(t.take(j as int) =~= s.take(j as int));
            assert(t.skip(j as int) =~= s.skip(pos as int));
            lemma_utf8_size_split(t, j as int);
            lemma_utf8_size_split(s, pos as int);
            lemma_offset_mono(s, j as int, pos as int);
        }
        self.commit(v, j);
    }
}

} // verus!

verus! {

/// Typing a character and then pressing Backspace gives back the text and
/// the cursor position from before.
pub proof fn law_insert_then_backspace_restores(s: Seq<char>, k: int, c: char)
    requires
        0 <= k <= s.len(),
    ensures
        key_effect(s, k, KeyEvent { code: KeyCode::Char(c), control: false }) == Some((s.insert(k, c), k + 1)),
        key_effect(s.insert(k, c), k + 1, KeyEvent { code: KeyCode::Backspace, control: false }) == Some((s, k)),
{
    assert(s.insert(k, c).remove(k) =~= s);
}

} // verus!
