//! A single-line text editor whose cursor counts characters, not bytes.

use crate::strings::{
    byte_offset, chars_of, clamp_index, lemma_insert_at_offset, lemma_offset_is_boundary,
    lemma_offset_step, lemma_split_at_offset, string_of,
};
use vstd::prelude::*;
use vstd::std_specs::iter::IteratorSpec;
use vstd::string::StrSliceExecFns;
use vstd::utf8::*;

verus! {

broadcast use vstd::string::group_string_axioms;

/// Whether keys go to navigation or into the text.
#[derive(Debug, Clone, Copy, PartialEq, Eq, Structural)]
pub enum InputMode {
    Normal,
    Editing,
}

impl Default for InputMode {
    fn default() -> (mode: InputMode)
        ensures
            mode == InputMode::Normal,
    {
        InputMode::Normal
    }
}

/// The editor as mathematics: the text as a sequence of characters and the
/// cursor as a position between them.
pub struct EditState {
    pub text: Seq<char>,
    pub cursor: nat,
}

impl EditState {
    /// The cursor lies within the text or directly behind it.
    pub open spec fn wf(self) -> bool {
        self.cursor <= self.text.len()
    }

    /// The empty text with the cursor in front.
    pub open spec fn empty() -> EditState {
        EditState { text: Seq::empty(), cursor: 0 }
    }

    /// `c` enters at the cursor, which then stands behind it. A cursor past
    /// the end counts as standing at the end.
    pub open spec fn insert(self, c: char) -> EditState {
        let at = clamp_index(self.text, self.cursor);
        EditState { text: self.text.insert(at as int, c), cursor: at + 1 }
    }

    /// The character in front of the cursor leaves and the cursor follows it;
    /// nothing happens at the start of the text.
    pub open spec fn delete_before_cursor(self) -> EditState {
        if self.cursor == 0 {
            self
        } else {
            EditState { text: self.text.remove(self.cursor - 1), cursor: (self.cursor - 1) as nat }
        }
    }

    /// One character to the left, stopping at the start.
    pub open spec fn move_left(self) -> EditState {
        EditState { cursor: if self.cursor == 0 { 0 } else { (self.cursor - 1) as nat }, ..self }
    }

    /// One character to the right, stopping behind the last character.
    pub open spec fn move_right(self) -> EditState {
        EditState {
            cursor: if self.cursor < self.text.len() { self.cursor + 1 } else { self.text.len() },
            ..self
        }
    }
}

/// The heading of the box in which the token is typed.
pub const TITLE: &'static str = "Paste your token";

/// What is drawn for an editor: the box's heading, the text with the cursor's
/// place in it, and whether the box is drawn in the colour of an editor that
/// takes keys.
#[derive(Debug)]
pub struct Prompt {
    pub title: &'static str,
    pub text: String,
    pub cursor: usize,
    pub highlighted: bool,
}

/// The editor: a UTF-8 buffer, a cursor measured in characters, and the mode
/// it is shown in.
#[derive(Debug)]
pub struct Input {
    pub input: String,
    pub character_index: usize,
    pub input_mode: InputMode,
}

impl View for Input {
    type V = EditState;

    open spec fn view(&self) -> EditState {
        EditState { text: self.input@, cursor: self.character_index as nat }
    }
}

impl Input {
    /// The cursor lies within the text or directly behind it.
    pub open spec fn wf(&self) -> bool {
        self@.wf()
    }

    /// An empty editor, ready for typing.
    pub fn new() -> (editor: Input)
        ensures
            editor@ == EditState::empty(),
            editor.input_mode == InputMode::Editing,
            editor.wf(),
    {
        Self { input: String::new(), character_index: 0, input_mode: InputMode::Editing }
    }

    /// The byte position in the buffer at which the character under the
    /// cursor starts; the buffer's length in bytes when the cursor stands at
    /// or past the end.
    pub fn byte_index(&self) -> (index: usize)
        ensures
            index == byte_offset(self.input@, self.character_index as nat),
            is_char_boundary(encode_utf8(self.input@), index as int),
    {
        let text = self.input.as_str();
        let limit: usize = text.as_bytes().len();
        let mut it = text.chars();
        let mut index: usize = 0;
        let mut seen: usize = 0;
        while seen < self.character_index
            invariant
                text@ == self.input@,
                limit == encode_utf8(text@).len(),
                seen <= self.character_index,
                seen <= text@.len(),
                it.remaining() == text@.skip(seen as int),
                index == byte_offset(text@, seen as nat),
                it.decrease() is Some,
            ensures
                index == byte_offset(text@, self.character_index as nat),
            decreases it.decrease()->0,
        {
            match it.next() {
                Some(c) => {
                    proof {
                        lemma_offset_step(text@, seen as nat);
                        lemma_split_at_offset(text@, (seen + 1) as nat);
                    }
                    index += c.len_utf8();
                    seen += 1;
                },
                None => {
                    break;
                },
            }
        }
        proof {
            lemma_offset_is_boundary(self.input@, self.character_index as nat);
        }
        index
    }

    /// Whether the cursor lies within the text or directly behind it.
    pub fn is_well_formed(&self) -> (ok: bool)
        ensures
            ok == self.wf(),
    {
        self.character_index <= self.input.as_str().unicode_len()
    }

    /// What to draw for the editor as it stands. The box is highlighted while
    /// the editor takes keys.
    pub fn prompt(&self) -> (prompt: Prompt)
        ensures
            prompt.title@ == TITLE@,
            prompt.text@ == self@.text,
            prompt.cursor == self.character_index,
            prompt.highlighted == (self.input_mode is Editing),
    {
        Prompt {
            title: TITLE,
            text: self.input.clone(),
            cursor: self.character_index,
            highlighted: match self.input_mode {
                InputMode::Normal => false,
                InputMode::Editing => true,
            },
        }
    }

    /// A copy of the text as it stands.
    pub fn current_text(&self) -> (text: String)
        ensures
            text@ == self@.text,
    {
        self.input.clone()
    }

    /// Types `new_char` at the cursor.
    pub fn enter_char(&mut self, new_char: char)
        ensures
            final(self)@ == old(self)@.insert(new_char),
            final(self).input_mode == old(self).input_mode,
            final(self).wf(),
    {
        let index = self.byte_index();
        let ghost before = self.input@;
        let ghost at = clamp_index(before, self.character_index as nat);
        self.input.insert(index, new_char);
        proof {
            lemma_insert_at_offset(before, self.input@, at, new_char);
        }
        self.move_cursor_right();
    }

    /// Deletes the character in front of the cursor, the whole character
    /// however many bytes it takes. At the start of the text nothing happens.
    pub fn delete_char(&mut self)
        requires
            old(self).wf(),
        ensures
            final(self)@ == old(self)@.delete_before_cursor(),
            final(self).input_mode == old(self).input_mode,
            final(self).wf(),
            old(self).character_index > 0 ==> final(self).input@.len() + 1 == old(self).input@.len(),
    {
        if self.character_index != 0 {
            let mut chars = chars_of(self.input.as_str());
            chars.remove(self.character_index - 1);
            self.input = string_of(&chars);
            self.move_cursor_left();
        }
    }

    /// Moves the cursor one character to the left; it stays at the start.
    pub fn move_cursor_left(&mut self)
        ensures
            final(self)@ == old(self)@.move_left(),
            final(self).input_mode == old(self).input_mode,
            old(self).wf() ==> final(self).wf(),
    {
        self.character_index = self.character_index.saturating_sub(1);
    }

    /// Moves the cursor one character to the right; it stays behind the last
    /// character, and a cursor that stood further out comes back to there.
    pub fn move_cursor_right(&mut self)
        ensures
            final(self)@ == old(self)@.move_right(),
            final(self).input_mode == old(self).input_mode,
            final(self).wf(),
    {
        let count = self.input.as_str().unicode_len();
        self.character_index = if self.character_index < count {
            self.character_index + 1
        } else {
            count
        };
    }

    /// Empties the text and puts the cursor in front.
    pub fn clear(&mut self)
        ensures
            final(self)@ == EditState::empty(),
            final(self).input_mode == old(self).input_mode,
            final(self).wf(),
    {
        self.input = String::new();
        self.character_index = 0;
    }
}

/// One step of editing.
pub enum EditOp {
    Insert(char),
    DeleteBeforeCursor,
    MoveLeft,
    MoveRight,
}

impl EditState {
    /// The state after `op`.
    pub open spec fn apply(self, op: EditOp) -> EditState {
        match op {
            EditOp::Insert(c) => self.insert(c),
            EditOp::DeleteBeforeCursor => self.delete_before_cursor(),
            EditOp::MoveLeft => self.move_left(),
            EditOp::MoveRight => self.move_right(),
        }
    }

    /// The state after all of `ops`, first to last.
    pub open spec fn apply_all(self, ops: Seq<EditOp>) -> EditState
        decreases ops.len(),
    {
        if ops.len() == 0 {
            self
        } else {
            self.apply_all(ops.drop_last()).apply(ops.last())
        }
    }
}

/// Typing a character and deleting it again changes nothing: the text and
/// the cursor are what they were before.
pub proof fn lemma_insert_then_delete_restores(s: EditState, c: char)
    requires
        s.wf(),
    ensures
        s.insert(c).delete_before_cursor() == s,
{
    let typed = s.insert(c);
    assert(typed.delete_before_cursor().text =~= s.text);
}

/// Deleting in front of a cursor that is not at the start takes away exactly
/// the one character that stood there: the text is one character shorter,
/// and every other character is kept, in order.
pub proof fn lemma_delete_removes_one_character(s: EditState)
    requires
        s.wf(),
        s.cursor > 0,
    ensures
        s.delete_before_cursor().text.len() + 1 == s.text.len(),
        s.delete_before_cursor().cursor + 1 == s.cursor,
        forall|i: int| 0 <= i < s.cursor - 1 ==> s.delete_before_cursor().text[i] == s.text[i],
        forall|i: int|
            s.cursor - 1 <= i < s.text.len() - 1 ==> s.delete_before_cursor().text[i] == s.text[i
                + 1],
{
}

/// A single step keeps the cursor within the text.
pub proof fn lemma_step_keeps_cursor_in_bounds(s: EditState, op: EditOp)
    requires
        s.wf(),
    ensures
        s.apply(op).wf(),
{
}

/// However the four operations follow one another, the cursor is within the
/// text after each of them.
pub proof fn lemma_cursor_stays_in_bounds(s: EditState, ops: Seq<EditOp>)
    requires
        s.wf(),
    ensures
        forall|n: int| 0 <= n <= ops.len() ==> (#[trigger] s.apply_all(ops.take(n))).wf(),
    decreases ops.len(),
{
    assert forall|n: int| 0 <= n <= ops.len() implies (#[trigger] s.apply_all(ops.take(n))).wf() by {
        let prefix = ops.take(n);
        if n > 0 {
            lemma_cursor_stays_in_bounds(s, prefix.drop_last());
            assert(prefix.drop_last().take(n - 1) =~= prefix.drop_last());
            lemma_step_keeps_cursor_in_bounds(s.apply_all(prefix.drop_last()), prefix.last());
        }
    }
}

} // verus!
