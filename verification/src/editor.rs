//! The editing buffer behind each pane. What a key does to the text is the
//! buffer's own business; the panes hand it keys and read its lines. One
//! thing is said of it here: typing behind the end of the text appends.

use crate::text::join;
use tui_textarea::{Input, Key, TextArea};
use vstd::prelude::*;

verus! {

/// The keys of `tui_textarea`, read as they are declared there.
#[verifier::external_type_specification]
pub struct ExKey(tui_textarea::Key);

/// A key press of `tui_textarea`, read as it is declared there: the key and
/// whether Ctrl, Alt and Shift were held down.
#[verifier::external_type_specification]
pub struct ExInput(tui_textarea::Input);

/// A `tui_textarea::TextArea`: lines of text with a cursor, edited by keys.
#[verifier::external_body]
pub struct EditBuffer {
    area: TextArea<'static>,
}

/// A copy of the editor behind a pane, to be dressed and drawn. What is done
/// to the copy does not reach the pane.
#[verifier::external_body]
pub struct Snapshot {
    /// The copy.
    pub area: TextArea<'static>,
}

/// The lines of text that the copy holds, first line first.
pub uninterp spec fn snapshot_lines(snapshot: Snapshot) -> Seq<Seq<char>>;

/// The lines of text that `buffer` holds, first line first.
pub uninterp spec fn buffer_lines(buffer: EditBuffer) -> Seq<Seq<char>>;

/// Whether the cursor of `buffer` stands behind the last character of its
/// last line while no text is selected.
pub uninterp spec fn cursor_at_end(buffer: EditBuffer) -> bool;

/// What handing `input` to `buffer` gives: the buffer as the key leaves it,
/// and whether the key changed the text.
pub uninterp spec fn typed_into(buffer: EditBuffer, input: Input) -> (EditBuffer, bool);

/// What an editing buffer is, as far as the panes depend on it.
pub struct BufferState {
    /// The buffer itself, with its cursor, its selection and its history.
    pub buffer: EditBuffer,
    /// The lines of text it holds, first line first.
    pub lines: Seq<Seq<char>>,
    /// Whether what is typed is appended: the cursor stands behind the last
    /// character of the last line and no text is selected.
    pub appending: bool,
}

impl View for EditBuffer {
    type V = BufferState;

    open spec fn view(&self) -> BufferState {
        BufferState {
            buffer: *self,
            lines: buffer_lines(*self),
            appending: cursor_at_end(*self),
        }
    }
}

/// Whether `input` is the character `c` typed with Ctrl held down.
pub open spec fn is_ctrl_char(input: Input, c: char) -> bool {
    input.ctrl && input.key == Key::Char(c)
}

/// The character that `input` types, if it types one: a character key with
/// neither Ctrl nor Alt held down.
pub open spec fn typed_char(input: Input) -> Option<char> {
    match input.key {
        Key::Char(c) => if !input.ctrl && !input.alt {
            Some(c)
        } else {
            None
        },
        _ => None,
    }
}

/// The key that types `c`.
pub open spec fn key_for(c: char) -> Input {
    Input { key: Key::Char(c), ctrl: false, alt: false, shift: false }
}

/// The lines of a buffer made from `lines`: a buffer is never without a
/// line, so from no lines comes one empty line.
pub open spec fn initial_lines(lines: Seq<Seq<char>>) -> Seq<Seq<char>> {
    if lines.len() == 0 {
        seq![Seq::<char>::empty()]
    } else {
        lines
    }
}

/// `lines` after `c` was typed behind their end: a line feed or a carriage
/// return opens a new line, any other character joins the last line.
pub open spec fn appended(lines: Seq<Seq<char>>, c: char) -> Seq<Seq<char>> {
    if c == '\n' || c == '\r' {
        lines.push(Seq::<char>::empty())
    } else {
        lines.drop_last().push(lines.last().push(c))
    }
}

/// The buffer after `input`. A character typed while the buffer is
/// appending is appended, and the buffer goes on appending. What any other
/// key does is left to the buffer.
pub open spec fn typed(state: BufferState, input: Input) -> BufferState {
    let buffer = typed_into(state.buffer, input).0;
    match typed_char(input) {
        Some(c) if state.appending => BufferState {
            buffer,
            lines: appended(state.lines, c),
            appending: true,
        },
        _ => buffer@,
    }
}

/// Whether `input` changes the text of the buffer. A character typed while
/// the buffer is appending does.
pub open spec fn changes(state: BufferState, input: Input) -> bool {
    typed_char(input) is Some && state.appending || typed_into(state.buffer, input).1
}

/// Whether `input` is the character `c` typed with Ctrl held down.
pub fn ctrl_char(input: &Input, c: char) -> (b: bool)
    ensures
        b == is_ctrl_char(*input, c),
{
    match input.key {
        Key::Char(pressed) => input.ctrl && pressed == c,
        _ => false,
    }
}

impl EditBuffer {
    /// `TextArea::new` makes a buffer that holds the given lines, or one
    /// empty line where it is given none, with the cursor before the first
    /// character and nothing selected: in an empty buffer that is the end.
    #[verifier::external_body]
    pub(crate) fn new(lines: Vec<String>) -> (buffer: EditBuffer)
        ensures
            buffer_lines(buffer) == initial_lines(lines.deep_view()),
            buffer_lines(buffer) == seq![Seq::<char>::empty()] ==> cursor_at_end(buffer),
    {
        EditBuffer { area: TextArea::new(lines) }
    }

    /// `TextArea::input` handles one key with the default key bindings and
    /// returns whether the text changed. Stated of it: a character key with
    /// neither Ctrl nor Alt, pressed while the cursor stands behind the end
    /// of the text and nothing is selected, puts its character there (a new
    /// line for a line feed or a carriage return), leaves the cursor behind
    /// the end and counts as a change. Not proved: that the buffer it leaves
    /// and what it returns depend on the buffer and the key alone, which
    /// `typed_into` names.
    #[verifier::external_body]
    pub(crate) fn input(&mut self, input: Input) -> (changed: bool)
        ensures
            (*final(self), changed) == typed_into(*old(self), input),
            cursor_at_end(*old(self)) && typed_char(input) is Some ==> {
                &&& buffer_lines(*final(self)) == appended(
                    buffer_lines(*old(self)),
                    typed_char(input)->0,
                )
                &&& cursor_at_end(*final(self))
                &&& changed
            },
    {
        self.area.input(input)
    }

    /// `TextArea::clone`: the copy holds the lines that the buffer holds.
    #[verifier::external_body]
    pub(crate) fn snapshot(&self) -> (snapshot: Snapshot)
        ensures
            snapshot_lines(snapshot) == buffer_lines(*self),
    {
        Snapshot { area: self.area.clone() }
    }

    /// `TextArea::lines`, copied out.
    #[verifier::external_body]
    pub(crate) fn lines(&self) -> (lines: Vec<String>)
        ensures
            lines.deep_view() == buffer_lines(*self),
    {
        self.area.lines().to_vec()
    }
}

/// What a pane that shows text is, as far as its behaviour depends on it.
pub struct PaneState {
    /// The text of the pane and where it is being edited.
    pub buffer: BufferState,
    /// Whether the pane is drawn with emphasis.
    pub focused: bool,
}

/// A pane that shows text, after `input` was handed to its buffer.
pub open spec fn pane_after(pane: PaneState, input: Input) -> PaneState {
    PaneState { buffer: typed(pane.buffer, input), ..pane }
}

/// The buffer after a run of keys, first key first.
pub open spec fn typed_all(state: BufferState, inputs: Seq<Input>) -> BufferState
    decreases inputs.len(),
{
    if inputs.len() == 0 {
        state
    } else {
        typed(typed_all(state, inputs.drop_last()), inputs.last())
    }
}

/// The keys that type `text`, one key a character, no modifier held.
pub open spec fn keys_for(text: Seq<char>) -> Seq<Input> {
    Seq::new(text.len(), |i: int| key_for(text[i]))
}

/// Typing a character behind the end of the text appends it to the text; a
/// carriage return is appended as a line feed.
pub proof fn lemma_typing_appends_a_character(state: BufferState, c: char)
    requires
        state.appending,
        state.lines.len() > 0,
    ensures
        typed(state, key_for(c)).appending,
        typed(state, key_for(c)).lines.len() > 0,
        join(typed(state, key_for(c)).lines, '\n') == join(state.lines, '\n').push(
            if c == '\r' {
                '\n'
            } else {
                c
            },
        ),
        changes(state, key_for(c)),
{
    let lines = state.lines;
    let after = appended(lines, c);
    if c == '\n' || c == '\r' {
        assert(after.drop_last() == lines);
        assert(join(lines, '\n') + seq!['\n'] + after.last() == join(lines, '\n').push('\n'));
    } else {
        assert(after.drop_last() == lines.drop_last());
        if lines.len() > 1 {
            let front = join(lines.drop_last(), '\n') + seq!['\n'];
            assert(front + lines.last().push(c) == (front + lines.last()).push(c));
        }
    }
}

/// Typing a text behind the end of what a buffer holds appends the text,
/// provided that it holds no carriage return.
pub proof fn lemma_typing_appends(state: BufferState, text: Seq<char>)
    requires
        state.appending,
        state.lines.len() > 0,
        !text.contains('\r'),
    ensures
        typed_all(state, keys_for(text)).appending,
        typed_all(state, keys_for(text)).lines.len() > 0,
        join(typed_all(state, keys_for(text)).lines, '\n') == join(state.lines, '\n') + text,
    decreases text.len(),
{
    let keys = keys_for(text);
    if text.len() > 0 {
        let shorter = text.drop_last();
        assert(keys.drop_last() == keys_for(shorter));
        assert(!shorter.contains('\r')) by {
            if shorter.contains('\r') {
                let i = choose|i: int| 0 <= i < shorter.len() && shorter[i] == '\r';
                assert(text[i] == '\r');
            }
        }
        assert(text.last() != '\r');
        lemma_typing_appends(state, shorter);
        lemma_typing_appends_a_character(typed_all(state, keys_for(shorter)), text.last());
        assert((join(state.lines, '\n') + shorter).push(text.last()) == join(state.lines, '\n')
            + text);
    }
}

} // verus!
