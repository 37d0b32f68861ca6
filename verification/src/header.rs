//! The pane that shows the header of the token.

use crate::editor::{
    changes, initial_lines, pane_after, snapshot_lines, EditBuffer, PaneState, Snapshot,
};
use tui_textarea::Input;
use vstd::prelude::*;

verus! {

/// The pane that shows the header of the token. Keys typed into it edit
/// what it shows and nothing else.
pub struct Header {
    text_area: EditBuffer,
    focused: bool,
}

impl View for Header {
    type V = PaneState;

    closed spec fn view(&self) -> PaneState {
        PaneState { buffer: self.text_area@, focused: self.focused }
    }
}

impl Header {
    /// A pane that shows `text`, one line per element, drawn with emphasis.
    pub fn new(text: Vec<String>) -> (pane: Header)
        ensures
            pane@.buffer.lines == initial_lines(text.deep_view()),
            pane@.focused,
    {
        Header { text_area: EditBuffer::new(text), focused: true }
    }

    /// Hands a key to the pane's buffer. Returns whether the text changed.
    pub fn input(&mut self, input: Input) -> (changed: bool)
        ensures
            final(self)@ == pane_after(old(self)@, input),
            changed == changes(old(self)@.buffer, input),
    {
        self.text_area.input(input)
    }

    /// Sets whether the pane is drawn with emphasis. The text stays.
    pub fn set_focused(&mut self, focused: bool)
        ensures
            final(self)@ == (PaneState { focused, ..old(self)@ }),
    {
        self.focused = focused;
    }

    /// Whether the pane is drawn with emphasis.
    pub fn is_focused(&self) -> (focused: bool)
        ensures
            focused == self@.focused,
    {
        self.focused
    }

    /// The lines that the pane shows.
    pub fn lines(&self) -> (lines: Vec<String>)
        ensures
            lines.deep_view() == self@.buffer.lines,
    {
        self.text_area.lines()
    }

    /// What the pane is drawn from: a copy of its editor, which the caller
    /// dresses with title, border and colours.
    pub fn widget(&self) -> (snapshot: Snapshot)
        ensures
            snapshot_lines(snapshot) == self@.buffer.lines,
    {
        self.text_area.snapshot()
    }

    /// The title on the pane's border.
    pub fn title() -> (title: &'static str)
        ensures
            title@ == " Header (^h) "@,
    {
        " Header (^h) "
    }

    /// The colour of the pane's border and line numbers: red, green, blue.
    pub fn accent() -> (rgb: (u8, u8, u8))
        ensures
            rgb == (251u8, 1u8, 91u8),
    {
        (251, 1, 91)
    }
}

} // verus!
