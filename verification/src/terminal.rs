//! The pure face of the terminal: dimensions captured at startup, and
//! builders that turn logical drawing operations into [`TermCommand`] values.
//! A driver outside the library executes each command against the real
//! terminal; nothing here writes to it.

use vstd::prelude::*;

use crate::editor::Position;

verus! {

/// Terminal dimensions in character cells, read once at startup and treated
/// as immutable for the session.
#[derive(Clone, Copy, PartialEq, Eq, Structural, Debug)]
pub struct Size {
    pub width: u16,
    pub height: u16,
}

/// The terminal cursor's glyph and visibility. Stateless: each render emits
/// the desired value outright.
#[derive(Clone, Copy, PartialEq, Eq, Structural, Debug)]
pub enum CursorState {
    Hidden,
    Visible,
    Block,
    Bar,
}

/// One terminal output operation. A render pass produces a sequence of these;
/// the driver translates each into the matching escape sequence or text line.
#[derive(Clone, PartialEq, Eq, Debug)]
pub enum TermCommand {
    /// Erase the whole screen.
    ClearScreen,
    /// Erase the current line.
    ClearLine,
    /// Select cursor visibility or shape.
    SetCursor(CursorState),
    /// Move the cursor to a one-based column/row pair.
    Goto(u16, u16),
    /// Print the text followed by a carriage return and newline.
    Print(String),
    /// Force buffered output out to the terminal.
    Flush,
}

/// The mathematical shadow of a [`TermCommand`]: text is a sequence of
/// characters, everything else is carried over unchanged.
pub enum CmdView {
    ClearScreen,
    ClearLine,
    SetCursor(CursorState),
    Goto(u16, u16),
    Print(Seq<char>),
    Flush,
}

impl View for TermCommand {
    type V = CmdView;

    open spec fn view(&self) -> CmdView {
        match self {
            TermCommand::ClearScreen => CmdView::ClearScreen,
            TermCommand::ClearLine => CmdView::ClearLine,
            TermCommand::SetCursor(s) => CmdView::SetCursor(*s),
            TermCommand::Goto(x, y) => CmdView::Goto(*x, *y),
            TermCommand::Print(text) => CmdView::Print(text@),
            TermCommand::Flush => CmdView::Flush,
        }
    }
}

impl DeepView for TermCommand {
    type V = CmdView;

    open spec fn deep_view(&self) -> CmdView {
        self.view()
    }
}

/// The one-based coordinate a zero-based logical coordinate maps to:
/// one more, saturating at the largest value a terminal can address.
pub open spec fn one_based(v: nat) -> u16 {
    if v >= u16::MAX { u16::MAX } else { (v + 1) as u16 }
}

/// Law: the one-based conversion maps the origin coordinate to 1, adds one
/// below the terminal's addressable maximum, and saturates at that maximum
/// instead of overflowing.
pub proof fn lemma_one_based_saturates(v: nat)
    ensures
        one_based(0) == 1,
        v < u16::MAX ==> one_based(v) == v + 1,
        v >= u16::MAX ==> one_based(v) == u16::MAX,
{
}

/// Holds what the session captured of the terminal: its dimensions. The raw
/// input/output session itself lives with the driver; the editor logic only
/// ever reads the size and builds commands.
#[derive(Clone, Copy, PartialEq, Eq, Structural, Debug)]
pub struct Terminal {
    pub size: Size,
}

impl Terminal {
    /// A terminal face over dimensions the driver queried at startup.
    pub fn new(size: Size) -> (t: Terminal)
        ensures
            t.size == size,
    {
        Terminal { size }
    }

    /// The dimensions captured at initialization; never refreshed.
    pub fn size(&self) -> (s: &Size)
        ensures
            *s == self.size,
    {
        &self.size
    }

    /// The command erasing the whole screen.
    pub fn clear_screen() -> (c: TermCommand)
        ensures
            c@ == CmdView::ClearScreen,
    {
        TermCommand::ClearScreen
    }

    /// The command erasing the current line.
    pub fn clear_line() -> (c: TermCommand)
        ensures
            c@ == CmdView::ClearLine,
    {
        TermCommand::ClearLine
    }

    /// The command selecting the given cursor visibility or shape.
    pub fn set_cursor_state(state: CursorState) -> (c: TermCommand)
        ensures
            c@ == CmdView::SetCursor(state),
    {
        TermCommand::SetCursor(state)
    }

    /// The command placing the cursor at a logical position: zero-based
    /// coordinates become the one-based pair the terminal expects, each
    /// saturating instead of overflowing.
    pub fn cursor_position(position: &Position) -> (c: TermCommand)
        ensures
            c@ == CmdView::Goto(one_based(position.x as nat), one_based(position.y as nat)),
    {
        let x: u16 = if position.x >= u16::MAX as usize {
            u16::MAX
        } else {
            (position.x + 1) as u16
        };
        let y: u16 = if position.y >= u16::MAX as usize {
            u16::MAX
        } else {
            (position.y + 1) as u16
        };
        TermCommand::Goto(x, y)
    }
}

} // verus!
