//! The editor core: cursor and mode state, the keypress dispatch that drives
//! them, and the render pass that lays the visible rows out as terminal
//! commands.

use vstd::prelude::*;

use crate::terminal::{one_based, CmdView, CursorState, Size, TermCommand, Terminal};

verus! {

/// The two interaction modes. `Visual` (the initial mode) interprets the
/// letter movement aliases; `Insert` reserves them for future text entry.
#[derive(Clone, Copy, PartialEq, Eq, Structural, Debug)]
pub enum EditorMode {
    Visual,
    Insert,
}

/// A zero-based logical cursor coordinate pair: `x` is the column, `y` the
/// row. Clamping to the viewport is enforced by the movement logic, not by
/// the type.
#[derive(Clone, Copy, PartialEq, Eq, Structural, Debug)]
pub struct Position {
    pub x: usize,
    pub y: usize,
}

impl core::default::Default for Position {
    /// The origin: column 0, row 0.
    fn default() -> (p: Position)
        ensures
            p == (Position { x: 0, y: 0 }),
    {
        Position { x: 0, y: 0 }
    }
}

/// One key event, as the editor sees it: a plain character, a
/// control-modified character, or a named key. Anything the editor never
/// reacts to may be handed in as `Other`.
#[derive(Clone, Copy, PartialEq, Eq, Structural, Debug)]
pub enum Key {
    Char(char),
    Ctrl(char),
    Up,
    Down,
    Left,
    Right,
    Esc,
    Other,
}

/// Where "up" takes a position: one row less, saturating at the top.
pub open spec fn moved_up(p: Position) -> Position {
    Position { x: p.x, y: if p.y >= 1 { (p.y - 1) as usize } else { 0 } }
}

/// Where "down" takes a position against the lowest reachable row `h`:
/// one row more, unchanged once `h` is reached.
pub open spec fn moved_down(p: Position, h: usize) -> Position {
    Position { x: p.x, y: if p.y < h { (p.y + 1) as usize } else { p.y } }
}

/// Where "left" takes a position against the rightmost column `w`: one
/// column less (saturating at 0), but only while `x` is still below `w` —
/// at `x == w` leftward movement is blocked. This asymmetric gate is a
/// deliberate, preserved boundary quirk of the movement policy.
pub open spec fn moved_left(p: Position, w: usize) -> Position {
    Position {
        x: if p.x < w {
            if p.x >= 1 {
                (p.x - 1) as usize
            } else {
                0
            }
        } else {
            p.x
        },
        y: p.y,
    }
}

/// Where "right" takes a position: one column more, saturating only at the
/// machine limit — the right-hand path has no viewport clamp.
pub open spec fn moved_right(p: Position) -> Position {
    Position { x: if p.x == usize::MAX { p.x } else { (p.x + 1) as usize }, y: p.y }
}

/// The lowest cursor row the viewport allows: the terminal height less the
/// one row reserved for the status line.
pub open spec fn row_bound(size: Size) -> usize {
    if size.height >= 1 {
        (size.height - 1) as usize
    } else {
        0
    }
}

/// The rightmost cursor column the movement policy measures against.
pub open spec fn col_bound(size: Size) -> usize {
    if size.width >= 1 {
        (size.width - 1) as usize
    } else {
        0
    }
}

/// The cursor position a key leads to from `p`, under terminal `size` and
/// mode `mode`. Arrow keys always move; the letter aliases `k`/`j`/`h`/`l`
/// move only in `Visual` mode; every other key leaves the position alone.
pub open spec fn moved_position(p: Position, size: Size, mode: EditorMode, key: Key) -> Position {
    let visual = mode == EditorMode::Visual;
    match key {
        Key::Char(c) => if c == 'k' && visual {
            moved_up(p)
        } else if c == 'j' && visual {
            moved_down(p, row_bound(size))
        } else if c == 'h' && visual {
            moved_left(p, col_bound(size))
        } else if c == 'l' && visual {
            moved_right(p)
        } else {
            p
        },
        Key::Up => moved_up(p),
        Key::Down => moved_down(p, row_bound(size)),
        Key::Left => moved_left(p, col_bound(size)),
        Key::Right => moved_right(p),
        _ => p,
    }
}

/// The mode a mode-switch key selects: the escape key always returns to
/// `Visual`, the insert key (or any other switch trigger) selects `Insert`.
/// The current mode plays no part: re-triggering a switch while already in
/// the target mode is an idempotent no-op.
pub open spec fn mode_after(mode: EditorMode, key: Key) -> EditorMode {
    if key == Key::Esc {
        EditorMode::Visual
    } else {
        EditorMode::Insert
    }
}

/// The cursor glyph each mode shows: a bar in `Insert`, a block in `Visual`.
pub open spec fn glyph_of(mode: EditorMode) -> CursorState {
    match mode {
        EditorMode::Insert => CursorState::Bar,
        EditorMode::Visual => CursorState::Block,
    }
}

/// Whether a key triggers a mode switch.
pub open spec fn is_mode_key(key: Key) -> bool {
    key == Key::Char('i') || key == Key::Esc
}

/// Whether a key is the quit chord.
pub open spec fn is_quit_key(key: Key) -> bool {
    key == Key::Ctrl('q')
}

/// Law: at the top row, moving up leaves the row at 0 — the upward step
/// saturates, so it is idempotent at the lower bound, through the arrow key
/// and the letter alias alike, in every mode.
pub proof fn lemma_up_saturates_at_top(p: Position, size: Size, mode: EditorMode)
    requires
        p.y == 0,
    ensures
        moved_position(p, size, mode, Key::Up).y == 0,
        moved_position(p, size, mode, Key::Char('k')).y == 0,
{
}

/// Law: at the lowest reachable row (the terminal height less the reserved
/// status row), moving down changes nothing, through the arrow key and the
/// letter alias alike, in every mode.
pub proof fn lemma_down_stops_at_bottom(p: Position, size: Size, mode: EditorMode)
    requires
        p.y == row_bound(size),
    ensures
        moved_position(p, size, mode, Key::Down) == p,
        moved_position(p, size, mode, Key::Char('j')) == p,
{
}

/// Law: the insert key always selects `Insert` with a bar glyph, and escape
/// always selects `Visual` with a block glyph, whatever mode the editor was
/// in — in particular, pressing insert while already in `Insert` leaves the
/// mode unchanged and re-emits the bar glyph.
pub proof fn lemma_mode_transitions(mode: EditorMode)
    ensures
        mode_after(mode, Key::Char('i')) == EditorMode::Insert,
        glyph_of(mode_after(mode, Key::Char('i'))) == CursorState::Bar,
        mode_after(mode, Key::Esc) == EditorMode::Visual,
        glyph_of(mode_after(mode, Key::Esc)) == CursorState::Block,
{
}

/// Law: in `Insert` mode no plain character key moves the cursor — the
/// letter movement aliases are gated on `Visual` mode.
pub proof fn lemma_insert_gates_letters(p: Position, size: Size, c: char)
    ensures
        moved_position(p, size, EditorMode::Insert, Key::Char(c)) == p,
{
}

/// Law: the arrow keys move the cursor identically in every mode.
pub proof fn lemma_arrows_ignore_mode(p: Position, size: Size, m1: EditorMode, m2: EditorMode)
    ensures
        moved_position(p, size, m1, Key::Up) == moved_position(p, size, m2, Key::Up),
        moved_position(p, size, m1, Key::Down) == moved_position(p, size, m2, Key::Down),
        moved_position(p, size, m1, Key::Left) == moved_position(p, size, m2, Key::Left),
        moved_position(p, size, m1, Key::Right) == moved_position(p, size, m2, Key::Right),
{
}

/// The version text the welcome banner shows.
pub open spec fn version_text() -> Seq<char> {
    "0.1.0"@
}

/// How a boolean renders as text.
pub open spec fn bool_text(b: bool) -> Seq<char> {
    if b {
        "true"@
    } else {
        "false"@
    }
}

/// The decimal digit character for `d` (digits above 9 collapse to '9',
/// which no caller reaches).
pub open spec fn digit_char(d: nat) -> char {
    if d == 0 {
        '0'
    } else if d == 1 {
        '1'
    } else if d == 2 {
        '2'
    } else if d == 3 {
        '3'
    } else if d == 4 {
        '4'
    } else if d == 5 {
        '5'
    } else if d == 6 {
        '6'
    } else if d == 7 {
        '7'
    } else if d == 8 {
        '8'
    } else {
        '9'
    }
}

/// The decimal rendering of `n`, most significant digit first.
pub open spec fn dec_digits(n: nat) -> Seq<char>
    decreases n,
{
    if n < 10 {
        seq![digit_char(n)]
    } else {
        dec_digits(n / 10).push(digit_char(n % 10))
    }
}

/// The escape sequence that selects a red foreground, as the filler line's
/// tilde decoration uses it.
pub open spec fn red_fg_seq() -> Seq<char> {
    seq!['\u{1b}', '[', '3', '8', ';', '5', ';', '1', 'm']
}

/// Relies on termion::color::Red::fg_str: the constant ANSI select-graphic
/// sequence `ESC [ 3 8 ; 5 ; 1 m` choosing the red foreground color.
#[verifier::external_body]
fn red_fg_str() -> (r: &'static str)
    ensures
        r@ == red_fg_seq(),
{
    termion::color::Red.fg_str()
}

/// The decoration drawn on a screen row that has neither a document row nor
/// the welcome banner: the row index, three spaces, the red-foreground
/// escape, and a tilde.
pub open spec fn filler_line(row: u16) -> Seq<char> {
    dec_digits(row as nat) + "   "@ + red_fg_seq() + "~"@
}

/// The welcome banner's core text: a greeting, the version, and whether the
/// editor is in `Visual` mode.
pub open spec fn welcome_body(mode: EditorMode) -> Seq<char> {
    "Welcome editor -- version "@ + version_text() + bool_text(mode == EditorMode::Visual)
}

/// The welcome banner line at terminal width `width`: a tilde, then padding
/// that roughly centers the body, then the body, the whole truncated to the
/// width.
pub open spec fn welcome_line(width: nat, mode: EditorMode) -> Seq<char> {
    let body = welcome_body(mode);
    let padding: nat = if width >= body.len() {
        ((width - body.len()) / 2) as nat
    } else {
        0
    };
    let pad: nat = if padding >= 1 {
        (padding - 1) as nat
    } else {
        0
    };
    let full = seq!['~'] + Seq::new(pad, |i: int| ' ') + body;
    if width < full.len() {
        full.take(width as int)
    } else {
        full
    }
}

/// The version text, as the welcome banner prints it.
fn version_str() -> (r: &'static str)
    ensures
        r@ == version_text(),
{
    "0.1.0"
}

/// The decimal digit as a one-character string slice.
fn digit_str(d: u16) -> (r: &'static str)
    requires
        d < 10,
    ensures
        r@ =~= seq![digit_char(d as nat)],
{
    proof {
        reveal_strlit("0");
        reveal_strlit("1");
        reveal_strlit("2");
        reveal_strlit("3");
        reveal_strlit("4");
        reveal_strlit("5");
        reveal_strlit("6");
        reveal_strlit("7");
        reveal_strlit("8");
        reveal_strlit("9");
    }
    if d == 0 {
        "0"
    } else if d == 1 {
        "1"
    } else if d == 2 {
        "2"
    } else if d == 3 {
        "3"
    } else if d == 4 {
        "4"
    } else if d == 5 {
        "5"
    } else if d == 6 {
        "6"
    } else if d == 7 {
        "7"
    } else if d == 8 {
        "8"
    } else {
        "9"
    }
}

/// The decimal rendering of `n` as a string.
fn digits_string(n: u16) -> (s: String)
    ensures
        s@ =~= dec_digits(n as nat),
    decreases n,
{
    if n < 10 {
        String::from_str(digit_str(n))
    } else {
        let mut s = digits_string(n / 10);
        s.append(digit_str(n % 10));
        s
    }
}

/// The filler decoration for screen row `row` as a string.
fn filler_string(row: u16) -> (s: String)
    ensures
        s@ =~= filler_line(row),
{
    let mut s = digits_string(row);
    s.append("   ");
    s.append(red_fg_str());
    s.append("~");
    s
}

/// The slice of a row visible in the column window `[start, end)`: the
/// window's ends are clamped to the row's length before slicing.
pub open spec fn window(s: Seq<char>, start: int, end: int) -> Seq<char> {
    let e = if end < s.len() {
        end
    } else {
        s.len() as int
    };
    let st = if start < e {
        start
    } else {
        e
    };
    s.subrange(st, e)
}

/// One renderable document line.
#[derive(Clone, PartialEq, Eq, Debug)]
pub struct Row {
    pub text: String,
}

impl View for Row {
    type V = Seq<char>;

    open spec fn view(&self) -> Seq<char> {
        self.text@
    }
}

impl Row {
    /// A row over the given text.
    pub fn new(text: String) -> (r: Row)
        ensures
            r@ == text@,
    {
        Row { text }
    }

    /// The visible slice of this row within the column window `[start, end)`.
    pub fn render(&self, start: usize, end: usize) -> (r: String)
        ensures
            r@ == window(self@, start as int, end as int),
    {
        let len = self.text.as_str().unicode_len();
        let e = if end < len {
            end
        } else {
            len
        };
        let st = if start < e {
            start
        } else {
            e
        };
        self.text.as_str().substring_char(st, e).to_owned()
    }
}

/// The document under view: an ordered sequence of renderable rows. Loading
/// and storage are a collaborator's business; the editor only ever asks for
/// a row by index.
#[derive(Clone, PartialEq, Eq, Debug)]
pub struct Document {
    pub rows: Vec<Row>,
}

impl Document {
    /// A document over the given rows.
    pub fn new(rows: Vec<Row>) -> (d: Document)
        ensures
            d.rows == rows,
    {
        Document { rows }
    }

    /// The row at `index`, if the document has one there.
    pub fn row(&self, index: usize) -> (r: Option<&Row>)
        ensures
            match r {
                Some(row) => index < self.rows@.len() && *row == self.rows@[index as int],
                None => index >= self.rows@.len(),
            },
    {
        if index < self.rows.len() {
            Some(&self.rows[index])
        } else {
            None
        }
    }

    /// How many rows the document holds.
    pub fn len(&self) -> (n: usize)
        ensures
            n == self.rows@.len(),
    {
        self.rows.len()
    }
}

/// The top-level editor state: the terminal face, the cursor, the mode, the
/// document under view, and the quit flag the control loop observes.
pub struct Editor {
    pub should_quit: bool,
    pub terminal: Terminal,
    pub cursor_position: Position,
    pub mode: EditorMode,
    pub document: Document,
}

impl Editor {
    /// A fresh editor over a terminal of the given size and a document:
    /// cursor at the origin, `Visual` mode, not quitting.
    pub fn new(size: Size, document: Document) -> (e: Editor)
        ensures
            e.should_quit == false,
            e.terminal.size == size,
            e.cursor_position == (Position { x: 0, y: 0 }),
            e.mode == EditorMode::Visual,
            e.document == document,
    {
        Editor {
            should_quit: false,
            terminal: Terminal::new(size),
            cursor_position: Position::default(),
            mode: EditorMode::Visual,
            document,
        }
    }

    /// Applies one movement key to the cursor, exactly as
    /// [`moved_position`] states: arrows always move, the letter aliases
    /// move only in `Visual` mode, and every step saturates at the viewport
    /// bounds. Nothing but the cursor changes.
    pub fn move_cursor(&mut self, key: Key)
        ensures
            final(self).cursor_position == moved_position(
                old(self).cursor_position,
                old(self).terminal.size,
                old(self).mode,
                key,
            ),
            final(self).should_quit == old(self).should_quit,
            final(self).terminal == old(self).terminal,
            final(self).mode == old(self).mode,
            final(self).document == old(self).document,
    {
        let mut x = self.cursor_position.x;
        let mut y = self.cursor_position.y;
        let size = self.terminal.size;
        let height: usize = if size.height >= 1 {
            (size.height - 1) as usize
        } else {
            0
        };
        let width: usize = if size.width >= 1 {
            (size.width - 1) as usize
        } else {
            0
        };
        let is_visual = self.mode == EditorMode::Visual;

        match key {
            Key::Char(c) => {
                if c == 'k' && is_visual {
                    y = if y >= 1 {
                        y - 1
                    } else {
                        0
                    };
                } else if c == 'j' && is_visual {
                    if y < height {
                        y = y + 1;
                    }
                } else if c == 'h' && is_visual {
                    if x < width {
                        x = if x >= 1 {
                            x - 1
                        } else {
                            0
                        };
                    }
                } else if c == 'l' && is_visual {
                    if x < usize::MAX {
                        x = x + 1;
                    }
                }
            },
            Key::Up => {
                y = if y >= 1 {
                    y - 1
                } else {
                    0
                };
            },
            Key::Down => {
                if y < height {
                    y = y + 1;
                }
            },
            Key::Left => {
                if x < width {
                    x = if x >= 1 {
                        x - 1
                    } else {
                        0
                    };
                }
            },
            Key::Right => {
                if x < usize::MAX {
                    x = x + 1;
                }
            },
            _ => {},
        }

        self.cursor_position = Position { x, y };
    }

    /// Switches the mode as the key dictates — escape selects `Visual`,
    /// anything else `Insert` — and returns the command that synchronously
    /// updates the terminal's cursor glyph to the new mode's shape. The
    /// glyph command is emitted on every switch, also when the mode does not
    /// actually change.
    pub fn switch_mode(&mut self, key: Key) -> (cmd: TermCommand)
        ensures
            final(self).mode == mode_after(old(self).mode, key),
            cmd@ == CmdView::SetCursor(glyph_of(final(self).mode)),
            final(self).should_quit == old(self).should_quit,
            final(self).terminal == old(self).terminal,
            final(self).cursor_position == old(self).cursor_position,
            final(self).document == old(self).document,
    {
        let next_mode = if key == Key::Esc {
            EditorMode::Visual
        } else {
            EditorMode::Insert
        };

        let cmd = match next_mode {
            EditorMode::Insert => Terminal::set_cursor_state(CursorState::Bar),
            EditorMode::Visual => Terminal::set_cursor_state(CursorState::Block),
        };
        self.mode = next_mode;
        cmd
    }

    /// The text drawn at screen row `r`: the document row's visible window
    /// where the document has one; else the welcome banner, at the one row
    /// satisfying its (practically unreachable) trigger condition; else the
    /// filler decoration.
    pub open spec fn line_for_row(&self, r: u16) -> Seq<char> {
        if (r as nat) < self.document.rows@.len() {
            window(self.document.rows@[r as int]@, 0, self.terminal.size.width as int)
        } else if r / 3 == self.terminal.size.height {
            welcome_line(self.terminal.size.width as nat, self.mode)
        } else {
            filler_line(r)
        }
    }

    /// The command stream drawing the first `n` screen rows: for each row in
    /// order, a clear-line and then that row's text.
    pub open spec fn rows_cmds(&self, n: int) -> Seq<CmdView>
        decreases n,
    {
        if n <= 0 {
            Seq::empty()
        } else {
            self.rows_cmds(n - 1) + seq![
                CmdView::ClearLine,
                CmdView::Print(self.line_for_row((n - 1) as u16)),
            ]
        }
    }

    /// The full command stream of one render pass: hide the cursor, go to
    /// the origin; then either (quitting) clear the screen and print the
    /// farewell, or draw every visible row and reposition the cursor at its
    /// logical position; finally show the cursor and flush.
    pub open spec fn refresh_cmds(&self) -> Seq<CmdView> {
        let prefix = seq![CmdView::SetCursor(CursorState::Hidden), CmdView::Goto(1, 1)];
        let body = if self.should_quit {
            seq![CmdView::ClearScreen, CmdView::Print("Goodbye."@)]
        } else {
            self.rows_cmds(self.terminal.size.height - 1) + seq![
                CmdView::Goto(
                    one_based(self.cursor_position.x as nat),
                    one_based(self.cursor_position.y as nat),
                ),
            ]
        };
        prefix + body + seq![CmdView::SetCursor(CursorState::Visible), CmdView::Flush]
    }

    /// The print command for one document row, windowed to the terminal
    /// width.
    pub fn draw_row(&self, row: &Row) -> (c: TermCommand)
        ensures
            c@ == CmdView::Print(window(row@, 0, self.terminal.size.width as int)),
    {
        let start: usize = 0;
        let end = self.terminal.size.width as usize;
        let text = row.render(start, end);
        TermCommand::Print(text)
    }

    /// The print command for the welcome banner at this terminal's width.
    pub fn draw_welcome_message(&self) -> (c: TermCommand)
        ensures
            c@ == CmdView::Print(welcome_line(self.terminal.size.width as nat, self.mode)),
    {
        proof {
            reveal_strlit("~");
            reveal_strlit(" ");
        }
        let width = self.terminal.size.width as usize;
        let mut message = String::from_str("Welcome editor -- version ");
        message.append(version_str());
        message.append(
            if self.mode == EditorMode::Visual {
                "true"
            } else {
                "false"
            },
        );
        let len = message.as_str().unicode_len();
        let padding: usize = if width >= len {
            (width - len) / 2
        } else {
            0
        };
        let pad: usize = if padding >= 1 {
            padding - 1
        } else {
            0
        };
        let mut line = String::from_str("~");
        let mut i: usize = 0;
        while i < pad
            invariant
                i <= pad,
                line@ =~= seq!['~'] + Seq::new(i as nat, |j: int| ' '),
            decreases pad - i,
        {
            line.append(" ");
            i = i + 1;
            proof {
                reveal_strlit(" ");
            }
        }
        line.append(message.as_str());
        let line_len = line.as_str().unicode_len();
        let truncated = if width < line_len {
            line.as_str().substring_char(0, width).to_owned()
        } else {
            line
        };
        TermCommand::Print(truncated)
    }

    /// The commands drawing every visible screen row, in order.
    pub fn draw_rows(&self) -> (cmds: Vec<TermCommand>)
        requires
            self.terminal.size.height >= 1,
        ensures
            cmds.deep_view() =~= self.rows_cmds(self.terminal.size.height - 1),
    {
        let height = self.terminal.size.height;
        let mut cmds: Vec<TermCommand> = Vec::new();
        let mut terminal_row: u16 = 0;
        while terminal_row < height - 1
            invariant
                self.terminal.size.height >= 1,
                height == self.terminal.size.height,
                terminal_row <= height - 1,
                cmds.deep_view() =~= self.rows_cmds(terminal_row as int),
            decreases height - 1 - terminal_row,
        {
            cmds.push(Terminal::clear_line());
            if let Some(row) = self.document.row(terminal_row as usize) {
                let c = self.draw_row(row);
                cmds.push(c);
            } else if terminal_row / 3 == height {
                let c = self.draw_welcome_message();
                cmds.push(c);
            } else {
                cmds.push(TermCommand::Print(filler_string(terminal_row)));
            }
            terminal_row = terminal_row + 1;
        }
        cmds
    }

    /// One full render pass, as [`Editor::refresh_cmds`] states it. The
    /// driver emits each command in order; the trailing flush is what makes
    /// the pass visible.
    pub fn refresh_screen(&self) -> (cmds: Vec<TermCommand>)
        requires
            self.terminal.size.height >= 1,
        ensures
            cmds.deep_view() =~= self.refresh_cmds(),
    {
        let mut cmds: Vec<TermCommand> = Vec::new();
        cmds.push(Terminal::set_cursor_state(CursorState::Hidden));
        cmds.push(Terminal::cursor_position(&Position::default()));
        if self.should_quit {
            cmds.push(Terminal::clear_screen());
            cmds.push(TermCommand::Print(String::from_str("Goodbye.")));
        } else {
            let mut rows = self.draw_rows();
            cmds.append(&mut rows);
            cmds.push(Terminal::cursor_position(&self.cursor_position));
        }
        cmds.push(Terminal::set_cursor_state(CursorState::Visible));
        cmds.push(TermCommand::Flush);
        cmds
    }

    /// Dispatches one keypress: the quit chord raises the quit flag, the
    /// mode keys switch the mode (returning the glyph command), movement
    /// keys move the cursor under the mode gate, and any other key changes
    /// nothing.
    pub fn process_keypress(&mut self, key: Key) -> (cmds: Vec<TermCommand>)
        ensures
            final(self).should_quit == (old(self).should_quit || is_quit_key(key)),
            final(self).mode == (if is_mode_key(key) {
                mode_after(old(self).mode, key)
            } else {
                old(self).mode
            }),
            final(self).cursor_position == (if is_mode_key(key) || is_quit_key(key) {
                old(self).cursor_position
            } else {
                moved_position(
                    old(self).cursor_position,
                    old(self).terminal.size,
                    old(self).mode,
                    key,
                )
            }),
            cmds.deep_view() == (if is_mode_key(key) {
                seq![CmdView::SetCursor(glyph_of(mode_after(old(self).mode, key)))]
            } else {
                Seq::<CmdView>::empty()
            }),
            final(self).terminal == old(self).terminal,
            final(self).document == old(self).document,
    {
        let mut cmds: Vec<TermCommand> = Vec::new();
        let is_visual = self.mode == EditorMode::Visual;

        match key {
            Key::Ctrl(c) => {
                if c == 'q' {
                    self.should_quit = true;
                }
            },
            Key::Esc => {
                let cmd = self.switch_mode(key);
                cmds.push(cmd);
            },
            Key::Char(c) => {
                if c == 'i' {
                    let cmd = self.switch_mode(key);
                    cmds.push(cmd);
                } else if c == 'k' || c == 'j' || c == 'h' || c == 'l' {
                    if is_visual {
                        self.move_cursor(key);
                    }
                }
            },
            Key::Up | Key::Down | Key::Left | Key::Right => self.move_cursor(key),
            _ => {},
        }

        cmds
    }
}

/// The output the control loop owes the terminal when a fatal I/O error
/// ends the session: clear the screen, so the abort message lands on a
/// blank terminal. The driver emits these commands and then panics with
/// the error it met.
pub fn die() -> (cmds: Vec<TermCommand>)
    ensures
        cmds.deep_view() =~= seq![CmdView::ClearScreen],
{
    let mut cmds: Vec<TermCommand> = Vec::new();
    cmds.push(Terminal::clear_screen());
    cmds
}

} // verus!
