use miniedit::{
    die, CursorState, Document, Editor, EditorMode, Key, Position, Row, Size, TermCommand,
    Terminal,
};

fn doc_of(lines: &[&str]) -> Document {
    let mut rows = Vec::new();
    for line in lines {
        rows.push(Row::new(String::from(*line)));
    }
    Document::new(rows)
}

fn editor(width: u16, height: u16, lines: &[&str]) -> Editor {
    Editor::new(Size { width, height }, doc_of(lines))
}

const RED_FG: &str = "\u{1b}[38;5;1m";

fn filler(row: u16) -> TermCommand {
    TermCommand::Print(format!("{}   {}~", row, RED_FG))
}

#[test]
fn up_saturates_at_top() {
    let mut ed = editor(80, 24, &[]);
    ed.process_keypress(Key::Up);
    assert_eq!(ed.cursor_position, Position { x: 0, y: 0 });
    ed.process_keypress(Key::Char('k'));
    assert_eq!(ed.cursor_position, Position { x: 0, y: 0 });
}

#[test]
fn down_stops_at_reserved_row_bound() {
    let mut ed = editor(80, 3, &[]);
    // height 3 leaves rows 0..=2 addressable; the bound is height - 1 = 2.
    ed.process_keypress(Key::Down);
    ed.process_keypress(Key::Down);
    assert_eq!(ed.cursor_position, Position { x: 0, y: 2 });
    ed.process_keypress(Key::Down);
    assert_eq!(ed.cursor_position, Position { x: 0, y: 2 });
    ed.process_keypress(Key::Char('j'));
    assert_eq!(ed.cursor_position, Position { x: 0, y: 2 });
}

#[test]
fn left_is_blocked_at_the_width_bound() {
    // The preserved quirk: leftward movement only happens while x < width - 1.
    let mut ed = editor(80, 24, &[]);
    ed.cursor_position = Position { x: 79, y: 0 };
    ed.process_keypress(Key::Left);
    assert_eq!(ed.cursor_position, Position { x: 79, y: 0 });
    ed.cursor_position = Position { x: 3, y: 0 };
    ed.process_keypress(Key::Left);
    assert_eq!(ed.cursor_position, Position { x: 2, y: 0 });
    ed.process_keypress(Key::Char('h'));
    assert_eq!(ed.cursor_position, Position { x: 1, y: 0 });
    ed.cursor_position = Position { x: 0, y: 0 };
    ed.process_keypress(Key::Left);
    assert_eq!(ed.cursor_position, Position { x: 0, y: 0 });
}

#[test]
fn right_has_no_viewport_clamp() {
    let mut ed = editor(80, 24, &[]);
    ed.cursor_position = Position { x: 79, y: 0 };
    ed.process_keypress(Key::Right);
    assert_eq!(ed.cursor_position, Position { x: 80, y: 0 });
    ed.process_keypress(Key::Char('l'));
    assert_eq!(ed.cursor_position, Position { x: 81, y: 0 });
}

#[test]
fn insert_key_switches_mode_and_emits_bar() {
    let mut ed = editor(80, 24, &[]);
    assert_eq!(ed.mode, EditorMode::Visual);
    let cmds = ed.process_keypress(Key::Char('i'));
    assert_eq!(ed.mode, EditorMode::Insert);
    assert_eq!(cmds, vec![TermCommand::SetCursor(CursorState::Bar)]);
}

#[test]
fn escape_switches_back_to_visual_and_emits_block() {
    let mut ed = editor(80, 24, &[]);
    ed.process_keypress(Key::Char('i'));
    let cmds = ed.process_keypress(Key::Esc);
    assert_eq!(ed.mode, EditorMode::Visual);
    assert_eq!(cmds, vec![TermCommand::SetCursor(CursorState::Block)]);
}

#[test]
fn insert_key_in_insert_mode_is_a_noop_but_reemits_bar() {
    let mut ed = editor(80, 24, &[]);
    ed.process_keypress(Key::Char('i'));
    let cmds = ed.process_keypress(Key::Char('i'));
    assert_eq!(ed.mode, EditorMode::Insert);
    assert_eq!(cmds, vec![TermCommand::SetCursor(CursorState::Bar)]);
}

#[test]
fn escape_in_visual_mode_stays_visual_and_emits_block() {
    let mut ed = editor(80, 24, &[]);
    let cmds = ed.process_keypress(Key::Esc);
    assert_eq!(ed.mode, EditorMode::Visual);
    assert_eq!(cmds, vec![TermCommand::SetCursor(CursorState::Block)]);
}

#[test]
fn letter_aliases_do_not_move_in_insert_mode() {
    let mut ed = editor(80, 24, &[]);
    ed.cursor_position = Position { x: 5, y: 5 };
    ed.process_keypress(Key::Char('i'));
    for key in [Key::Char('k'), Key::Char('j'), Key::Char('h'), Key::Char('l')] {
        let cmds = ed.process_keypress(key);
        assert_eq!(ed.cursor_position, Position { x: 5, y: 5 });
        assert!(cmds.is_empty());
    }
}

#[test]
fn arrows_move_identically_in_both_modes() {
    let mut visual = editor(80, 24, &[]);
    visual.cursor_position = Position { x: 5, y: 5 };
    let mut insert = editor(80, 24, &[]);
    insert.cursor_position = Position { x: 5, y: 5 };
    insert.process_keypress(Key::Char('i'));
    for key in [Key::Up, Key::Down, Key::Left, Key::Right] {
        visual.process_keypress(key);
        insert.process_keypress(key);
        assert_eq!(visual.cursor_position, insert.cursor_position);
    }
    assert_eq!(visual.cursor_position, Position { x: 5, y: 5 });
}

#[test]
fn unrecognized_keys_change_nothing() {
    let mut ed = editor(80, 24, &[]);
    ed.cursor_position = Position { x: 2, y: 2 };
    for key in [Key::Char('x'), Key::Ctrl('c'), Key::Other] {
        let cmds = ed.process_keypress(key);
        assert!(cmds.is_empty());
        assert_eq!(ed.cursor_position, Position { x: 2, y: 2 });
        assert_eq!(ed.mode, EditorMode::Visual);
        assert!(!ed.should_quit);
    }
}

#[test]
fn quit_chord_raises_the_quit_flag_only() {
    let mut ed = editor(80, 24, &[]);
    let cmds = ed.process_keypress(Key::Ctrl('q'));
    assert!(ed.should_quit);
    assert!(cmds.is_empty());
    assert_eq!(ed.cursor_position, Position { x: 0, y: 0 });
    assert_eq!(ed.mode, EditorMode::Visual);
}

#[test]
fn cursor_position_maps_origin_to_one_one() {
    let cmd = Terminal::cursor_position(&Position { x: 0, y: 0 });
    assert_eq!(cmd, TermCommand::Goto(1, 1));
}

#[test]
fn cursor_position_converts_to_one_based() {
    let cmd = Terminal::cursor_position(&Position { x: 7, y: 20 });
    assert_eq!(cmd, TermCommand::Goto(8, 21));
}

#[test]
fn cursor_position_saturates_at_u16_max() {
    let max = u16::MAX as usize;
    assert_eq!(
        Terminal::cursor_position(&Position { x: max, y: max }),
        TermCommand::Goto(u16::MAX, u16::MAX)
    );
    assert_eq!(
        Terminal::cursor_position(&Position { x: usize::MAX, y: max - 1 }),
        TermCommand::Goto(u16::MAX, u16::MAX)
    );
}

#[test]
fn row_render_windows_the_text() {
    let row = Row::new(String::from("hello world"));
    assert_eq!(row.render(0, 5), "hello");
    assert_eq!(row.render(6, 100), "world");
    assert_eq!(row.render(0, 0), "");
    assert_eq!(row.render(8, 3), "");
}

#[test]
fn document_hands_out_rows_by_index() {
    let doc = doc_of(&["one", "two"]);
    assert_eq!(doc.len(), 2);
    assert_eq!(doc.row(0).map(|r| r.render(0, 10)), Some(String::from("one")));
    assert_eq!(doc.row(1).map(|r| r.render(0, 10)), Some(String::from("two")));
    assert!(doc.row(2).is_none());
}

#[test]
fn filler_line_shows_row_index_and_red_tilde() {
    let ed = editor(80, 3, &[]);
    let cmds = ed.draw_rows();
    assert_eq!(
        cmds,
        vec![
            TermCommand::ClearLine,
            filler(0),
            TermCommand::ClearLine,
            filler(1),
        ]
    );
}

#[test]
fn filler_decoration_uses_the_escape_termion_defines() {
    // The red-foreground escape the library bakes into filler lines must be
    // the very sequence termion emits for a red foreground.
    let ed = editor(80, 2, &[]);
    let cmds = ed.draw_rows();
    let expected = format!("0   {}~", termion::color::Red.fg_str());
    assert_eq!(cmds[1], TermCommand::Print(expected));
}

#[test]
fn filler_row_indices_render_in_decimal() {
    let ed = editor(80, 24, &[]);
    let cmds = ed.draw_rows();
    // 23 rows, each preceded by a clear-line command.
    assert_eq!(cmds.len(), 46);
    assert_eq!(cmds[2 * 17 + 1], filler(17));
    assert_eq!(cmds[2 * 9 + 1], filler(9));
}

#[test]
fn welcome_message_is_centered_and_truncated() {
    let ed = editor(80, 24, &[]);
    let body = "Welcome editor -- version 0.1.0true";
    let padding = (80 - body.len()) / 2;
    let expected = format!("~{}{}", " ".repeat(padding - 1), body);
    assert_eq!(ed.draw_welcome_message(), TermCommand::Print(expected));

    let narrow = editor(10, 24, &[]);
    assert_eq!(
        narrow.draw_welcome_message(),
        TermCommand::Print(String::from("~Welcome e"))
    );
}

#[test]
fn welcome_message_reflects_the_mode() {
    let mut ed = editor(200, 24, &[]);
    ed.process_keypress(Key::Char('i'));
    let body = "Welcome editor -- version 0.1.0false";
    let padding = (200 - body.len()) / 2;
    let expected = format!("~{}{}", " ".repeat(padding - 1), body);
    assert_eq!(ed.draw_welcome_message(), TermCommand::Print(expected));
}

#[test]
fn draw_rows_prefers_document_rows() {
    let ed = editor(5, 4, &["abcdefgh", "xy"]);
    let cmds = ed.draw_rows();
    assert_eq!(
        cmds,
        vec![
            TermCommand::ClearLine,
            TermCommand::Print(String::from("abcde")),
            TermCommand::ClearLine,
            TermCommand::Print(String::from("xy")),
            TermCommand::ClearLine,
            filler(2),
        ]
    );
}

#[test]
fn die_clears_the_screen() {
    assert_eq!(die(), vec![TermCommand::ClearScreen]);
}

#[test]
fn end_to_end_scenario() {
    // Terminal 80x24, a five-row document, cursor at the origin, Visual mode.
    let lines = ["alpha", "beta", "gamma", "delta", "epsilon"];
    let mut ed = editor(80, 24, &lines);
    assert_eq!(ed.cursor_position, Position { x: 0, y: 0 });
    assert_eq!(ed.mode, EditorMode::Visual);

    // Three presses of Down move the cursor to (0, 3).
    ed.process_keypress(Key::Down);
    ed.process_keypress(Key::Down);
    ed.process_keypress(Key::Down);
    assert_eq!(ed.cursor_position, Position { x: 0, y: 3 });

    // The render draws the five document rows, then fillers — never a
    // document draw beyond row 5.
    let cmds = ed.refresh_screen();
    let mut expected = vec![
        TermCommand::SetCursor(CursorState::Hidden),
        TermCommand::Goto(1, 1),
    ];
    for line in lines.iter() {
        expected.push(TermCommand::ClearLine);
        expected.push(TermCommand::Print(String::from(*line)));
    }
    for r in 5..23u16 {
        expected.push(TermCommand::ClearLine);
        expected.push(filler(r));
    }
    expected.push(TermCommand::Goto(1, 4));
    expected.push(TermCommand::SetCursor(CursorState::Visible));
    expected.push(TermCommand::Flush);
    assert_eq!(cmds, expected);

    // The quit key makes the next render clear the screen and print exactly
    // one farewell line.
    ed.process_keypress(Key::Ctrl('q'));
    assert!(ed.should_quit);
    let cmds = ed.refresh_screen();
    assert_eq!(
        cmds,
        vec![
            TermCommand::SetCursor(CursorState::Hidden),
            TermCommand::Goto(1, 1),
            TermCommand::ClearScreen,
            TermCommand::Print(String::from("Goodbye.")),
            TermCommand::SetCursor(CursorState::Visible),
            TermCommand::Flush,
        ]
    );
    let goodbyes = cmds
        .iter()
        .filter(|c| matches!(c, TermCommand::Print(s) if s == "Goodbye."))
        .count();
    assert_eq!(goodbyes, 1);
}
