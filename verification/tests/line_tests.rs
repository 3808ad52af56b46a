use crossterm::QueueableCommand;
use rustyline_async::line::{Event, KeyCode, LineState};
use rustyline_async::ReadlineEvent;

fn key(code: KeyCode) -> Event {
    Event::Key { code, control: false, press: true }
}

fn ctrl(code: KeyCode) -> Event {
    Event::Key { code, control: true, press: true }
}

fn type_str(state: &mut LineState, text: &str, out: &mut Vec<u8>) {
    for c in text.chars() {
        assert_eq!(state.handle_event(key(KeyCode::Char(c)), out), None);
    }
}

fn line_text(state: &LineState) -> String {
    state.line.concat()
}

/// Position of `needle` in `haystack` at or after `from`.
fn find_sub(haystack: &[u8], needle: &[u8], from: usize) -> Option<usize> {
    if needle.is_empty() || haystack.len() < needle.len() {
        return None;
    }
    (from..=haystack.len() - needle.len()).find(|&i| &haystack[i..i + needle.len()] == needle)
}

#[test]
fn typing_foo_then_enter_yields_one_line_event() {
    let mut state = LineState::new("> ".to_string(), (80, 24));
    let mut out = Vec::new();
    type_str(&mut state, "foo", &mut out);
    assert_eq!(line_text(&state), "foo");
    assert_eq!(state.line_cursor_grapheme, 3);

    let result = state.handle_event(key(KeyCode::Enter), &mut out);
    assert_eq!(result, Some(ReadlineEvent::Line("foo".to_string())));
    assert_eq!(state.line.len(), 0);
    assert_eq!(state.line_cursor_grapheme, 0);
}

#[test]
fn ctrl_u_then_enter_yields_empty_line() {
    let mut state = LineState::new("> ".to_string(), (80, 24));
    let mut out = Vec::new();
    type_str(&mut state, "foo", &mut out);
    assert_eq!(state.handle_event(ctrl(KeyCode::Char('u')), &mut out), None);
    assert_eq!(state.line.len(), 0);
    let result = state.handle_event(key(KeyCode::Enter), &mut out);
    assert_eq!(result, Some(ReadlineEvent::Line(String::new())));
}

#[test]
fn ctrl_d_on_empty_buffer_yields_eof() {
    let mut state = LineState::new("> ".to_string(), (80, 24));
    let mut out = Vec::new();
    let result = state.handle_event(ctrl(KeyCode::Char('d')), &mut out);
    assert_eq!(result, Some(ReadlineEvent::Eof));
}

#[test]
fn ctrl_c_yields_interrupted_and_clears_buffer() {
    let mut state = LineState::new("> ".to_string(), (80, 24));
    let mut out = Vec::new();
    type_str(&mut state, "abc", &mut out);
    let result = state.handle_event(ctrl(KeyCode::Char('c')), &mut out);
    assert_eq!(result, Some(ReadlineEvent::Interrupted));
    assert_eq!(state.line.len(), 0);
    assert_eq!(state.line_cursor_grapheme, 0);
}

#[test]
fn background_chunk_is_printed_above_intact_prompt() {
    let mut state = LineState::new("> ".to_string(), (80, 24));
    let mut out = Vec::new();
    type_str(&mut state, "he", &mut out);

    let mut drained = Vec::new();
    state.print_data(b"log\n", &mut drained);

    let log_at = find_sub(&drained, b"log", 0).expect("chunk text must be written");
    let prompt_at =
        find_sub(&drained, b"> he", log_at + 3).expect("prompt must be redrawn after the chunk");
    assert!(prompt_at > log_at);
    assert_eq!(line_text(&state), "he");
    assert_eq!(state.line_cursor_grapheme, 2);
    // prompt "> " is two columns wide, "he" two more.
    assert_eq!(state.current_column, 4);
}

#[test]
fn enter_echoes_the_submitted_line_by_default() {
    let mut state = LineState::new("> ".to_string(), (80, 24));
    let mut out = Vec::new();
    type_str(&mut state, "foo", &mut out);
    out.clear();
    state.handle_event(key(KeyCode::Enter), &mut out);
    assert!(find_sub(&out, b"> foo\n", 0).is_some());
}

#[test]
fn print_renders_a_string_above_the_prompt() {
    let mut state = LineState::new("> ".to_string(), (80, 24));
    let mut out = Vec::new();
    state.print("message\n", &mut out);
    assert!(find_sub(&out, b"message", 0).is_some());
    assert!(state.last_line_completed);
}

#[test]
fn should_print_line_on_sets_both_flags() {
    let mut state = LineState::new("> ".to_string(), (80, 24));
    assert!(state.should_print_line_on_enter);
    assert!(state.should_print_line_on_control_c);
    state.should_print_line_on(false, true);
    assert!(!state.should_print_line_on_enter);
    assert!(state.should_print_line_on_control_c);
}

#[test]
fn cursor_editing_keeps_cursor_in_bounds() {
    let mut state = LineState::new("> ".to_string(), (80, 24));
    let mut out = Vec::new();
    type_str(&mut state, "ab", &mut out);

    let events = [
        key(KeyCode::Left),
        key(KeyCode::Left),
        key(KeyCode::Left),
        key(KeyCode::Backspace),
        key(KeyCode::Right),
        key(KeyCode::Delete),
        key(KeyCode::Right),
        key(KeyCode::Right),
        key(KeyCode::Backspace),
        key(KeyCode::Delete),
    ];
    for e in events {
        assert_eq!(state.handle_event(e, &mut out), None);
        assert!(state.line_cursor_grapheme <= state.line.len());
    }
}

#[test]
fn backspace_and_delete_edit_the_expected_cluster() {
    let mut state = LineState::new("> ".to_string(), (80, 24));
    let mut out = Vec::new();
    type_str(&mut state, "abcd", &mut out);

    state.handle_event(key(KeyCode::Left), &mut out);
    state.handle_event(key(KeyCode::Backspace), &mut out);
    assert_eq!(line_text(&state), "abd");
    assert_eq!(state.line_cursor_grapheme, 2);

    state.handle_event(key(KeyCode::Delete), &mut out);
    assert_eq!(line_text(&state), "ab");
    assert_eq!(state.line_cursor_grapheme, 2);

    state.handle_event(key(KeyCode::Home), &mut out);
    assert_eq!(state.line_cursor_grapheme, 0);
    state.handle_event(key(KeyCode::End), &mut out);
    assert_eq!(state.line_cursor_grapheme, 2);
}

#[test]
fn word_navigation_stops_at_space_boundaries_and_saturates() {
    let mut state = LineState::new("> ".to_string(), (80, 24));
    let mut out = Vec::new();
    type_str(&mut state, "foo bar", &mut out);
    assert_eq!(state.line_cursor_grapheme, 7);

    state.handle_event(ctrl(KeyCode::Left), &mut out);
    assert_eq!(state.line_cursor_grapheme, 4);
    state.handle_event(ctrl(KeyCode::Left), &mut out);
    assert_eq!(state.line_cursor_grapheme, 0);
    // Repeated word-left at the start is a no-op.
    state.handle_event(ctrl(KeyCode::Left), &mut out);
    assert_eq!(state.line_cursor_grapheme, 0);

    state.handle_event(ctrl(KeyCode::Right), &mut out);
    assert_eq!(state.line_cursor_grapheme, 3);
    state.handle_event(ctrl(KeyCode::Right), &mut out);
    assert_eq!(state.line_cursor_grapheme, 7);
    // Repeated word-right at the end is a no-op.
    state.handle_event(ctrl(KeyCode::Right), &mut out);
    assert_eq!(state.line_cursor_grapheme, 7);
}

#[test]
fn ctrl_w_deletes_previous_word() {
    let mut state = LineState::new("> ".to_string(), (80, 24));
    let mut out = Vec::new();
    type_str(&mut state, "foo bar", &mut out);
    state.handle_event(ctrl(KeyCode::Char('w')), &mut out);
    assert_eq!(line_text(&state), "foo ");
    assert_eq!(state.line_cursor_grapheme, 4);
}

#[test]
fn up_and_down_replace_the_buffer_from_history() {
    let mut state = LineState::new("> ".to_string(), (80, 24));
    let mut out = Vec::new();
    state.history.add_entry("alpha".to_string());
    state.history.add_entry("beta".to_string());

    state.handle_event(key(KeyCode::Up), &mut out);
    assert_eq!(line_text(&state), "beta");
    assert_eq!(state.line_cursor_grapheme, 4);

    state.handle_event(key(KeyCode::Up), &mut out);
    assert_eq!(line_text(&state), "alpha");
    assert_eq!(state.line_cursor_grapheme, 5);

    state.handle_event(key(KeyCode::Down), &mut out);
    assert_eq!(line_text(&state), "beta");

    // Leaving the newest entry yields the empty sentinel once.
    state.handle_event(key(KeyCode::Down), &mut out);
    assert_eq!(line_text(&state), "");
}

#[test]
fn clear_emits_the_same_control_bytes_as_crossterm() {
    let state = LineState::new("> ".to_string(), (80, 24));
    let mut out = Vec::new();
    state.clear(&mut out);

    // Fresh state: column 2 on a 80-column terminal, so no wrapped rows.
    let mut expected: Vec<u8> = Vec::new();
    expected.queue(crossterm::cursor::MoveToColumn(0)).unwrap();
    expected
        .queue(crossterm::terminal::Clear(crossterm::terminal::ClearType::FromCursorDown))
        .unwrap();
    assert_eq!(out, expected);
}

#[test]
fn render_emits_the_text_and_exact_repositioning_bytes() {
    let mut state = LineState::new("> ".to_string(), (5, 24));
    let mut out = Vec::new();
    type_str(&mut state, "abcdef", &mut out);

    // Column 8 on a five-column terminal: the content ends one wrapped row
    // down, and the cursor sits at column 3 of that row.
    let mut rendered = Vec::new();
    state.render(&mut rendered);

    let mut expected: Vec<u8> = b"> abcdef".to_vec();
    expected.queue(crossterm::cursor::MoveToColumn(0)).unwrap();
    expected.queue(crossterm::cursor::MoveUp(1)).unwrap();
    expected.queue(crossterm::cursor::MoveDown(1)).unwrap();
    expected.queue(crossterm::cursor::MoveRight(3)).unwrap();
    assert_eq!(rendered, expected);
}

#[test]
fn ctrl_l_erases_the_whole_screen_and_redraws_from_the_top() {
    let mut state = LineState::new("> ".to_string(), (80, 24));
    let mut out = Vec::new();
    state.handle_event(ctrl(KeyCode::Char('l')), &mut out);

    let mut expected: Vec<u8> = Vec::new();
    expected
        .queue(crossterm::terminal::Clear(crossterm::terminal::ClearType::All))
        .unwrap();
    expected.queue(crossterm::cursor::MoveTo(0, 0)).unwrap();
    assert_eq!(&out[..expected.len()], &expected[..]);
}

#[test]
fn prompt_width_is_measured_not_assumed() {
    let state = LineState::new("??> ".to_string(), (80, 24));
    assert_eq!(state.prompt_len, 4);
    // On a fresh, empty line the cursor column is exactly the prompt width.
    assert_eq!(state.current_column, state.prompt_len);
    // An ANSI-colored prompt is measured at its visible width.
    let colored = LineState::new("\u{1b}[31m> \u{1b}[0m".to_string(), (80, 24));
    assert_eq!(colored.prompt_len, 2);
}

#[test]
fn unterminated_chunks_carry_their_width_to_the_next_chunk() {
    let mut state = LineState::new("> ".to_string(), (80, 24));
    let mut out = Vec::new();
    state.print_data(b"ab", &mut out);
    assert!(!state.last_line_completed);
    assert_eq!(state.last_line_length, 2);

    state.print_data(b"cd", &mut out);
    assert_eq!(state.last_line_length, 4);

    state.print_data(b"done\n", &mut out);
    assert!(state.last_line_completed);
    assert_eq!(state.last_line_length, 0);
}

#[test]
fn unterminated_chunk_width_wraps_at_the_terminal_width() {
    let mut state = LineState::new("> ".to_string(), (10, 24));
    let mut out = Vec::new();
    // Twelve columns of text on a ten-column terminal: the carried width is
    // reduced modulo the width and an extra row is opened.
    state.print_data(b"abcdefghijkl", &mut out);
    assert!(!state.last_line_completed);
    assert_eq!(state.last_line_length, 2);
}

#[test]
fn wrapped_cursor_positions_move_up_one_row_per_wrap() {
    let mut state = LineState::new("> ".to_string(), (5, 24));
    let mut out = Vec::new();
    type_str(&mut state, "abcdef", &mut out);
    // Column 8 on a five-column terminal: one wrapped row.
    assert_eq!(state.current_column, 8);

    let mut cleared = Vec::new();
    state.clear(&mut cleared);
    let mut expected: Vec<u8> = Vec::new();
    expected.queue(crossterm::cursor::MoveToColumn(0)).unwrap();
    expected.queue(crossterm::cursor::MoveUp(1)).unwrap();
    expected
        .queue(crossterm::terminal::Clear(crossterm::terminal::ClearType::FromCursorDown))
        .unwrap();
    assert_eq!(cleared, expected);
}

#[test]
fn resize_updates_geometry_and_redraws() {
    let mut state = LineState::new("> ".to_string(), (80, 24));
    let mut out = Vec::new();
    assert_eq!(state.handle_event(Event::Resize(40, 12), &mut out), None);
    assert_eq!(state.term_size, (40, 12));
    // A zero-column resize is clamped to one column.
    assert_eq!(state.handle_event(Event::Resize(0, 12), &mut out), None);
    assert_eq!(state.term_size, (1, 12));
}

#[test]
fn combining_scalar_merges_into_previous_cluster() {
    let mut state = LineState::new("> ".to_string(), (80, 24));
    let mut out = Vec::new();
    state.handle_event(key(KeyCode::Char('e')), &mut out);
    // U+0301 combining acute accent merges with the 'e'.
    state.handle_event(key(KeyCode::Char('\u{301}')), &mut out);
    assert_eq!(state.line.len(), 1);
    assert_eq!(state.line_cursor_grapheme, 1);
    assert_eq!(line_text(&state), "e\u{301}");
}

#[test]
fn key_releases_are_ignored() {
    let mut state = LineState::new("> ".to_string(), (80, 24));
    let mut out = Vec::new();
    let release = Event::Key { code: KeyCode::Char('x'), control: false, press: false };
    assert_eq!(state.handle_event(release, &mut out), None);
    assert_eq!(state.line.len(), 0);
    assert!(out.is_empty());
}

#[test]
fn update_prompt_remeasures_the_prompt() {
    let mut state = LineState::new("> ".to_string(), (80, 24));
    let mut out = Vec::new();
    type_str(&mut state, "hi", &mut out);
    state.update_prompt("longer> ", &mut out);
    assert_eq!(state.prompt, "longer> ");
    assert_eq!(state.prompt_len, 8);
    assert_eq!(state.current_column, 10);
    assert_eq!(line_text(&state), "hi");
}
