use rustyline_async::line::{Event, KeyCode, LineState};
use rustyline_async::orchestrator::{step, LoopInput};
use rustyline_async::{ReadlineError, ReadlineEvent};

#[test]
fn terminal_wakeups_carry_the_editor_result() {
    let mut line = LineState::new("> ".to_string(), (80, 24));
    let mut out = Vec::new();
    for c in ['h', 'i'] {
        let key = Event::Key { code: KeyCode::Char(c), control: false, press: true };
        assert_eq!(step(&mut line, LoopInput::Terminal(key), &mut out), Ok(None));
    }
    let enter = Event::Key { code: KeyCode::Enter, control: false, press: true };
    assert_eq!(
        step(&mut line, LoopInput::Terminal(enter), &mut out),
        Ok(Some(ReadlineEvent::Line("hi".to_string())))
    );
}

#[test]
fn chunk_wakeups_render_and_continue() {
    let mut line = LineState::new("> ".to_string(), (80, 24));
    let mut out = Vec::new();
    let r = step(&mut line, LoopInput::Chunk(b"note\n".to_vec()), &mut out);
    assert_eq!(r, Ok(None));
    assert!(out.windows(4).any(|w| w == b"note"));
}

#[test]
fn history_append_wakeups_feed_the_history() {
    let mut line = LineState::new("> ".to_string(), (80, 24));
    let mut out = Vec::new();
    let r = step(&mut line, LoopInput::HistoryAppend("cmd".to_string()), &mut out);
    assert_eq!(r, Ok(None));
    assert!(out.is_empty());
    assert_eq!(line.history.get_entries(), &["cmd"]);
}

#[test]
fn a_closed_channel_ends_the_session_with_closed() {
    let mut line = LineState::new("> ".to_string(), (80, 24));
    let mut out = Vec::new();
    let r = step(&mut line, LoopInput::ChannelClosed, &mut out);
    assert_eq!(r, Err(ReadlineError::Closed));
    assert!(out.is_empty());
}
