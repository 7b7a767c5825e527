use fix_zhuyin::os::{
    get_selected_text, replace_selection_with, retype_key_sequence, CaptureCycle, Chord,
    ClipboardError, CycleAction, CycleEvent, ReplaceCycle, COPY_SETTLE_MS, KEY_PAUSE_MS,
    PASTE_SETTLE_MS,
};

fn text(s: &str) -> CycleEvent {
    CycleEvent::Text(s.to_string())
}

#[test]
fn settle_delays() {
    assert_eq!(COPY_SETTLE_MS, 80);
    assert_eq!(PASTE_SETTLE_MS, 180);
    assert_eq!(KEY_PAUSE_MS, 16);
}

#[test]
fn capture_returns_the_selection_and_restores_the_clipboard() {
    let mut cycle = CaptureCycle::new();
    assert_eq!(cycle.pending(), CycleAction::ReadText);
    get_selected_text(&mut cycle, text("old clipboard"));
    assert_eq!(cycle.pending(), CycleAction::Press(Chord::Copy));
    get_selected_text(&mut cycle, CycleEvent::Done);
    assert_eq!(cycle.pending(), CycleAction::Settle(80));
    get_selected_text(&mut cycle, CycleEvent::Done);
    assert_eq!(cycle.pending(), CycleAction::ReadText);
    get_selected_text(&mut cycle, text("su3cl3"));
    assert_eq!(cycle.pending(), CycleAction::WriteText("old clipboard".to_string()));
    get_selected_text(&mut cycle, CycleEvent::Done);
    assert_eq!(cycle.pending(), CycleAction::Return("su3cl3".to_string()));
}

#[test]
fn capture_of_an_unchanged_clipboard_returns_nothing() {
    let mut cycle = CaptureCycle::new();
    get_selected_text(&mut cycle, text("same"));
    get_selected_text(&mut cycle, CycleEvent::Done);
    get_selected_text(&mut cycle, CycleEvent::Done);
    get_selected_text(&mut cycle, text("same"));
    assert_eq!(cycle.pending(), CycleAction::Return(String::new()));
}

#[test]
fn capture_with_an_empty_clipboard_before() {
    let mut cycle = CaptureCycle::new();
    get_selected_text(&mut cycle, text(""));
    get_selected_text(&mut cycle, CycleEvent::Done);
    get_selected_text(&mut cycle, CycleEvent::Done);
    get_selected_text(&mut cycle, text("picked"));
    assert_eq!(cycle.pending(), CycleAction::WriteText(String::new()));
    get_selected_text(&mut cycle, CycleEvent::Done);
    assert_eq!(cycle.pending(), CycleAction::Return("picked".to_string()));
}

#[test]
fn capture_stops_at_a_failed_snapshot() {
    let mut cycle = CaptureCycle::new();
    get_selected_text(&mut cycle, CycleEvent::Failed(ClipboardError::Open));
    assert_eq!(cycle.pending(), CycleAction::Fail(ClipboardError::Open));
}

#[test]
fn capture_stops_at_a_failed_read() {
    let mut cycle = CaptureCycle::new();
    get_selected_text(&mut cycle, text("old"));
    get_selected_text(&mut cycle, CycleEvent::Done);
    get_selected_text(&mut cycle, CycleEvent::Done);
    get_selected_text(&mut cycle, CycleEvent::Failed(ClipboardError::Read));
    assert_eq!(cycle.pending(), CycleAction::Fail(ClipboardError::Read));
}

#[test]
fn capture_stops_at_a_failed_restore() {
    let mut cycle = CaptureCycle::new();
    get_selected_text(&mut cycle, text("old"));
    get_selected_text(&mut cycle, CycleEvent::Done);
    get_selected_text(&mut cycle, CycleEvent::Done);
    get_selected_text(&mut cycle, text("new"));
    get_selected_text(&mut cycle, CycleEvent::Failed(ClipboardError::Write));
    assert_eq!(cycle.pending(), CycleAction::Fail(ClipboardError::Write));
}

#[test]
fn capture_that_is_over_stays_over() {
    let mut cycle = CaptureCycle::new();
    get_selected_text(&mut cycle, CycleEvent::Failed(ClipboardError::Read));
    get_selected_text(&mut cycle, text("late"));
    get_selected_text(&mut cycle, CycleEvent::Done);
    get_selected_text(&mut cycle, CycleEvent::Failed(ClipboardError::Write));
    assert_eq!(cycle.pending(), CycleAction::Fail(ClipboardError::Read));

    let mut cycle = CaptureCycle::new();
    get_selected_text(&mut cycle, text("a"));
    get_selected_text(&mut cycle, CycleEvent::Done);
    get_selected_text(&mut cycle, CycleEvent::Done);
    get_selected_text(&mut cycle, text("b"));
    get_selected_text(&mut cycle, CycleEvent::Done);
    get_selected_text(&mut cycle, CycleEvent::Failed(ClipboardError::Write));
    get_selected_text(&mut cycle, text("c"));
    assert_eq!(cycle.pending(), CycleAction::Return("b".to_string()));
}

#[test]
fn capture_ignores_an_event_that_is_no_answer() {
    let mut cycle = CaptureCycle::new();
    get_selected_text(&mut cycle, CycleEvent::Done);
    assert_eq!(cycle.pending(), CycleAction::ReadText);
    get_selected_text(&mut cycle, text("old"));
    get_selected_text(&mut cycle, text("stray"));
    assert_eq!(cycle.pending(), CycleAction::Press(Chord::Copy));
    get_selected_text(&mut cycle, CycleEvent::Done);
    get_selected_text(&mut cycle, text("stray"));
    assert_eq!(cycle.pending(), CycleAction::Settle(80));
    get_selected_text(&mut cycle, CycleEvent::Done);
    get_selected_text(&mut cycle, CycleEvent::Done);
    assert_eq!(cycle.pending(), CycleAction::ReadText);
    get_selected_text(&mut cycle, text("new"));
    get_selected_text(&mut cycle, text("stray"));
    assert_eq!(cycle.pending(), CycleAction::WriteText("old".to_string()));
}

#[test]
fn replace_pastes_the_text_and_restores_the_clipboard() {
    let mut cycle = ReplaceCycle::new("注音".to_string());
    assert_eq!(cycle.pending(), CycleAction::ReadText);
    replace_selection_with(&mut cycle, text("old clipboard"));
    assert_eq!(cycle.pending(), CycleAction::WriteText("注音".to_string()));
    replace_selection_with(&mut cycle, CycleEvent::Done);
    assert_eq!(cycle.pending(), CycleAction::Press(Chord::Paste));
    replace_selection_with(&mut cycle, CycleEvent::Done);
    assert_eq!(cycle.pending(), CycleAction::Settle(180));
    replace_selection_with(&mut cycle, CycleEvent::Done);
    assert_eq!(cycle.pending(), CycleAction::WriteText("old clipboard".to_string()));
    replace_selection_with(&mut cycle, CycleEvent::Done);
    assert_eq!(cycle.pending(), CycleAction::Finished);
}

#[test]
fn replace_stops_at_a_failure() {
    let mut cycle = ReplaceCycle::new("x".to_string());
    replace_selection_with(&mut cycle, CycleEvent::Failed(ClipboardError::Open));
    assert_eq!(cycle.pending(), CycleAction::Fail(ClipboardError::Open));

    let mut cycle = ReplaceCycle::new("x".to_string());
    replace_selection_with(&mut cycle, text("old"));
    replace_selection_with(&mut cycle, CycleEvent::Failed(ClipboardError::Write));
    assert_eq!(cycle.pending(), CycleAction::Fail(ClipboardError::Write));
    replace_selection_with(&mut cycle, CycleEvent::Done);
    assert_eq!(cycle.pending(), CycleAction::Fail(ClipboardError::Write));
}

#[test]
fn replace_ignores_an_event_that_is_no_answer() {
    let mut cycle = ReplaceCycle::new("x".to_string());
    replace_selection_with(&mut cycle, CycleEvent::Done);
    assert_eq!(cycle.pending(), CycleAction::ReadText);
    replace_selection_with(&mut cycle, text("old"));
    replace_selection_with(&mut cycle, text("stray"));
    assert_eq!(cycle.pending(), CycleAction::WriteText("x".to_string()));
    replace_selection_with(&mut cycle, CycleEvent::Done);
    replace_selection_with(&mut cycle, CycleEvent::Done);
    replace_selection_with(&mut cycle, CycleEvent::Done);
    replace_selection_with(&mut cycle, text("stray"));
    assert_eq!(cycle.pending(), CycleAction::WriteText("old".to_string()));
    replace_selection_with(&mut cycle, CycleEvent::Done);
    replace_selection_with(&mut cycle, CycleEvent::Done);
    assert_eq!(cycle.pending(), CycleAction::Finished);
}

#[test]
fn retype_presses_the_visible_ascii_characters() {
    assert_eq!(retype_key_sequence("su3cl3"), vec!['s', 'u', '3', 'c', 'l', '3']);
    assert_eq!(retype_key_sequence("!~;/,."), vec!['!', '~', ';', '/', ',', '.']);
    assert_eq!(retype_key_sequence("AbC"), vec!['A', 'b', 'C']);
}

#[test]
fn retype_never_presses_space_or_enter() {
    assert_eq!(retype_key_sequence("a b\nc\r\td"), vec!['a', 'b', 'c', 'd']);
    assert_eq!(retype_key_sequence(" \n"), Vec::<char>::new());
    assert_eq!(retype_key_sequence(""), Vec::<char>::new());
}

#[test]
fn retype_skips_what_is_not_ascii() {
    assert_eq!(retype_key_sequence("aㄇb\u{7f}c\u{0}é"), vec!['a', 'b', 'c']);
}

#[test]
fn clipboard_error_messages() {
    assert_eq!(ClipboardError::Open.message(), "clipboard open");
    assert_eq!(ClipboardError::Read.message(), "clipboard read");
    assert_eq!(ClipboardError::Write.message(), "set clipboard");
}
