use stu::error::AppError;
use stu::event::{input_to_event, AppEventType, AppKeyInput, TerminalInput};
use stu::util::{digits, is_text_content_type, to_preview_lines};
use stu::widget::SaveDialogState;

#[test]
fn test_digit_width() {
    assert_eq!(digits(0), 1);
    assert_eq!(digits(1), 1);
    assert_eq!(digits(9), 1);
    assert_eq!(digits(10), 2);
    assert_eq!(digits(99), 2);
    assert_eq!(digits(100), 3);
    assert_eq!(digits(999), 3);
    assert_eq!(digits(1000), 4);
    assert_eq!(digits(usize::MAX), usize::MAX.to_string().len());
}

#[test]
fn test_text_content_type_check() {
    assert!(is_text_content_type("text/plain"));
    assert!(is_text_content_type("text/html"));
    assert!(!is_text_content_type("image/png"));
    assert!(!is_text_content_type("text"));
    assert!(!is_text_content_type(""));
}

#[test]
fn test_preview_lines_split() {
    let lines = to_preview_lines(b"a\nb\nc", "text/plain");
    assert_eq!(lines, vec!["a", "b", "c"]);
}

#[test]
fn test_preview_lines_strip_one_trailing_terminator() {
    // Exactly one trailing terminator is stripped, not all trailing blanks.
    let lines = to_preview_lines(b"a\nb\n", "text/plain");
    assert_eq!(lines, vec!["a", "b"]);
    let lines = to_preview_lines(b"a\n\n\n", "text/plain");
    assert_eq!(lines, vec!["a", "", ""]);
}

#[test]
fn test_preview_lines_empty_content() {
    let lines = to_preview_lines(b"", "text/plain");
    assert_eq!(lines, vec![""]);
}

#[test]
fn test_preview_lines_non_text_placeholder() {
    let lines = to_preview_lines(&[0xff, 0xfe], "application/octet-stream");
    assert_eq!(lines, vec!["(no preview for this content type)"]);
}

#[test]
fn test_preview_lines_invalid_utf8_is_replaced() {
    let lines = to_preview_lines(&[b'a', 0xff, b'b'], "text/plain");
    assert_eq!(lines, vec!["a\u{fffd}b"]);
}

#[test]
fn test_input_to_event_key() {
    let r = input_to_event(TerminalInput::Key(AppKeyInput::Char('q')));
    assert_eq!(r, Some(AppEventType::KeyInput(AppKeyInput::Char('q'))));
    let r = input_to_event(TerminalInput::Key(AppKeyInput::Backspace));
    assert_eq!(r, Some(AppEventType::KeyInput(AppKeyInput::Backspace)));
}

#[test]
fn test_input_to_event_other_and_failure() {
    assert_eq!(input_to_event(TerminalInput::Other), None);
    let r = input_to_event(TerminalInput::Failed("broken pipe".to_string()));
    assert_eq!(
        r,
        Some(AppEventType::Error(AppError {
            msg: "broken pipe".to_string()
        }))
    );
}

#[test]
fn test_app_error_new() {
    let e = AppError::new("Failed to read event");
    assert_eq!(e.msg, "Failed to read event");
}

#[test]
fn test_save_dialog_state_editing() {
    let mut s = SaveDialogState::new();
    assert_eq!(s.input(), "");
    assert_eq!(s.cursor(), 0);
    s.add_char('p');
    s.add_char('q');
    assert_eq!(s.input(), "pq");
    assert_eq!(s.cursor(), 2);
    s.delete_char();
    assert_eq!(s.input(), "p");
    s.delete_char();
    s.delete_char();
    assert_eq!(s.input(), "");
    assert_eq!(s.cursor(), 0);
}

#[test]
fn test_wrapping_matches_textwrap() {
    // The renderer's wrapped segments must be what textwrap makes of the
    // line at the content width, not the line handed back unchanged.
    let line = "This file is used for testing.";
    let wrapped = textwrap::wrap(line, 24);
    assert_eq!(wrapped, vec!["This file is used for", "testing."]);
}
