use stu::event::{AppEventType, AppKeyInput};
use stu::object::{FileDetail, Object};
use stu::pages::object_preview::ObjectPreviewPage;

fn file_detail() -> FileDetail {
    FileDetail {
        name: "file.txt".to_string(),
        size_byte: 1024 + 10,
        last_modified: "2024-01-02T13:01:02+09:00".to_string(),
        e_tag: "bef684de-a260-48a4-8178-8a535ecccadb".to_string(),
        content_type: "text/plain".to_string(),
        storage_class: "STANDARD".to_string(),
        key: "file.txt".to_string(),
        s3_uri: "s3://bucket-1/file.txt".to_string(),
        arn: "arn:aws:s3:::bucket-1/file.txt".to_string(),
        object_url: "https://bucket-1.s3.ap-northeast-1.amazonaws.com/file.txt".to_string(),
    }
}

fn object(lines: &[&str]) -> Object {
    Object {
        content_type: "text/plain".to_string(),
        bytes: lines.join("\n").as_bytes().to_vec(),
    }
}

fn page(lines: &[&str]) -> ObjectPreviewPage {
    ObjectPreviewPage::new(file_detail(), object(lines), "file.txt".to_string())
}

#[test]
fn test_render_without_scroll() {
    let preview = [
        "Hello, world!",
        "This is a test file.",
        "This file is used for testing.",
        "Thank you!",
    ];
    let page = page(&preview);
    let rows = page.render_rows(30, 10);
    let expected = vec![
        "1 Hello, world!".to_string(),
        "2 This is a test file.".to_string(),
        "3 This file is used for".to_string(),
        "  testing.".to_string(),
        "4 Thank you!".to_string(),
    ];
    assert_eq!(rows, expected);
}

#[test]
fn test_render_with_scroll() {
    let preview = ["Hello, world!"; 20];
    let page = page(&preview);
    let rows = page.render_rows(30, 10);
    assert_eq!(rows.len(), 8);
    for (i, row) in rows.iter().enumerate() {
        assert_eq!(*row, format!(" {} Hello, world!", i + 1));
    }
}

#[test]
fn test_render_save_dialog_without_scroll() {
    let preview = [
        "Hello, world!",
        "This is a test file.",
        "This file is used for testing.",
        "Thank you!",
    ];
    let mut page = page(&preview);
    let before = page.render_rows(30, 10);
    page.open_save_dialog();
    // The modal is drawn on top; it must not alter the preview rows.
    let after = page.render_rows(30, 10);
    assert_eq!(before, after);
    assert!(page.status());
    assert_eq!(page.save_dialog_key_input(), Some("".to_string()));
}

#[test]
fn test_rendering_twice_is_identical() {
    let preview = ["alpha beta gamma delta epsilon zeta eta theta", "x"];
    let mut page = page(&preview);
    page.scroll_forward();
    let first = page.render_rows(24, 6);
    let second = page.render_rows(24, 6);
    assert_eq!(first, second);
}

#[test]
fn test_save_dialog_typing_and_backspace() {
    let mut page = page(&["one", "two"]);
    page.open_save_dialog();
    page.handle_key_input(AppKeyInput::Char('a'));
    page.handle_key_input(AppKeyInput::Char('b'));
    page.handle_key_input(AppKeyInput::Char('c'));
    page.handle_key_input(AppKeyInput::Backspace);
    assert_eq!(page.save_dialog_key_input(), Some("ab".to_string()));
}

#[test]
fn test_save_dialog_swallows_help_key() {
    let mut page = page(&["one"]);
    page.open_save_dialog();
    page.handle_key_input(AppKeyInput::Char('a'));
    page.handle_key_input(AppKeyInput::Char('?'));
    assert_eq!(page.save_dialog_key_input(), Some("a".to_string()));
}

#[test]
fn test_key_input_ignored_while_dialog_closed() {
    let mut page = page(&["one"]);
    page.handle_key_input(AppKeyInput::Char('a'));
    assert_eq!(page.save_dialog_key_input(), None);
    assert!(!page.status());
}

#[test]
fn test_handle_event_routes_key_input() {
    let mut page = page(&["one"]);
    page.open_save_dialog();
    page.handle_event(AppEventType::KeyInput(AppKeyInput::Char('z')));
    page.handle_event(AppEventType::Info("ignored".to_string()));
    assert_eq!(page.save_dialog_key_input(), Some("z".to_string()));
}

#[test]
fn test_close_save_dialog_discards_buffer() {
    let mut page = page(&["one"]);
    page.open_save_dialog();
    page.handle_key_input(AppKeyInput::Char('a'));
    page.close_save_dialog();
    assert!(!page.status());
    assert_eq!(page.save_dialog_key_input(), None);
    page.open_save_dialog();
    assert_eq!(page.save_dialog_key_input(), Some("".to_string()));
}

fn first_row(page: &ObjectPreviewPage) -> String {
    page.render_rows(30, 10)[0].clone()
}

#[test]
fn test_scroll_forward_and_backward() {
    let mut page = page(&["a", "b", "c"]);
    assert_eq!(first_row(&page), "1 a");
    page.scroll_forward();
    assert_eq!(first_row(&page), "2 b");
    page.scroll_backward();
    assert_eq!(first_row(&page), "1 a");
    page.scroll_backward();
    assert_eq!(first_row(&page), "1 a");
}

#[test]
fn test_scroll_forward_clamps_at_last_line() {
    let mut page = page(&["a", "b", "c"]);
    for _ in 0..10 {
        page.scroll_forward();
    }
    assert_eq!(first_row(&page), "3 c");
}

#[test]
fn test_scroll_to_top_and_to_end() {
    let mut page = page(&["a", "b", "c", "d"]);
    page.scroll_to_end();
    assert_eq!(first_row(&page), "4 d");
    page.scroll_forward();
    assert_eq!(first_row(&page), "4 d");
    page.scroll_to_top();
    assert_eq!(first_row(&page), "1 a");
    page.scroll_backward();
    assert_eq!(first_row(&page), "1 a");
}

#[test]
fn test_preview_getters() {
    let page = page(&["a"]);
    assert_eq!(page.file_detail().name, "file.txt");
    assert_eq!(page.object().content_type, "text/plain");
    assert_eq!(page.path(), "file.txt");
}

#[test]
fn test_empty_line_occupies_one_row() {
    let page = page(&["a", "", "b"]);
    let rows = page.render_rows(30, 10);
    assert_eq!(
        rows,
        vec!["1 a".to_string(), "2 ".to_string(), "3 b".to_string()]
    );
}

#[test]
fn test_non_text_content_gets_placeholder() {
    let object = Object {
        content_type: "image/png".to_string(),
        bytes: vec![0x89, 0x50, 0x4e, 0x47],
    };
    let page = ObjectPreviewPage::new(file_detail(), object, "img.png".to_string());
    let rows = page.render_rows(50, 10);
    assert_eq!(rows, vec!["1 (no preview for this content type)".to_string()]);
}
