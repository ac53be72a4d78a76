use stu::object::{BucketItem, FileDetail, Object, ObjectItem};
use stu::pages::page::{Page, PageStack};
use stu::widget::ScrollListState;

fn file_detail() -> FileDetail {
    FileDetail {
        name: "file.txt".to_string(),
        size_byte: 1024,
        last_modified: "2024-01-02T13:01:02+09:00".to_string(),
        e_tag: "etag".to_string(),
        content_type: "text/plain".to_string(),
        storage_class: "STANDARD".to_string(),
        key: "file.txt".to_string(),
        s3_uri: "s3://bucket-1/file.txt".to_string(),
        arn: "arn:aws:s3:::bucket-1/file.txt".to_string(),
        object_url: "https://bucket-1.s3.amazonaws.com/file.txt".to_string(),
    }
}

fn preview_page(lines: &[&str]) -> Page {
    let object = Object {
        content_type: "text/plain".to_string(),
        bytes: lines.join("\n").as_bytes().to_vec(),
    };
    Page::of_object_preview(file_detail(), object, "file.txt".to_string())
}

#[test]
fn test_new_stack_has_initializing_root() {
    let stack = PageStack::new();
    assert_eq!(stack.len(), 1);
    assert!(matches!(stack.current_page(), Page::Initializing(_)));
    assert!(matches!(stack.head(), Page::Initializing(_)));
}

#[test]
fn test_push_makes_page_current() {
    let mut stack = PageStack::new();
    stack.push(Page::of_bucket_list(vec![BucketItem { name: "b1".to_string() }]));
    assert_eq!(stack.len(), 2);
    let items = stack.current_page().as_bucket_list().bucket_items();
    assert_eq!(items.len(), 1);
    assert_eq!(items[0].name, "b1");
}

#[test]
fn test_push_pop_round_trip_preserves_page_state() {
    let mut stack = PageStack::new();
    let mut preview = preview_page(&["a", "b", "c"]);
    preview.as_mut_object_preview().scroll_forward();
    stack.push(preview);

    // Navigate elsewhere and back: the preview must come back exactly as
    // it was left, scroll offset included.
    stack.push(Page::of_help(vec!["help".to_string()]));
    stack.push(Page::of_object_list(vec![ObjectItem::Dir {
        name: "dir".to_string(),
        key: "dir/".to_string(),
    }]));
    let _ = stack.pop();
    let _ = stack.pop();

    assert_eq!(stack.len(), 2);
    let page = stack.current_page().as_object_preview();
    assert_eq!(page.render_rows(30, 10)[0], "2 b");
}

#[test]
fn test_pop_returns_current_page() {
    let mut stack = PageStack::new();
    stack.push(Page::of_help(vec!["h".to_string()]));
    let popped = stack.pop();
    assert!(matches!(popped, Page::Help(_)));
    assert_eq!(stack.len(), 1);
    assert!(matches!(stack.current_page(), Page::Initializing(_)));
}

#[test]
fn test_clear_truncates_to_root_and_is_idempotent() {
    let mut stack = PageStack::new();
    stack.push(Page::of_bucket_list(vec![]));
    stack.push(Page::of_help(vec![]));
    stack.clear();
    assert_eq!(stack.len(), 1);
    assert!(matches!(stack.current_page(), Page::Initializing(_)));
    stack.clear();
    assert_eq!(stack.len(), 1);
}

#[test]
fn test_current_page_mut_reaches_top_page() {
    let mut stack = PageStack::new();
    stack.push(preview_page(&["a", "b"]));
    stack.current_page_mut().as_mut_object_preview().open_save_dialog();
    assert!(stack.current_page().as_object_preview().status());
}

#[test]
fn test_iter_lists_pages_bottom_first() {
    let mut stack = PageStack::new();
    stack.push(Page::of_bucket_list(vec![]));
    let pages = stack.iter();
    assert_eq!(pages.len(), 2);
    assert!(matches!(pages[0], Page::Initializing(_)));
    assert!(matches!(pages[1], Page::BucketList(_)));
}

#[test]
fn test_of_object_detail_holds_detail() {
    let page = Page::of_object_detail(file_detail(), vec![], vec![], ScrollListState::new());
    assert_eq!(page.as_object_detail().file_detail().name, "file.txt");
    assert!(page.as_object_detail().file_versions().is_empty());
}

#[test]
fn test_accessors_on_mutable_pages() {
    let mut page = Page::of_object_list(vec![]);
    assert!(page.as_mut_object_list().object_items().is_empty());
    let mut bucket = Page::of_bucket_list(vec![]);
    assert!(bucket.as_mut_bucket_list().bucket_items().is_empty());
    let mut detail = Page::of_object_detail(file_detail(), vec![], vec![], ScrollListState::new());
    assert_eq!(detail.as_mut_object_detail().file_detail().name, "file.txt");
    let help = Page::of_help(vec!["quit: q".to_string()]);
    match help {
        Page::Help(h) => assert_eq!(h.helps()[0], "quit: q"),
        _ => panic!("expected help page"),
    }
}
