use rustcraft::book::{encode_book_nbt, text_component_of, BookEditor};

fn editor(pages: &[&str]) -> BookEditor {
    BookEditor {
        slot: 0,
        pages: pages.iter().map(|p| p.to_string()).collect(),
        page: 0,
        signing: false,
        title: String::new(),
        modified: true,
    }
}

#[test]
fn book_payload_round_trips_pages() {
    let editor = editor(&["First", "Second"]);
    let reopened = BookEditor::from_nbt(0, Some(&editor.nbt_payload(false, "")));
    assert_eq!(reopened.pages, ["First", "Second"]);
}

#[test]
fn trailing_empty_pages_are_not_saved() {
    let editor = editor(&["One", "", ""]);
    let reopened = BookEditor::from_nbt(3, Some(&editor.nbt_payload(false, "")));
    assert_eq!(reopened.pages, ["One"]);
    assert_eq!(reopened.slot, 3);
}

#[test]
fn books_without_nbt_open_with_one_empty_page() {
    let opened = BookEditor::from_nbt(1, None);
    assert_eq!(opened.pages, [""]);
    let garbage = BookEditor::from_nbt(1, Some(&[1u8, 2, 3][..]));
    assert_eq!(garbage.pages, [""]);
}

#[test]
fn unsigned_payload_bytes() {
    let bytes = encode_book_nbt(&["Hi".to_string()], None, None);
    assert_eq!(
        bytes,
        vec![10, 0, 0, 9, 0, 5, b'p', b'a', b'g', b'e', b's', 8, 0, 0, 0, 1, 0, 2, b'H', b'i', 0]
    );
}

#[test]
fn signed_payload_wraps_pages_as_json_text() {
    let mut e = editor(&["Say \"hi\""]);
    e.title = "  Title ".to_string();
    let bytes = e.nbt_payload(true, "Steve");
    let reopened = BookEditor::from_nbt(0, Some(&bytes));
    assert_eq!(reopened.pages, ["{\"text\":\"Say \\\"hi\\\"\"}"]);
    let text = String::from_utf8_lossy(&bytes).to_string();
    assert!(text.contains("title"));
    assert!(text.contains("Title"));
    assert!(!text.contains("  Title "));
    assert!(text.contains("Steve"));
}

#[test]
fn text_components_wrap_a_literal() {
    assert_eq!(text_component_of("\"x\""), "{\"text\":\"x\"}");
}

#[test]
fn typing_stops_at_the_page_limit_and_skips_control_characters() {
    let mut e = editor(&[""]);
    e.modified = false;
    e.insert_text("a\u{7}b\nc");
    assert_eq!(e.current_page(), "ab\nc");
    assert!(e.modified);
    let long = "x".repeat(300);
    e.insert_text(&long);
    assert_eq!(e.current_page().chars().count(), 256);
    e.backspace();
    assert_eq!(e.current_page().chars().count(), 255);
}

#[test]
fn pages_are_added_up_to_fifty() {
    let mut e = editor(&[""]);
    for _ in 0..60 {
        e.next_page();
    }
    assert_eq!(e.pages.len(), 50);
    assert_eq!(e.page, 49);
    e.previous_page();
    assert_eq!(e.page, 48);
    let mut first = editor(&[""]);
    first.previous_page();
    assert_eq!(first.page, 0);
}

#[test]
fn titles_are_limited_and_signable_once_not_blank() {
    let mut e = editor(&[""]);
    assert!(!e.can_sign());
    e.insert_title("   ");
    assert!(!e.can_sign());
    e.insert_title("A very long book title");
    assert_eq!(e.title.chars().count(), 16);
    assert!(e.can_sign());
    e.backspace_title();
    assert_eq!(e.title.chars().count(), 15);
}

#[test]
fn signed_pages_escape_control_characters() {
    let e = editor(&["a\nb\tc\\d\u{1}e\u{7f}"]);
    let reopened = BookEditor::from_nbt(0, Some(&e.nbt_payload(true, "A")));
    assert_eq!(
        reopened.pages,
        ["{\"text\":\"a\\nb\\tc\\\\d\\u0001e\u{7f}\"}"]
    );
}
