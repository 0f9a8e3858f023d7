use oxidecord::app::{AttachmentInfo, MessageInfo};
use oxidecord::virtual_list::{estimate_message_height, scaled_image_size, SizeTable};

fn message(content: &str) -> MessageInfo {
    MessageInfo {
        id: 1,
        content: content.to_string(),
        author_name: "alice".to_string(),
        author_id: 7,
        author_avatar_url: None,
        timestamp: "1700000000".to_string(),
        attachments: Vec::new(),
    }
}

fn image_attachment(width: Option<u64>, height: Option<u64>) -> AttachmentInfo {
    AttachmentInfo {
        url: "https://example.test/cat.png".to_string(),
        filename: "cat.png".to_string(),
        content_type: Some("image/png".to_string()),
        width,
        height,
    }
}

#[test]
fn visible_range_of_uniform_items() {
    // 100 items of height 60, viewport 600, scroll offset 1200: exactly
    // the items [20, 30) are visible, and item 20 sits at offset 1200.
    let messages: Vec<MessageInfo> = (0..100).map(|_| message("hi")).collect();
    let mut table = SizeTable::new();
    table.rebuild(&messages);
    assert_eq!(table.len(), 100);
    assert_eq!(table.item_extent(0), 60);
    assert_eq!(table.total_extent(), 6000);
    let (lo, hi, offset) = table.compute_visible_range(1200, 600);
    assert_eq!((lo, hi, offset), (20, 30, 1200));
}

#[test]
fn visible_range_of_empty_collection_is_empty() {
    let table = SizeTable::new();
    let (lo, hi, offset) = table.compute_visible_range(0, 600);
    assert_eq!((lo, hi, offset), (0, 0, 0));
}

#[test]
fn visible_range_past_the_end_is_empty() {
    let messages: Vec<MessageInfo> = (0..10).map(|_| message("hi")).collect();
    let mut table = SizeTable::new();
    table.rebuild(&messages);
    let (lo, hi, offset) = table.compute_visible_range(10_000, 600);
    assert_eq!((lo, hi), (10, 10));
    assert_eq!(offset, 600);
}

#[test]
fn visible_range_includes_partially_visible_items() {
    let messages: Vec<MessageInfo> = (0..100).map(|_| message("hi")).collect();
    let mut table = SizeTable::new();
    table.rebuild(&messages);
    // Scrolled 30 into item 0: items 0..=10 overlap the 600-high viewport.
    let (lo, hi, offset) = table.compute_visible_range(30, 600);
    assert_eq!((lo, hi, offset), (0, 11, 0));
}

#[test]
fn zero_viewport_shows_nothing() {
    let messages: Vec<MessageInfo> = (0..10).map(|_| message("hi")).collect();
    let mut table = SizeTable::new();
    table.rebuild(&messages);
    let (lo, hi, _offset) = table.compute_visible_range(120, 0);
    assert_eq!(lo, hi);
}

#[test]
fn height_of_plain_messages() {
    // Author row 38; each wrapped line 22; wrap width 100 characters.
    assert_eq!(estimate_message_height(&message("")), 38);
    assert_eq!(estimate_message_height(&message("hello")), 60);
    let long = "x".repeat(250);
    assert_eq!(estimate_message_height(&message(&long)), 38 + 3 * 22);
    assert_eq!(estimate_message_height(&message("a\nb")), 38 + 2 * 22);
    // An empty segment between newlines still takes a line.
    assert_eq!(estimate_message_height(&message("a\n\nb")), 38 + 3 * 22);
    let exactly_one_line = "y".repeat(100);
    assert_eq!(estimate_message_height(&message(&exactly_one_line)), 60);
    let just_over = "y".repeat(101);
    assert_eq!(estimate_message_height(&message(&just_over)), 38 + 2 * 22);
}

#[test]
fn height_of_messages_with_images() {
    let mut with_image = message("");
    with_image.attachments.push(image_attachment(Some(800), Some(600)));
    // Scaled into the 400x300 box: 300 high.
    assert_eq!(estimate_message_height(&with_image), 38 + 300);

    let mut unknown_size = message("");
    unknown_size.attachments.push(image_attachment(None, None));
    // Placeholder height for unknown dimensions.
    assert_eq!(estimate_message_height(&unknown_size), 38 + 200);

    let mut not_an_image = message("");
    not_an_image.attachments.push(AttachmentInfo {
        url: "https://example.test/report.pdf".to_string(),
        filename: "report.pdf".to_string(),
        content_type: Some("application/pdf".to_string()),
        width: None,
        height: None,
    });
    // Non-image attachments are not rendered and add nothing.
    assert_eq!(estimate_message_height(&not_an_image), 38);

    let mut both = message("hello");
    both.attachments.push(image_attachment(Some(100), Some(50)));
    both.attachments.push(image_attachment(Some(200), Some(1200)));
    // 38 + one line + small image kept as-is + tall image scaled to 300.
    assert_eq!(estimate_message_height(&both), 38 + 22 + 50 + 300);
}

#[test]
fn image_scaling_preserves_aspect_ratio() {
    assert_eq!(scaled_image_size(800, 600), (400, 300));
    assert_eq!(scaled_image_size(100, 50), (100, 50));
    assert_eq!(scaled_image_size(400, 300), (400, 300));
    assert_eq!(scaled_image_size(200, 1200), (50, 300));
    assert_eq!(scaled_image_size(500, 100), (400, 80));
    assert_eq!(scaled_image_size(401, 301), (399, 300));
    // Unusable dimensions fall back to the placeholder box.
    assert_eq!(scaled_image_size(0, 5), (300, 200));
    assert_eq!(scaled_image_size(5, 0), (300, 200));
}

#[test]
fn rebuild_replaces_the_table() {
    let mut table = SizeTable::new();
    let first: Vec<MessageInfo> = (0..3).map(|_| message("hi")).collect();
    table.rebuild(&first);
    assert_eq!(table.len(), 3);
    let second: Vec<MessageInfo> = vec![message("a\nb")];
    table.rebuild(&second);
    assert_eq!(table.len(), 1);
    assert_eq!(table.item_extent(0), 38 + 2 * 22);
    assert_eq!(table.total_extent(), 82);
}
