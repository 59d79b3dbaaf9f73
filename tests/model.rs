use oxidash::image::{resolve, ImageSource, ICON_SIZE, PICTURE_SIZE};
use oxidash::markup::{class_from_html, first_tag_class, remove_matches, same_text, StyleClass};
use oxidash::notification::{ImageData, Notification, Urgency};

fn pixels() -> ImageData {
    ImageData {
        width: 2,
        height: 1,
        rowstride: 6,
        has_alpha: false,
        bits_per_sample: 8,
        channels: 3,
        data: vec![1, 2, 3, 4, 5, 6],
    }
}

#[test]
fn urgency_codes() {
    assert_eq!(Urgency::from_i32(1), Some(Urgency::Low));
    assert_eq!(Urgency::from_i32(2), Some(Urgency::Normal));
    assert_eq!(Urgency::from_i32(3), Some(Urgency::Urgent));
    assert_eq!(Urgency::from_i32(4), None);
    assert_eq!(Urgency::from_wire(0), Urgency::Low);
    assert_eq!(Urgency::from_wire(-7), Urgency::Low);
    assert_eq!(Urgency::from_wire(3), Urgency::Urgent);
    assert_eq!(Urgency::Urgent.to_i32(), 3);
    assert_eq!(Urgency::Low.to_str(), "NotificationLow");
    assert_eq!(Urgency::Normal.to_str(), "NotificationNormal");
    assert_eq!(Urgency::Urgent.to_str(), "NotificationUrgent");
}

#[test]
fn create_fails_closed_on_bad_urgency() {
    let n = Notification::create(
        "app".to_string(),
        0,
        String::new(),
        "s".to_string(),
        "b".to_string(),
        vec![],
        5000,
        9,
        String::new(),
        -1,
    );
    assert_eq!(n.urgency, Urgency::Low);
    assert_eq!(n.expire_timeout, 5000);
    assert_eq!(n.image_data, None);
}

#[test]
fn wire_bitmap_sentinel() {
    let absent = ImageData::from_wire((-1, 0, 0, false, 0, 0, vec![]));
    assert_eq!(absent, None);
    let present = ImageData::from_wire((2, 1, 6, false, 8, 3, vec![1, 2, 3, 4, 5, 6]));
    assert_eq!(present, Some(pixels()));
    let n = Notification::from_wire(
        "app".to_string(),
        3,
        String::new(),
        "s".to_string(),
        String::new(),
        vec![],
        -1,
        2,
        String::new(),
        -1,
        (2, 1, 6, false, 8, 3, vec![1, 2, 3, 4, 5, 6]),
    );
    assert_eq!(n.image_data, Some(pixels()));
    assert_eq!(n.urgency, Urgency::Normal);
    assert_eq!(n.replaces_id, 3);
}

#[test]
fn bold_markup_is_stripped() {
    let (text, style) = class_from_html("<b>hi</b>");
    assert_eq!(text, "hi");
    assert_eq!(style, StyleClass::Bold);
    assert_eq!(style.css_name(), "bold");
    assert!(!text.contains('<') && !text.contains('>'));
}

#[test]
fn first_tag_decides_style() {
    let (text, style) = class_from_html("<i>a</i> and <b>b</b>");
    assert_eq!(text, "a and b");
    assert_eq!(style, StyleClass::Italic);
    let (text, style) = class_from_html("x <u>y</u>");
    assert_eq!(text, "x y");
    assert_eq!(style, StyleClass::Underline);
    let (text, style) = class_from_html("<a href=\">link</a>");
    assert_eq!(text, "link");
    assert_eq!(style, StyleClass::Plain);
    let style = first_tag_class("<h>x");
    assert_eq!(style, StyleClass::Hyperlink);
    assert_eq!(style.css_name(), "hyperlink");
    let (text, style) = class_from_html("<p>x</p>");
    assert_eq!(text, "<p>x</p>");
    assert_eq!(style, StyleClass::Plain);
    assert_eq!(style.css_name(), "");
    assert_eq!(first_tag_class("a<"), StyleClass::Plain);
    assert_eq!(first_tag_class(""), StyleClass::Plain);
    assert_eq!(first_tag_class("2 < 3 <b>"), StyleClass::Plain);
}

#[test]
fn matches_removed_left_to_right() {
    assert_eq!(remove_matches("aXbXc", "X"), "abc");
    assert_eq!(remove_matches("aaa", "aa"), "a");
    assert_eq!(remove_matches("", "<b>"), "");
    assert_eq!(remove_matches("abc", ""), "abc");
    assert_eq!(remove_matches("<<b>b>", "<b>"), "<b>");
    assert!(same_text("héllo", "héllo"));
    assert!(!same_text("hello", "hell"));
}

#[test]
fn image_file_path_wins() {
    let r = resolve(
        "/tmp/x.png".to_string(),
        "dialog-info".to_string(),
        Some(pixels()),
        true,
        false,
    );
    assert_eq!(r, Some(ImageSource::File("/tmp/x.png".to_string())));
    assert_eq!(r.unwrap().pixel_size(), PICTURE_SIZE);
}

#[test]
fn image_priority_chain() {
    let r = resolve("missing".to_string(), "dialog-info".to_string(), Some(pixels()), false, true);
    assert_eq!(r, Some(ImageSource::Icon("missing".to_string())));
    let r = resolve(String::new(), "/usr/x.png".to_string(), Some(pixels()), false, true);
    assert_eq!(r, Some(ImageSource::File("/usr/x.png".to_string())));
    let r = resolve(String::new(), "dialog-info".to_string(), Some(pixels()), false, false);
    assert_eq!(r, Some(ImageSource::Icon("dialog-info".to_string())));
    let icon = r.unwrap();
    assert_eq!(icon.pixel_size(), ICON_SIZE);
    assert_eq!(icon.css_name(), "image");
    let r = resolve(String::new(), String::new(), Some(pixels()), false, false);
    assert_eq!(r, Some(ImageSource::Pixels(pixels())));
    assert_eq!(r.unwrap().css_name(), "picture");
    assert_eq!(resolve(String::new(), String::new(), None, true, true), None);
}

#[test]
fn reply_action_detected() {
    let mut n = Notification::create(
        String::new(),
        0,
        String::new(),
        String::new(),
        String::new(),
        vec!["open".to_string()],
        -1,
        1,
        String::new(),
        -1,
    );
    assert!(!n.has_inline_reply());
    n.actions.push("inline-reply".to_string());
    assert!(n.has_inline_reply());
}

#[test]
fn well_formed_markup_shows_no_brackets() {
    let (text, style) =
        class_from_html("<u>a</u> <b>b</b><i>c</i> <a href=\">d</a></u>");
    assert_eq!(text, "a bc d");
    assert_eq!(style, StyleClass::Underline);
    assert!(!text.contains('<') && !text.contains('>'));
}
