use oxidash::closure::{close, close_all, inline_reply, UpstreamCall};
use oxidash::content::{ChangeKind, Content, Field, Label};
use oxidash::engine::{check_duplicates, ingest, reconcile, show_notification, Action, Event};
use oxidash::image::ImageSource;
use oxidash::layout::{resize_window, WindowFit};
use oxidash::markup::StyleClass;
use oxidash::notification::{Notification, Urgency};
use oxidash::registry::Registry;

fn request(replaces_id: u32, summary: &str, body: &str, progress: i32) -> Notification {
    Notification::create(
        "X".to_string(),
        replaces_id,
        String::new(),
        summary.to_string(),
        body.to_string(),
        Vec::new(),
        -1,
        2,
        String::new(),
        progress,
    )
}

fn label(text: &str, style: StyleClass) -> Label {
    Label { text: text.to_string(), style }
}

#[test]
fn first_notify_creates_entry_with_text_only() {
    let mut reg = Registry::new();
    assert!(reg.is_empty());
    let ev = ingest(&mut reg, request(0, "S", "B", -1), false, false);
    assert_eq!(ev, Ok(Event::Created(1)));
    assert!(!reg.is_empty());
    assert!(!reg.contains(0));
    assert_eq!(reg.len(), 1);
    let c = reg.get(1).unwrap();
    assert!(c.has_field(Field::Summary));
    assert!(c.has_field(Field::Body));
    assert!(!c.has_field(Field::Progress));
    assert!(!c.has_field(Field::Image));
    assert_eq!(c.summary, Some(label("S", StyleClass::Plain)));
    assert_eq!(c.body, Some(label("B", StyleClass::Plain)));
    assert_eq!(c.app_name, Some(label("X", StyleClass::Plain)));
    assert_eq!(c.urgency, Urgency::Normal);
    assert!(!c.inline_reply);
}

#[test]
fn second_notify_with_assigned_id_adds_progress() {
    let mut reg = Registry::new();
    let id = match ingest(&mut reg, request(0, "S", "B", -1), false, false) {
        Ok(Event::Created(id)) => id,
        other => panic!("unexpected {:?}", other),
    };
    let ev = ingest(&mut reg, request(id, "S", "B", 40), false, false).unwrap();
    match ev {
        Event::Updated(updated, kinds) => {
            assert_eq!(updated, id);
            assert_eq!(kinds.progress, ChangeKind::Replace);
            assert_eq!(kinds.image, ChangeKind::Keep);
        }
        other => panic!("unexpected {:?}", other),
    }
    assert_eq!(reg.len(), 1);
    let c = reg.get(id).unwrap();
    assert_eq!(c.progress, Some(40));
    assert_eq!(c.summary, Some(label("S", StyleClass::Plain)));
    assert_eq!(c.body, Some(label("B", StyleClass::Plain)));
}

#[test]
fn zero_id_always_creates() {
    let mut reg = Registry::new();
    for _ in 0..3 {
        let n = request(0, "S", "", -1);
        assert_eq!(reconcile(&n, &reg), Action::Create);
        assert!(!check_duplicates(&n, &reg));
        assert!(matches!(ingest(&mut reg, n, false, false), Ok(Event::Created(_))));
    }
    assert_eq!(reg.len(), 3);
    let mut ids = reg.ids();
    ids.sort();
    assert_eq!(ids, vec![1, 2, 3]);
}

#[test]
fn shown_id_always_updates() {
    let mut reg = Registry::new();
    ingest(&mut reg, request(77, "S", "", -1), false, false).unwrap();
    let n = request(77, "T", "", -1);
    assert_eq!(reconcile(&n, &reg), Action::Update);
    assert!(check_duplicates(&n, &reg));
    let ev = ingest(&mut reg, n, false, false).unwrap();
    assert!(matches!(ev, Event::Updated(77, _)));
    assert_eq!(reg.len(), 1);
    assert_eq!(reg.get(77).unwrap().summary, Some(label("T", StyleClass::Plain)));
}

#[test]
fn unknown_nonzero_id_is_kept() {
    let mut reg = Registry::new();
    let r = show_notification(request(42, "S", "", -1), &mut reg, false, false);
    assert_eq!(r, Ok(42));
    assert!(reg.contains(42));
}

#[test]
fn freed_id_is_reused() {
    let mut reg = Registry::new();
    ingest(&mut reg, request(0, "a", "", -1), false, false).unwrap();
    ingest(&mut reg, request(0, "b", "", -1), false, false).unwrap();
    close(&mut reg, 1);
    assert_eq!(reg.smallest_free_id(), Some(1));
    let ev = ingest(&mut reg, request(0, "c", "", -1), false, false);
    assert_eq!(ev, Ok(Event::Created(1)));
    assert_eq!(reg.smallest_free_id(), Some(3));
}

#[test]
fn negative_progress_removes_bar() {
    let mut reg = Registry::new();
    ingest(&mut reg, request(5, "S", "", 50), false, false).unwrap();
    assert_eq!(reg.get(5).unwrap().progress, Some(50));
    let ev = ingest(&mut reg, request(5, "S", "", -1), false, false).unwrap();
    match ev {
        Event::Updated(_, kinds) => assert_eq!(kinds.progress, ChangeKind::Remove),
        other => panic!("unexpected {:?}", other),
    }
    assert_eq!(reg.get(5).unwrap().progress, None);
    assert!(!reg.get(5).unwrap().has_field(Field::Progress));
}

#[test]
fn zero_progress_boundary() {
    let mut reg = Registry::new();
    // a new notification with 0 shows an empty bar
    ingest(&mut reg, request(1, "S", "", 0), false, false).unwrap();
    assert_eq!(reg.get(1).unwrap().progress, Some(0));
    // an update with 0 keeps a bar as it was
    ingest(&mut reg, request(2, "S", "", 50), false, false).unwrap();
    ingest(&mut reg, request(2, "S", "", 0), false, false).unwrap();
    assert_eq!(reg.get(2).unwrap().progress, Some(50));
    // an update with 0 adds no bar
    ingest(&mut reg, request(3, "S", "", -1), false, false).unwrap();
    let ev = ingest(&mut reg, request(3, "S", "", 0), false, false).unwrap();
    match ev {
        Event::Updated(_, kinds) => assert_eq!(kinds.progress, ChangeKind::Keep),
        other => panic!("unexpected {:?}", other),
    }
    assert_eq!(reg.get(3).unwrap().progress, None);
}

#[test]
fn empty_text_removes_label() {
    let mut reg = Registry::new();
    ingest(&mut reg, request(9, "S", "B", -1), false, false).unwrap();
    let ev = ingest(&mut reg, request(9, "", "B2", -1), false, false).unwrap();
    match ev {
        Event::Updated(_, kinds) => {
            assert_eq!(kinds.summary, ChangeKind::Remove);
            assert_eq!(kinds.body, ChangeKind::Replace);
        }
        other => panic!("unexpected {:?}", other),
    }
    let c = reg.get(9).unwrap();
    assert_eq!(c.summary, None);
    assert_eq!(c.body, Some(label("B2", StyleClass::Plain)));
}

#[test]
fn same_diff_twice_is_idempotent() {
    let mut c = Content::create(request(0, "S", "B", 50), false, false);
    let mut n = request(0, "<i>T</i>", "", -1);
    n.app_icon = "dialog-info".to_string();
    let d1 = c.diff(n.clone(), false, false);
    let d2 = c.diff(n, false, false);
    c.apply(d1);
    let once = c.clone();
    c.apply(d2);
    assert_eq!(c, once);
    assert_eq!(once.summary, Some(label("T", StyleClass::Italic)));
    assert_eq!(once.body, None);
    assert_eq!(once.progress, None);
    assert_eq!(once.image, Some(ImageSource::Icon("dialog-info".to_string())));
}

#[test]
fn image_removed_when_no_path_or_icon() {
    let mut reg = Registry::new();
    let mut n = request(4, "S", "", -1);
    n.app_icon = "dialog-info".to_string();
    ingest(&mut reg, n, false, false).unwrap();
    assert!(reg.get(4).unwrap().has_field(Field::Image));
    let ev = ingest(&mut reg, request(4, "S", "", -1), false, false).unwrap();
    match ev {
        Event::Updated(_, kinds) => assert_eq!(kinds.image, ChangeKind::Remove),
        other => panic!("unexpected {:?}", other),
    }
    assert!(!reg.get(4).unwrap().has_field(Field::Image));
}

#[test]
fn close_all_empties_with_one_bulk_call() {
    let mut reg = Registry::new();
    for _ in 0..3 {
        ingest(&mut reg, request(0, "S", "B", -1), false, false).unwrap();
    }
    assert_eq!(reg.len(), 3);
    let out = close_all(&mut reg);
    assert_eq!(out.call, UpstreamCall::RemoveAllNotifications);
    let mut removed = out.removed.clone();
    removed.sort();
    assert_eq!(removed, vec![1, 2, 3]);
    assert!(!out.container_visible);
    assert!(reg.is_empty());
    assert_eq!(reg.len(), 0);
}

#[test]
fn close_one_keeps_container_until_last() {
    let mut reg = Registry::new();
    ingest(&mut reg, request(0, "a", "", -1), false, false).unwrap();
    ingest(&mut reg, request(0, "b", "", -1), false, false).unwrap();
    let first = close(&mut reg, 1);
    assert_eq!(first.call, Some(UpstreamCall::CloseNotification(1)));
    assert!(first.removed.is_some());
    assert!(first.container_visible);
    let second = close(&mut reg, 2);
    assert!(!second.container_visible);
    assert!(reg.is_empty());
    let again = close(&mut reg, 2);
    assert_eq!(again.call, None);
    assert!(again.removed.is_none());
}

#[test]
fn reply_sends_text_then_closes() {
    let mut reg = Registry::new();
    let mut n = request(12, "S", "", -1);
    n.actions = vec!["default".to_string(), "inline-reply".to_string()];
    ingest(&mut reg, n, false, false).unwrap();
    assert!(reg.get(12).unwrap().inline_reply);
    let out = inline_reply(&mut reg, 12, "thanks".to_string());
    assert_eq!(out.reply, UpstreamCall::InlineReply(12, "thanks".to_string()));
    assert_eq!(out.closing.call, Some(UpstreamCall::CloseNotification(12)));
    assert!(out.closing.removed.is_some());
    assert!(!reg.contains(12));
    let late = inline_reply(&mut reg, 12, "again".to_string());
    assert_eq!(late.reply, UpstreamCall::InlineReply(12, "again".to_string()));
    assert_eq!(late.closing.call, None);
    assert!(late.closing.removed.is_none());
}

#[test]
fn upstream_method_names() {
    assert_eq!(UpstreamCall::CloseNotification(3).method(), "CloseNotification");
    assert_eq!(UpstreamCall::RemoveAllNotifications.method(), "RemoveAllNotifications");
    assert_eq!(UpstreamCall::InlineReply(1, String::new()).method(), "InlineReply");
    assert_eq!(UpstreamCall::DoNotDisturb.method(), "DoNotDisturb");
    assert_eq!(UpstreamCall::ToggleNotificationCenter.method(), "ToggleNotificationCenter");
    assert_eq!(UpstreamCall::GetAllNotifications.method(), "GetAllNotifications");
}

#[test]
fn window_is_capped_when_tall() {
    assert_eq!(
        resize_window(1000),
        WindowFit { height_request: Some(1000), vexpand: false, always_scroll: true }
    );
    assert_eq!(
        resize_window(999),
        WindowFit { height_request: None, vexpand: true, always_scroll: false }
    );
}
