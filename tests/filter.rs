use notif_tap::arg::ArgValue;
use notif_tap::message::{is_notification, text_equals, BusMessage, MessageKind};

fn message(kind: MessageKind, interface: Option<&str>, member: Option<&str>) -> BusMessage {
    BusMessage {
        kind,
        interface: interface.map(|s| s.to_string()),
        member: member.map(|s| s.to_string()),
        args: Vec::new(),
    }
}

#[test]
fn notify_call_is_notification() {
    let msg = message(MessageKind::MethodCall, Some("org.freedesktop.Notifications"), Some("Notify"));
    assert!(is_notification(&msg));
}

#[test]
fn notify_call_matches_whatever_its_arguments() {
    let mut msg = message(MessageKind::MethodCall, Some("org.freedesktop.Notifications"), Some("Notify"));
    msg.args = vec![ArgValue::Bool(false), ArgValue::Array(vec![])];
    assert!(is_notification(&msg));
}

#[test]
fn other_kinds_never_match() {
    for kind in [MessageKind::MethodReturn, MessageKind::Error, MessageKind::Signal] {
        let msg = message(kind, Some("org.freedesktop.Notifications"), Some("Notify"));
        assert!(!is_notification(&msg));
    }
}

#[test]
fn other_interface_does_not_match() {
    let msg = message(MessageKind::MethodCall, Some("org.freedesktop.DBus.Properties"), Some("Notify"));
    assert!(!is_notification(&msg));
}

#[test]
fn other_member_does_not_match() {
    let msg = message(MessageKind::MethodCall, Some("org.freedesktop.Notifications"), Some("CloseNotification"));
    assert!(!is_notification(&msg));
    let msg = message(MessageKind::MethodCall, Some("org.freedesktop.Notifications"), Some("Notif"));
    assert!(!is_notification(&msg));
}

#[test]
fn missing_names_do_not_match() {
    let msg = message(MessageKind::MethodCall, None, Some("Notify"));
    assert!(!is_notification(&msg));
    let msg = message(MessageKind::MethodCall, Some("org.freedesktop.Notifications"), None);
    assert!(!is_notification(&msg));
}

#[test]
fn text_equality() {
    assert!(text_equals("abc", "abc"));
    assert!(text_equals("", ""));
    assert!(!text_equals("abc", "abd"));
    assert!(!text_equals("abc", "ab"));
    assert!(text_equals("héllo", "héllo"));
}
