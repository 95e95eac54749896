use notif_tap::arg::ArgValue;
use notif_tap::message::{BusMessage, MessageKind};
use notif_tap::pipeline::{handle_message, Outcome};
use notif_tap::record::ExtractionError;

fn notify_call(args: Vec<ArgValue>) -> BusMessage {
    BusMessage {
        kind: MessageKind::MethodCall,
        interface: Some("org.freedesktop.Notifications".to_string()),
        member: Some("Notify".to_string()),
        args,
    }
}

fn s(text: &str) -> ArgValue {
    ArgValue::Str(text.to_string())
}

#[test]
fn mail_notification_becomes_one_line() {
    let msg = notify_call(vec![
        s("mail-client"),
        ArgValue::UInt(0),
        s(""),
        s("New message"),
        s("You have mail"),
        ArgValue::Array(vec![]),
        ArgValue::Dict(vec![]),
        ArgValue::Int(5000),
    ]);
    match handle_message(&msg, 1234) {
        Outcome::Append(line) => assert_eq!(
            line,
            "{\"program\": \"mail-client\", \"title\": \"New message\", \"body\": \"You have mail\", \"timestamp\": 1234}\n"
        ),
        _ => panic!("expected a line to append"),
    }
}

#[test]
fn short_notification_is_dropped() {
    let msg = notify_call(vec![s("app"), ArgValue::UInt(0)]);
    assert!(matches!(handle_message(&msg, 1), Outcome::Dropped(ExtractionError::MissingField(3))));
}

#[test]
fn other_traffic_is_ignored() {
    let msg = BusMessage {
        kind: MessageKind::MethodCall,
        interface: Some("org.freedesktop.DBus.Properties".to_string()),
        member: Some("Get".to_string()),
        args: vec![s("a"), s("b"), s("c"), s("d"), s("e")],
    };
    assert!(matches!(handle_message(&msg, 1), Outcome::Ignored));
    let signal = BusMessage { kind: MessageKind::Signal, ..notify_call(vec![]) };
    assert!(matches!(handle_message(&signal, 1), Outcome::Ignored));
}

#[test]
fn log_grows_by_one_line_per_record_in_order() {
    let mut log = String::new();
    for (i, body) in ["first", "second\nline", "third"].iter().enumerate() {
        let msg = notify_call(vec![s("app"), ArgValue::UInt(0), s(""), s("t"), s(body)]);
        let before = log.clone();
        if let Outcome::Append(line) = handle_message(&msg, i as u64) {
            log.push_str(&line);
        } else {
            panic!("expected a line to append");
        }
        assert!(log.starts_with(&before));
    }
    assert_eq!(log.matches('\n').count(), 3);
    let lines: Vec<&str> = log.lines().collect();
    assert!(lines[0].contains("\"body\": \"first\"") && lines[0].ends_with("\"timestamp\": 0}"));
    assert!(lines[1].contains("\"body\": \"second\\nline\"") && lines[1].ends_with("\"timestamp\": 1}"));
    assert!(lines[2].contains("\"body\": \"third\"") && lines[2].ends_with("\"timestamp\": 2}"));
}
