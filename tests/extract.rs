use notif_tap::arg::{render_arg, ArgValue};
use notif_tap::record::{extract, format_to_json, ExtractionError, Record};

fn s(text: &str) -> ArgValue {
    ArgValue::Str(text.to_string())
}

fn mail_args() -> Vec<ArgValue> {
    vec![
        s("mail-client"),
        ArgValue::UInt(0),
        s(""),
        s("New message"),
        s("You have mail"),
        ArgValue::Array(vec![]),
        ArgValue::Dict(vec![]),
        ArgValue::Int(5000),
    ]
}

#[test]
fn full_call_extracts_fields() {
    let rec = extract(&mail_args(), 1700000000).unwrap();
    assert_eq!(rec.program, "mail-client");
    assert_eq!(rec.title, "New message");
    assert_eq!(rec.body, "You have mail");
    assert_eq!(rec.timestamp, 1700000000);
}

#[test]
fn five_arguments_suffice() {
    let args = vec![s("a"), ArgValue::UInt(1), s("b"), s("c"), s("d")];
    let rec = extract(&args, 0).unwrap();
    assert_eq!(rec.program, "a");
    assert_eq!(rec.title, "c");
    assert_eq!(rec.body, "d");
}

#[test]
fn short_calls_report_the_first_missing_field() {
    assert_eq!(extract(&vec![], 5).err(), Some(ExtractionError::MissingField(0)));
    assert_eq!(extract(&vec![s("a"), s("b")], 5).err(), Some(ExtractionError::MissingField(3)));
    assert_eq!(extract(&vec![s("a"), s("b"), s("c")], 5).err(), Some(ExtractionError::MissingField(3)));
    assert_eq!(extract(&vec![s("a"), s("b"), s("c"), s("d")], 5).err(), Some(ExtractionError::MissingField(4)));
}

#[test]
fn non_text_arguments_are_rendered() {
    let args = vec![
        ArgValue::Variant(Box::new(s("wrapped"))),
        s(""),
        s(""),
        ArgValue::Int(-42),
        ArgValue::Bool(true),
    ];
    let rec = extract(&args, 3).unwrap();
    assert_eq!(rec.program, "wrapped");
    assert_eq!(rec.title, "-42");
    assert_eq!(rec.body, "true");
}

#[test]
fn render_scalars() {
    assert_eq!(render_arg(&ArgValue::Bool(false)), "false");
    assert_eq!(render_arg(&ArgValue::Byte(255)), "255");
    assert_eq!(render_arg(&ArgValue::Int(0)), "0");
    assert_eq!(render_arg(&ArgValue::Int(i64::MIN)), "-9223372036854775808");
    assert_eq!(render_arg(&ArgValue::UInt(u64::MAX)), "18446744073709551615");
    assert_eq!(render_arg(&ArgValue::UnixFd(-1)), "-1");
    assert_eq!(render_arg(&ArgValue::ObjectPath("/org/x".to_string())), "/org/x");
    assert_eq!(render_arg(&ArgValue::Signature("a{sv}".to_string())), "a{sv}");
    assert_eq!(render_arg(&ArgValue::Double("2.5".to_string())), "2.5");
}

#[test]
fn render_containers() {
    assert_eq!(render_arg(&ArgValue::Array(vec![])), "[]");
    assert_eq!(render_arg(&ArgValue::Array(vec![ArgValue::Int(1), ArgValue::Int(2), ArgValue::Int(3)])), "[1, 2, 3]");
    assert_eq!(render_arg(&ArgValue::Struct(vec![s("x"), ArgValue::Bool(true)])), "(x, true)");
    assert_eq!(
        render_arg(&ArgValue::Dict(vec![(s("urgency"), ArgValue::Byte(1)), (s("k"), s("v"))])),
        "{urgency: 1, k: v}"
    );
    assert_eq!(
        render_arg(&ArgValue::Array(vec![ArgValue::Struct(vec![]), ArgValue::Variant(Box::new(ArgValue::Int(7)))])),
        "[(), 7]"
    );
}

fn record(program: &str, title: &str, body: &str, timestamp: u64) -> Record {
    Record { program: program.to_string(), title: title.to_string(), body: body.to_string(), timestamp }
}

#[test]
fn record_line_has_canonical_schema() {
    let rec = record("mail-client", "New message", "You have mail", 1700000000);
    assert_eq!(
        format_to_json(&rec),
        "{\"program\": \"mail-client\", \"title\": \"New message\", \"body\": \"You have mail\", \"timestamp\": 1700000000}\n"
    );
}

#[test]
fn record_line_escapes_text() {
    let rec = record("a\"b", "c\\d", "e\nf\tg\u{1}h\u{1f}", 0);
    assert_eq!(
        format_to_json(&rec),
        "{\"program\": \"a\\\"b\", \"title\": \"c\\\\d\", \"body\": \"e\\nf\\tg\\u0001h\\u001f\", \"timestamp\": 0}\n"
    );
    let rec = record("\r\u{8}\u{c}", "é", "", 9);
    assert_eq!(
        format_to_json(&rec),
        "{\"program\": \"\\r\\b\\f\", \"title\": \"é\", \"body\": \"\", \"timestamp\": 9}\n"
    );
}

#[test]
fn serializing_twice_gives_the_same_line() {
    let rec = record("p", "t\n", "b", 12);
    assert_eq!(format_to_json(&rec), format_to_json(&rec));
}
