use vstd::prelude::*;
use crate::arg::ArgValue;

verus! {

/// The kind of a bus message.
#[derive(PartialEq, Eq, Structural, Clone, Copy, Debug)]
pub enum MessageKind {
    MethodCall,
    MethodReturn,
    Error,
    Signal,
}

/// A message observed on the bus: its kind, its interface and member names
/// where it carries them, and its arguments in order.
pub struct BusMessage {
    pub kind: MessageKind,
    pub interface: Option<String>,
    pub member: Option<String>,
    pub args: Vec<ArgValue>,
}

/// The interface on which notifications are requested.
pub open spec fn notifications_interface() -> Seq<char> {
    "org.freedesktop.Notifications"@
}

/// The method that asks for a notification to be shown.
pub open spec fn notify_member() -> Seq<char> {
    "Notify"@
}

/// Whether `msg` is a request to show a notification: a method call of
/// `Notify` on the notifications interface.
pub open spec fn is_show_request(msg: BusMessage) -> bool {
    &&& msg.kind == MessageKind::MethodCall
    &&& msg.interface matches Some(i) && i@ == notifications_interface()
    &&& msg.member matches Some(m) && m@ == notify_member()
}

/// A character that may begin a bus member name.
pub open spec fn is_initial_name_char(c: char) -> bool {
    ('A' <= c && c <= 'Z') || ('a' <= c && c <= 'z') || c == '_'
}

/// A character that may follow the first one in a bus member name.
pub open spec fn is_name_char(c: char) -> bool {
    is_initial_name_char(c) || ('0' <= c && c <= '9')
}

/// A valid bus member name: 1 to 255 name characters, not starting with a digit.
pub open spec fn valid_member_name(s: Seq<char>) -> bool {
    &&& 0 < s.len() <= 255
    &&& is_initial_name_char(s[0])
    &&& forall|i: int| 1 <= i < s.len() ==> is_name_char(#[trigger] s[i])
}

/// Relies on dbus::strings::Member::new, which accepts a name exactly when
/// libdbus's dbus_validate_member does: 1 to 255 bytes, each an ASCII letter,
/// digit or underscore, the first not a digit. libdbus reads the name up to
/// its first NUL, so names holding one are left out.
#[verifier::external_body]
fn member_name_is_valid(name: &str) -> (r: bool)
    requires
        forall|i: int| 0 <= i < name@.len() ==> name@[i] != '\0',
    ensures
        r == valid_member_name(name@),
{
    dbus::strings::Member::new(name).is_ok()
}

/// Whether the two texts hold the same characters.
pub fn text_equals(a: &str, b: &str) -> (r: bool)
    ensures
        r == (a@ == b@),
{
    let n = a.unicode_len();
    if n != b.unicode_len() {
        return false;
    }
    let mut i: usize = 0;
    while i < n
        invariant
            n == a@.len(),
            n == b@.len(),
            i <= n,
            forall|j: int| 0 <= j < i ==> a@[j] == b@[j],
        decreases n - i,
    {
        if a.get_char(i) != b.get_char(i) {
            return false;
        }
        i = i + 1;
    }
    assert(a@ =~= b@);
    true
}

/// Whether `name` is present and equal to `expected`.
fn name_is(name: &Option<String>, expected: &str) -> (r: bool)
    ensures
        r == (name matches Some(n) && n@ == expected@),
{
    match name {
        Some(n) => text_equals(n.as_str(), expected),
        None => false,
    }
}

/// Classifies `msg`: true exactly for a method call of `Notify` on
/// `org.freedesktop.Notifications`. A message without an interface or member
/// name is not one. Should the target member name ever fail the bus's own
/// validation, no message matches it.
pub fn is_notification(msg: &BusMessage) -> (r: bool)
    ensures
        r == is_show_request(*msg),
{
    if msg.kind != MessageKind::MethodCall {
        return false;
    }
    if !name_is(&msg.interface, "org.freedesktop.Notifications") {
        return false;
    }
    proof {
        reveal_strlit("Notify");
    }
    if !member_name_is_valid("Notify") {
        return false;
    }
    name_is(&msg.member, "Notify")
}

/// Only method calls are notification requests: a message of any other kind
/// never matches.
pub proof fn lemma_only_method_calls_match(msg: BusMessage)
    requires
        msg.kind != MessageKind::MethodCall,
    ensures
        !is_show_request(msg),
{
}

/// A method call of `Notify` on the notifications interface always matches,
/// whatever its arguments.
pub proof fn lemma_notify_calls_match(msg: BusMessage, args: Vec<ArgValue>)
    requires
        msg.kind == MessageKind::MethodCall,
        msg.interface matches Some(i) && i@ == notifications_interface(),
        msg.member matches Some(m) && m@ == notify_member(),
    ensures
        is_show_request(msg),
        is_show_request(BusMessage { args, ..msg }),
{
}

} // verus!
