use vstd::prelude::*;
use crate::arg::{ArgValue, render, render_arg};
use crate::text::{decimal, digit, digit_char, push_decimal};

verus! {

/// One observed notification: the program that asked for it, its title and
/// body, and the time of observation in seconds since the Unix epoch.
pub struct Record {
    pub program: String,
    pub title: String,
    pub body: String,
    pub timestamp: u64,
}

/// Why a call's arguments could not be read as a notification.
#[derive(PartialEq, Eq, Structural, Clone, Copy, Debug)]
pub enum ExtractionError {
    /// The argument at this position is absent.
    MissingField(usize),
}

/// Position of the program name among the arguments of a notification call.
pub const PROGRAM_INDEX: usize = 0;

/// Position of the summary line.
pub const TITLE_INDEX: usize = 3;

/// Position of the body text.
pub const BODY_INDEX: usize = 4;

/// The texts of a record's program, title and body, and its timestamp.
pub type Fields = (Seq<char>, Seq<char>, Seq<char>, u64);

/// What extraction gives for a call with these arguments, observed at `now`:
/// the first absent position among program, title and body, or the record of
/// their texts.
pub open spec fn extraction(args: Seq<ArgValue>, now: u64) -> Result<Fields, ExtractionError> {
    if args.len() <= PROGRAM_INDEX {
        Err(ExtractionError::MissingField(PROGRAM_INDEX))
    } else if args.len() <= TITLE_INDEX {
        Err(ExtractionError::MissingField(TITLE_INDEX))
    } else if args.len() <= BODY_INDEX {
        Err(ExtractionError::MissingField(BODY_INDEX))
    } else {
        Ok(
            (
                render(args[PROGRAM_INDEX as int]),
                render(args[TITLE_INDEX as int]),
                render(args[BODY_INDEX as int]),
                now,
            ),
        )
    }
}

/// The fields of a record, in the shape that `extraction` uses.
pub open spec fn fields(r: Record) -> Fields {
    (r.program@, r.title@, r.body@, r.timestamp)
}

/// Reads a notification call's arguments into a record stamped with `now`:
/// the program from the first argument, the title from the fourth and the
/// body from the fifth, each as its text. Fails with the first of those
/// positions that is absent.
pub fn extract(args: &Vec<ArgValue>, now: u64) -> (r: Result<Record, ExtractionError>)
    ensures
        match r {
            Ok(rec) => extraction(args@, now) == Ok::<_, ExtractionError>(fields(rec)),
            Err(e) => extraction(args@, now) == Err::<Fields, _>(e),
        },
{
    if args.len() <= PROGRAM_INDEX {
        return Err(ExtractionError::MissingField(PROGRAM_INDEX));
    }
    if args.len() <= TITLE_INDEX {
        return Err(ExtractionError::MissingField(TITLE_INDEX));
    }
    if args.len() <= BODY_INDEX {
        return Err(ExtractionError::MissingField(BODY_INDEX));
    }
    let program = render_arg(&args[PROGRAM_INDEX]);
    let title = render_arg(&args[TITLE_INDEX]);
    let body = render_arg(&args[BODY_INDEX]);
    Ok(Record { program, title, body, timestamp: now })
}

/// The hexadecimal digit of `d`, in lower case.
pub open spec fn hex_char(d: nat) -> char {
    if d < 10 {
        digit_char(d)
    } else if d == 10 {
        'a'
    } else if d == 11 {
        'b'
    } else if d == 12 {
        'c'
    } else if d == 13 {
        'd'
    } else if d == 14 {
        'e'
    } else {
        'f'
    }
}

/// How one character stands inside a JSON string: quote and backslash are
/// escaped, control characters take their short escape or a `\u00XX` form,
/// and every other character stands as itself.
pub open spec fn escape_char(c: char) -> Seq<char> {
    if c == '"' {
        seq!['\\', '"']
    } else if c == '\\' {
        seq!['\\', '\\']
    } else if c == '\n' {
        seq!['\\', 'n']
    } else if c == '\r' {
        seq!['\\', 'r']
    } else if c == '\t' {
        seq!['\\', 't']
    } else if c == '\u{8}' {
        seq!['\\', 'b']
    } else if c == '\u{c}' {
        seq!['\\', 'f']
    } else if (c as u32) < 0x20 {
        seq!['\\', 'u', '0', '0', digit_char((c as u32 / 16) as nat), hex_char((c as u32 % 16) as nat)]
    } else {
        seq![c]
    }
}

/// The escaped form of a whole text.
pub open spec fn escape(s: Seq<char>) -> Seq<char>
    decreases s.len(),
{
    if s.len() == 0 {
        Seq::empty()
    } else {
        escape(s.drop_last()) + escape_char(s.last())
    }
}

/// A text as a JSON string literal.
pub open spec fn json_string(s: Seq<char>) -> Seq<char> {
    seq!['"'] + escape(s) + seq!['"']
}

/// The log line of a record with these fields: one JSON object with the
/// fields `program`, `title`, `body` and `timestamp`, ended by a newline.
pub open spec fn line_of(f: Fields) -> Seq<char> {
    "{\"program\": "@ + json_string(f.0) + ", \"title\": "@ + json_string(f.1) + ", \"body\": "@
        + json_string(f.2) + ", \"timestamp\": "@ + decimal(f.3 as nat) + "}\n"@
}

/// The log line of a record.
pub open spec fn record_line(r: Record) -> Seq<char> {
    line_of(fields(r))
}

fn hex_digit(d: u32) -> (c: char)
    requires
        d < 16,
    ensures
        c == hex_char(d as nat),
{
    if d < 10 {
        digit(d as u64)
    } else if d == 10 {
        'a'
    } else if d == 11 {
        'b'
    } else if d == 12 {
        'c'
    } else if d == 13 {
        'd'
    } else if d == 14 {
        'e'
    } else {
        'f'
    }
}

/// Appends the escaped form of `c` to `out`.
fn push_escaped_char(out: &mut String, c: char)
    ensures
        final(out)@ == old(out)@ + escape_char(c),
{
    let code: u32 = c as u32;
    if c == '"' {
        out.push('\\');
        out.push('"');
    } else if c == '\\' {
        out.push('\\');
        out.push('\\');
    } else if c == '\n' {
        out.push('\\');
        out.push('n');
    } else if c == '\r' {
        out.push('\\');
        out.push('r');
    } else if c == '\t' {
        out.push('\\');
        out.push('t');
    } else if c == '\u{8}' {
        out.push('\\');
        out.push('b');
    } else if c == '\u{c}' {
        out.push('\\');
        out.push('f');
    } else if code < 0x20 {
        out.push('\\');
        out.push('u');
        out.push('0');
        out.push('0');
        out.push(digit((code / 16) as u64));
        out.push(hex_digit(code % 16));
    } else {
        out.push(c);
    }
    assert(final(out)@ =~= old(out)@ + escape_char(c));
}

/// Appends `s` as a JSON string literal to `out`.
fn push_json_string(out: &mut String, s: &str)
    ensures
        final(out)@ == old(out)@ + json_string(s@),
{
    out.push('"');
    let ghost start = out@;
    let n = s.unicode_len();
    let mut i: usize = 0;
    while i < n
        invariant
            n == s@.len(),
            i <= n,
            out@ == start + escape(s@.subrange(0, i as int)),
        decreases n - i,
    {
        let c = s.get_char(i);
        push_escaped_char(out, c);
        proof {
            let prefix = s@.subrange(0, i as int + 1);
            assert(prefix.drop_last() =~= s@.subrange(0, i as int));
            assert(prefix.last() == c);
        }
        i = i + 1;
    }
    out.push('"');
    assert(s@.subrange(0, n as int) =~= s@);
    assert(final(out)@ =~= old(out)@ + json_string(s@));
}

/// Renders a record as its log line.
pub fn format_to_json(rec: &Record) -> (r: String)
    ensures
        r@ == record_line(*rec),
{
    let mut out = String::new();
    out.append("{\"program\": ");
    push_json_string(&mut out, rec.program.as_str());
    out.append(", \"title\": ");
    push_json_string(&mut out, rec.title.as_str());
    out.append(", \"body\": ");
    push_json_string(&mut out, rec.body.as_str());
    out.append(", \"timestamp\": ");
    push_decimal(&mut out, rec.timestamp);
    out.append("}\n");
    assert(out@ =~= record_line(*rec));
    out
}

/// With at least five arguments extraction succeeds, and the record's program,
/// title and body are the texts of the first, fourth and fifth arguments.
pub proof fn lemma_full_calls_extract(args: Seq<ArgValue>, now: u64)
    requires
        args.len() >= 5,
    ensures
        extraction(args, now) == Ok::<Fields, ExtractionError>(
            (render(args[0]), render(args[3]), render(args[4]), now),
        ),
{
}

/// With fewer than five arguments extraction fails with a missing field, and
/// so makes no record.
pub proof fn lemma_short_calls_fail(args: Seq<ArgValue>, now: u64)
    requires
        args.len() < 5,
    ensures
        extraction(args, now) matches Err(ExtractionError::MissingField(i)) && args.len() <= i
            && (i == PROGRAM_INDEX || i == TITLE_INDEX || i == BODY_INDEX),
{
}

/// Serializing is a function of the record alone: two records with the same
/// fields, such as one record serialized twice, give the same line.
pub proof fn lemma_serialize_deterministic(a: Record, b: Record)
    requires
        fields(a) == fields(b),
    ensures
        record_line(a) == record_line(b),
{
}

} // verus!
