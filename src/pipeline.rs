use vstd::prelude::*;
use crate::message::{BusMessage, is_notification, is_show_request};
use crate::text::{decimal, digit_char};
use crate::record::{escape, escape_char, json_string, ExtractionError, Record, extract, extraction, fields, line_of, record_line, format_to_json};

verus! {

/// What handling one observed message asks of the log.
pub enum Outcome {
    /// The message is not a request to show a notification.
    Ignored,
    /// A notification request whose arguments could not be read: nothing is
    /// appended, and the error is for the operator.
    Dropped(ExtractionError),
    /// This line is to be appended to the log.
    Append(String),
}

/// Runs one message, observed at `now`, through the filter, the extractor and
/// the serializer.
pub fn handle_message(msg: &BusMessage, now: u64) -> (r: Outcome)
    ensures
        !is_show_request(*msg) ==> r is Ignored,
        is_show_request(*msg) ==> match extraction(msg.args@, now) {
            Err(e) => r == Outcome::Dropped(e),
            Ok(f) => r matches Outcome::Append(line) && line@ == line_of(f),
        },
{
    if !is_notification(msg) {
        return Outcome::Ignored;
    }
    match extract(&msg.args, now) {
        Err(e) => Outcome::Dropped(e),
        Ok(rec) => {
            let line = format_to_json(&rec);
            Outcome::Append(line)
        },
    }
}

/// The log after appending the lines of `records`, in order, to an empty one.
pub open spec fn log_text(records: Seq<Record>) -> Seq<char>
    decreases records.len(),
{
    if records.len() == 0 {
        Seq::empty()
    } else {
        log_text(records.drop_last()) + record_line(records.last())
    }
}

/// The number of line ends in a text.
pub open spec fn line_count(s: Seq<char>) -> nat
    decreases s.len(),
{
    if s.len() == 0 {
        0
    } else {
        line_count(s.drop_last()) + if s.last() == '\n' {
            1nat
        } else {
            0nat
        }
    }
}

proof fn lemma_line_count_concat(a: Seq<char>, b: Seq<char>)
    ensures
        line_count(a + b) == line_count(a) + line_count(b),
    decreases b.len(),
{
    if b.len() > 0 {
        assert((a + b).drop_last() =~= a + b.drop_last());
        lemma_line_count_concat(a, b.drop_last());
    } else {
        assert(a + b =~= a);
    }
}

proof fn lemma_escape_has_no_line_end(s: Seq<char>)
    ensures
        line_count(escape(s)) == 0,
    decreases s.len(),
{
    if s.len() > 0 {
        lemma_escape_has_no_line_end(s.drop_last());
        let c = s.last();
        let e = escape_char(c);
        assert(line_count(e) == 0) by {
            reveal_with_fuel(line_count, 7);
        }
        lemma_line_count_concat(escape(s.drop_last()), e);
    }
}

proof fn lemma_decimal_has_no_line_end(n: nat)
    ensures
        line_count(decimal(n)) == 0,
    decreases n,
{
    reveal_with_fuel(line_count, 2);
    if n >= 10 {
        lemma_decimal_has_no_line_end(n / 10);
        lemma_line_count_concat(decimal(n / 10), seq![digit_char(n % 10)]);
        assert(decimal(n) =~= decimal(n / 10) + seq![digit_char(n % 10)]);
    }
}

proof fn lemma_literal_line_count(s: Seq<char>, k: nat)
    requires
        k <= 1,
        forall|i: int| 0 <= i < s.len() - 1 ==> s[i] != '\n',
        s.len() > 0,
        (s.last() == '\n') == (k == 1),
    ensures
        line_count(s) == k,
{
    assert(line_count(s.drop_last()) == 0) by {
        lemma_no_line_end(s.drop_last());
    }
}

proof fn lemma_no_line_end(s: Seq<char>)
    requires
        forall|i: int| 0 <= i < s.len() ==> s[i] != '\n',
    ensures
        line_count(s) == 0,
    decreases s.len(),
{
    if s.len() > 0 {
        lemma_no_line_end(s.drop_last());
    }
}

/// Each log line holds exactly one line end, at its close.
proof fn lemma_record_line_is_one_line(r: Record)
    ensures
        line_count(record_line(r)) == 1,
{
    let f = fields(r);
    let p1 = "{\"program\": "@;
    let p2 = ", \"title\": "@;
    let p3 = ", \"body\": "@;
    let p4 = ", \"timestamp\": "@;
    let p5 = "}\n"@;
    reveal_strlit("{\"program\": ");
    reveal_strlit(", \"title\": ");
    reveal_strlit(", \"body\": ");
    reveal_strlit(", \"timestamp\": ");
    reveal_strlit("}\n");
    lemma_no_line_end(p1);
    lemma_no_line_end(p2);
    lemma_no_line_end(p3);
    lemma_no_line_end(p4);
    lemma_literal_line_count(p5, 1);
    lemma_no_line_end(seq!['"']);
    lemma_escape_has_no_line_end(f.0);
    lemma_escape_has_no_line_end(f.1);
    lemma_escape_has_no_line_end(f.2);
    lemma_decimal_has_no_line_end(f.3 as nat);
    lemma_line_count_concat(seq!['"'], escape(f.0));
    lemma_line_count_concat(seq!['"'] + escape(f.0), seq!['"']);
    lemma_line_count_concat(seq!['"'], escape(f.1));
    lemma_line_count_concat(seq!['"'] + escape(f.1), seq!['"']);
    lemma_line_count_concat(seq!['"'], escape(f.2));
    lemma_line_count_concat(seq!['"'] + escape(f.2), seq!['"']);
    let j0 = json_string(f.0);
    let j1 = json_string(f.1);
    let j2 = json_string(f.2);
    let d = decimal(f.3 as nat);
    lemma_line_count_concat(p1, j0);
    lemma_line_count_concat(p1 + j0, p2);
    lemma_line_count_concat(p1 + j0 + p2, j1);
    lemma_line_count_concat(p1 + j0 + p2 + j1, p3);
    lemma_line_count_concat(p1 + j0 + p2 + j1 + p3, j2);
    lemma_line_count_concat(p1 + j0 + p2 + j1 + p3 + j2, p4);
    lemma_line_count_concat(p1 + j0 + p2 + j1 + p3 + j2 + p4, d);
    lemma_line_count_concat(p1 + j0 + p2 + j1 + p3 + j2 + p4 + d, p5);
}

/// The log of two runs of records, one after the other, is the log of the
/// first followed by the log of the second.
pub proof fn lemma_log_concat(a: Seq<Record>, b: Seq<Record>)
    ensures
        log_text(a + b) == log_text(a) + log_text(b),
    decreases b.len(),
{
    if b.len() == 0 {
        assert(a + b =~= a);
        assert(log_text(a) + log_text(b) =~= log_text(a));
    } else {
        assert((a + b).drop_last() =~= a + b.drop_last());
        lemma_log_concat(a, b.drop_last());
        assert(log_text(a + b) =~= log_text(a) + log_text(b));
    }
}

/// The log only grows: appending a record leaves every earlier byte as it was
/// and adds that record's line at the end.
pub proof fn lemma_log_append_only(records: Seq<Record>, next: Record)
    ensures
        log_text(records.push(next)) == log_text(records) + record_line(next),
        log_text(records).is_prefix_of(log_text(records.push(next))),
{
    assert(records.push(next).drop_last() =~= records);
    assert(log_text(records).is_prefix_of(log_text(records.push(next)))) by {
        assert(log_text(records) =~= log_text(records.push(next)).subrange(
            0,
            log_text(records).len() as int,
        ));
    }
}

/// After `n` records the log holds exactly `n` lines, and the line of each
/// record stands after those of the records before it and before those of the
/// records after it.
pub proof fn lemma_log_holds_records_in_order(records: Seq<Record>)
    ensures
        line_count(log_text(records)) == records.len(),
        forall|i: int|
            0 <= i < records.len() ==> log_text(records) == log_text(records.take(i))
                + record_line(#[trigger] records[i]) + log_text(records.skip(i + 1)),
    decreases records.len(),
{
    if records.len() > 0 {
        lemma_log_holds_records_in_order(records.drop_last());
        lemma_record_line_is_one_line(records.last());
        lemma_line_count_concat(log_text(records.drop_last()), record_line(records.last()));
    }
    assert forall|i: int| 0 <= i < records.len() implies log_text(records) == log_text(
        records.take(i),
    ) + record_line(#[trigger] records[i]) + log_text(records.skip(i + 1)) by {
        lemma_log_at(records, i);
    }
}

proof fn lemma_log_at(records: Seq<Record>, i: int)
    requires
        0 <= i < records.len(),
    ensures
        log_text(records) == log_text(records.take(i)) + record_line(records[i]) + log_text(
            records.skip(i + 1),
        ),
{
    let front = records.take(i);
    let one = seq![records[i]];
    let rest = records.skip(i + 1);
    assert(records =~= front + one + rest);
    lemma_log_concat(front + one, rest);
    lemma_log_concat(front, one);
    assert(one.drop_last() =~= Seq::<Record>::empty());
    assert(one.last() == records[i]);
    assert(log_text(one.drop_last()) == Seq::<char>::empty());
    assert(log_text(one) =~= record_line(records[i]));
}

} // verus!
