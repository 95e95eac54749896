use vstd::prelude::*;
use crate::text::{decimal, signed_decimal, push_decimal, push_signed_decimal};

verus! {

broadcast use vstd::std_specs::vec::group_vec_axioms;

/// One argument of a bus call, in the closed set of shapes that the bus
/// payload format allows.
pub enum ArgValue {
    Str(String),
    ObjectPath(String),
    Signature(String),
    Bool(bool),
    Byte(u8),
    Int(i64),
    UInt(u64),
    /// A double, held as the decimal text that the transport produced for it.
    Double(String),
    UnixFd(i32),
    Array(Vec<ArgValue>),
    Struct(Vec<ArgValue>),
    Dict(Vec<(ArgValue, ArgValue)>),
    Variant(Box<ArgValue>),
}

/// The human-readable text of an argument value. Strings, object paths and
/// signatures are their own text; containers list their items between
/// brackets, separated by ", ".
pub open spec fn render(v: ArgValue) -> Seq<char>
    decreases v, 0nat,
{
    match v {
        ArgValue::Str(s) => s@,
        ArgValue::ObjectPath(s) => s@,
        ArgValue::Signature(s) => s@,
        ArgValue::Bool(b) => if b {
            seq!['t', 'r', 'u', 'e']
        } else {
            seq!['f', 'a', 'l', 's', 'e']
        },
        ArgValue::Byte(b) => decimal(b as nat),
        ArgValue::Int(i) => signed_decimal(i as int),
        ArgValue::UInt(u) => decimal(u as nat),
        ArgValue::Double(s) => s@,
        ArgValue::UnixFd(fd) => signed_decimal(fd as int),
        ArgValue::Array(items) => seq!['['] + render_items(items, items.len() as nat) + seq![']'],
        ArgValue::Struct(items) => seq!['('] + render_items(items, items.len() as nat) + seq![')'],
        ArgValue::Dict(entries) => seq!['{'] + render_entries(entries, entries.len() as nat)
            + seq!['}'],
        ArgValue::Variant(inner) => render(*inner),
    }
}

/// The text of the first `n` items, separated by ", ".
pub open spec fn render_items(items: Vec<ArgValue>, n: nat) -> Seq<char>
    decreases items, n,
{
    if n == 0 || n > items.len() {
        Seq::empty()
    } else if n == 1 {
        render(items[0])
    } else {
        render_items(items, (n - 1) as nat) + seq![',', ' '] + render(items[n - 1])
    }
}

/// The text of the first `n` entries, each as "key: value", separated by ", ".
pub open spec fn render_entries(entries: Vec<(ArgValue, ArgValue)>, n: nat) -> Seq<char>
    decreases entries, n,
{
    if n == 0 || n > entries.len() {
        Seq::empty()
    } else if n == 1 {
        render_entry(entries, 0)
    } else {
        render_entries(entries, (n - 1) as nat) + seq![',', ' '] + render_entry(
            entries,
            n - 1,
        )
    }
}

/// The text of entry `i` as "key: value".
pub open spec fn render_entry(entries: Vec<(ArgValue, ArgValue)>, i: int) -> Seq<char>
    decreases entries, 0nat,
{
    if 0 <= i < entries.len() {
        render(entries[i].0) + seq![':', ' '] + render(entries[i].1)
    } else {
        Seq::empty()
    }
}

/// Appends the text of `v` to `out`.
pub fn push_arg(out: &mut String, v: &ArgValue)
    ensures
        final(out)@ == old(out)@ + render(*v),
    decreases v, 1nat,
{
    match v {
        ArgValue::Str(s) => out.append(s.as_str()),
        ArgValue::ObjectPath(s) => out.append(s.as_str()),
        ArgValue::Signature(s) => out.append(s.as_str()),
        ArgValue::Bool(b) => {
            if *b {
                out.append("true");
                proof {
                    reveal_strlit("true");
                }
            } else {
                out.append("false");
                proof {
                    reveal_strlit("false");
                }
            }
            assert(final(out)@ =~= old(out)@ + render(*v));
        },
        ArgValue::Byte(b) => push_decimal(out, *b as u64),
        ArgValue::Int(i) => push_signed_decimal(out, *i),
        ArgValue::UInt(u) => push_decimal(out, *u),
        ArgValue::Double(s) => out.append(s.as_str()),
        ArgValue::UnixFd(fd) => push_signed_decimal(out, *fd as i64),
        ArgValue::Array(items) => {
            out.push('[');
            push_items(out, items);
            out.push(']');
            assert(final(out)@ =~= old(out)@ + render(*v));
        },
        ArgValue::Struct(items) => {
            out.push('(');
            push_items(out, items);
            out.push(')');
            assert(final(out)@ =~= old(out)@ + render(*v));
        },
        ArgValue::Dict(entries) => {
            out.push('{');
            push_entries(out, entries);
            out.push('}');
            assert(final(out)@ =~= old(out)@ + render(*v));
        },
        ArgValue::Variant(inner) => push_arg(out, inner),
    }
}

/// Appends the text of all `items`, separated by ", ".
fn push_items(out: &mut String, items: &Vec<ArgValue>)
    ensures
        final(out)@ == old(out)@ + render_items(*items, items.len() as nat),
    decreases items, 0nat,
{
    let mut i: usize = 0;
    while i < items.len()
        invariant
            i <= items.len(),
            out@ == old(out)@ + render_items(*items, i as nat),
        decreases items.len() - i,
    {
        if i > 0 {
            out.push(',');
            out.push(' ');
        }
        proof {
            assert(decreases_to!(*items => items[i as int]));
        }
        push_arg(out, &items[i]);
        assert(out@ =~= old(out)@ + render_items(*items, (i + 1) as nat));
        i = i + 1;
    }
}

/// Appends the text of all `entries`, each as "key: value", separated by ", ".
fn push_entries(out: &mut String, entries: &Vec<(ArgValue, ArgValue)>)
    ensures
        final(out)@ == old(out)@ + render_entries(*entries, entries.len() as nat),
    decreases entries, 0nat,
{
    let mut i: usize = 0;
    while i < entries.len()
        invariant
            i <= entries.len(),
            out@ == old(out)@ + render_entries(*entries, i as nat),
        decreases entries.len() - i,
    {
        if i > 0 {
            out.push(',');
            out.push(' ');
        }
        let ghost mid = out@;
        let entry = &entries[i];
        proof {
            assert(decreases_to!(*entries => entries[i as int]));
            assert(decreases_to!(entries[i as int] => entries[i as int].0));
            assert(decreases_to!(entries[i as int] => entries[i as int].1));
        }
        push_arg(out, &entry.0);
        out.push(':');
        out.push(' ');
        push_arg(out, &entry.1);
        assert(out@ =~= mid + render_entry(*entries, i as int));
        assert(out@ =~= old(out)@ + render_entries(*entries, (i + 1) as nat));
        i = i + 1;
    }
}

/// The text of `v`.
pub fn render_arg(v: &ArgValue) -> (r: String)
    ensures
        r@ == render(*v),
{
    let mut out = String::new();
    push_arg(&mut out, v);
    assert(out@ =~= render(*v));
    out
}

} // verus!
