use crate::challenge::bool_text;
use crate::json;
use crate::json::json_string_literal;
use crate::text::{decimal, push_decimal};
use crate::SortOrder;
use vstd::prelude::*;
use vstd::string::*;

verus! {

/// The view of an optional string slice.
pub open spec fn option_text(s: Option<&str>) -> Option<Seq<char>> {
    match s {
        Some(s) => Some(s@),
        None => None,
    }
}

/// The text of an optional string slice, or `default` where there is none.
pub open spec fn text_or(s: Option<&str>, default: Seq<char>) -> Seq<char> {
    match s {
        Some(s) => s@,
        None => default,
    }
}

/// `prefix` and the text, where there is a text; nothing where there is none.
pub open spec fn prefixed(prefix: Seq<char>, s: Option<&str>) -> Seq<char> {
    match s {
        Some(s) => prefix + s@,
        None => Seq::empty(),
    }
}

/// The decimal numerals of `ids`, with `sep` between each two.
pub open spec fn join_decimal(ids: Seq<u64>, sep: Seq<char>) -> Seq<char>
    decreases ids.len(),
{
    if ids.len() == 0 {
        Seq::empty()
    } else if ids.len() == 1 {
        decimal(ids[0] as nat)
    } else {
        join_decimal(ids.drop_last(), sep) + sep + decimal(ids.last() as nat)
    }
}

/// The JSON string literals of `items`, with a comma between each two.
pub open spec fn join_quoted(items: Seq<Seq<char>>) -> Seq<char>
    decreases items.len(),
{
    if items.len() == 0 {
        Seq::empty()
    } else if items.len() == 1 {
        json_string_literal(items[0])
    } else {
        join_quoted(items.drop_last()) + ","@ + json_string_literal(items.last())
    }
}

/// A JSON array of numbers.
pub open spec fn json_numbers(ids: Seq<u64>) -> Seq<char> {
    "["@ + join_decimal(ids, ","@) + "]"@
}

/// A JSON array of strings.
pub open spec fn json_strings(items: Seq<Seq<char>>) -> Seq<char> {
    "["@ + join_quoted(items) + "]"@
}

/// The texts of a slice of string slices.
pub open spec fn slice_texts(items: Seq<&str>) -> Seq<Seq<char>> {
    Seq::new(items.len(), |i: int| items[i]@)
}

/// The limit of a page as a query carries it: the number that was asked for,
/// or `default`.
pub open spec fn limit_text(limit: Option<u16>, default: u16) -> Seq<char> {
    match limit {
        Some(l) => decimal(l as nat),
        None => decimal(default as nat),
    }
}

/// The order of a page as a query carries it: the name of the order that was
/// asked for, or of the ascending one.
pub open spec fn order_text(order: Option<SortOrder>) -> Seq<char> {
    match order {
        Some(o) => o.name_spec(),
        None => SortOrder::Ascending.name_spec(),
    }
}

/// `true` or `false`, or nothing where there is no truth value.
pub open spec fn optional_bool_text(b: Option<bool>) -> Seq<char> {
    match b {
        Some(b) => bool_text(b),
        None => ""@,
    }
}

/// The limit of a page, or `default` where none was asked for.
pub fn limit_or(limit: Option<u16>, default: u16) -> (r: u16)
    ensures
        r == match limit {
            Some(l) => l,
            None => default,
        },
{
    match limit {
        Some(l) => l,
        None => default,
    }
}

/// The order of a page, or ascending where none was asked for.
pub fn order_or_default(order: Option<SortOrder>) -> (r: SortOrder)
    ensures
        r == match order {
            Some(o) => o,
            None => SortOrder::Ascending,
        },
{
    match order {
        Some(o) => o,
        None => SortOrder::Ascending,
    }
}

/// `true` or `false`, as a query string carries a truth value.
pub fn bool_name(b: bool) -> (r: &'static str)
    ensures
        r@ == bool_text(b),
{
    if b {
        "true"
    } else {
        "false"
    }
}

/// Copies a slice of bytes.
pub fn copy_bytes(bytes: &[u8]) -> (r: Vec<u8>)
    ensures
        r@ == bytes@,
{
    let mut out: Vec<u8> = Vec::new();
    let mut i: usize = 0;
    while i < bytes.len()
        invariant
            i <= bytes.len(),
            out@ == bytes@.subrange(0, i as int),
        decreases bytes.len() - i,
    {
        out.push(bytes[i]);
        assert(out@ =~= bytes@.subrange(0, i + 1));
        i = i + 1;
    }
    assert(out@ =~= bytes@);
    out
}

/// Appends the JSON string literal of `s`.
pub fn push_quoted(out: &mut String, s: &str)
    ensures
        final(out)@ == old(out)@ + json_string_literal(s@),
{
    let q = json::quote(s);
    out.append(q.as_str());
}

/// Appends `true` or `false`.
pub fn push_bool(out: &mut String, b: bool)
    ensures
        final(out)@ == old(out)@ + bool_text(b),
{
    if b {
        out.append("true");
    } else {
        out.append("false");
    }
}

/// A number as JSON writes it, or `null` where there is none.
pub open spec fn optional_number(n: Option<u64>) -> Seq<char> {
    match n {
        Some(n) => decimal(n as nat),
        None => "null"@,
    }
}

/// Appends a number, or `null` where there is none.
pub fn push_optional_number(out: &mut String, n: Option<u64>)
    ensures
        final(out)@ == old(out)@ + optional_number(n),
{
    match n {
        Some(n) => push_decimal(out, n),
        None => out.append("null"),
    }
}

/// Appends `prefix` and the text, where there is a text.
pub fn push_prefixed(out: &mut String, prefix: &str, s: Option<&str>)
    ensures
        final(out)@ == old(out)@ + prefixed(prefix@, s),
{
    match s {
        Some(s) => {
            let ghost before = out@;
            out.append(prefix);
            out.append(s);
            assert(out@ =~= before + (prefix@ + s@));
        },
        None => {
            assert(out@ =~= out@ + Seq::<char>::empty());
        },
    }
}

/// Appends the decimal numerals of `ids`, with `sep` between each two.
pub fn push_decimal_list(out: &mut String, ids: &[u64], sep: &str)
    ensures
        final(out)@ == old(out)@ + join_decimal(ids@, sep@),
{
    let ghost before = out@;
    assert(out@ =~= before + join_decimal(ids@.subrange(0, 0), sep@));
    let mut i: usize = 0;
    while i < ids.len()
        invariant
            i <= ids.len(),
            out@ == before + join_decimal(ids@.subrange(0, i as int), sep@),
        decreases ids.len() - i,
    {
        let ghost done = ids@.subrange(0, i as int);
        let ghost next = ids@.subrange(0, i + 1);
        assert(next.drop_last() =~= done);
        assert(next.last() == ids@[i as int]);
        if i > 0 {
            out.append(sep);
        }
        push_decimal(out, ids[i]);
        assert(out@ =~= before + join_decimal(next, sep@));
        i = i + 1;
    }
    assert(ids@.subrange(0, i as int) =~= ids@);
}

/// Appends a JSON array of numbers.
pub fn push_json_numbers(out: &mut String, ids: &[u64])
    ensures
        final(out)@ == old(out)@ + json_numbers(ids@),
{
    let ghost before = out@;
    out.append("[");
    push_decimal_list(out, ids, ",");
    out.append("]");
    assert(out@ =~= before + json_numbers(ids@));
}

/// Appends a JSON array of strings.
pub fn push_json_strings(out: &mut String, items: &[&str])
    ensures
        final(out)@ == old(out)@ + json_strings(slice_texts(items@)),
{
    let ghost before = out@;
    let ghost all = slice_texts(items@);
    out.append("[");
    assert(out@ =~= before + "["@ + join_quoted(all.subrange(0, 0)));
    let mut i: usize = 0;
    while i < items.len()
        invariant
            i <= items.len(),
            all == slice_texts(items@),
            out@ == before + "["@ + join_quoted(all.subrange(0, i as int)),
        decreases items.len() - i,
    {
        let ghost done = all.subrange(0, i as int);
        let ghost next = all.subrange(0, i + 1);
        assert(next.drop_last() =~= done);
        assert(next.last() == items@[i as int]@);
        if i > 0 {
            out.append(",");
        }
        push_quoted(out, items[i]);
        assert(out@ =~= before + "["@ + join_quoted(next));
        i = i + 1;
    }
    assert(all.subrange(0, i as int) =~= all);
    out.append("]");
    assert(out@ =~= before + json_strings(all));
}

/// The JSON string literals of `items`, each between `open` and `close`,
/// with a comma between each two.
pub open spec fn join_wrapped(items: Seq<Seq<char>>, open: Seq<char>, close: Seq<char>) -> Seq<char>
    decreases items.len(),
{
    if items.len() == 0 {
        Seq::empty()
    } else if items.len() == 1 {
        open + json_string_literal(items[0]) + close
    } else {
        join_wrapped(items.drop_last(), open, close) + ","@ + open + json_string_literal(
            items.last(),
        ) + close
    }
}

/// Appends the JSON string literals of `items`, each between `open` and
/// `close`, with a comma between each two.
pub fn push_wrapped(out: &mut String, items: &[&str], open: &str, close: &str)
    ensures
        final(out)@ == old(out)@ + join_wrapped(slice_texts(items@), open@, close@),
{
    let ghost before = out@;
    let ghost all = slice_texts(items@);
    assert(out@ =~= before + join_wrapped(all.subrange(0, 0), open@, close@));
    let mut i: usize = 0;
    while i < items.len()
        invariant
            i <= items.len(),
            all == slice_texts(items@),
            out@ == before + join_wrapped(all.subrange(0, i as int), open@, close@),
        decreases items.len() - i,
    {
        let ghost done = all.subrange(0, i as int);
        let ghost next = all.subrange(0, i + 1);
        assert(next.drop_last() =~= done);
        assert(next.last() == items@[i as int]@);
        if i > 0 {
            out.append(",");
        }
        out.append(open);
        push_quoted(out, items[i]);
        out.append(close);
        assert(out@ =~= before + join_wrapped(next, open@, close@));
        i = i + 1;
    }
    assert(all.subrange(0, i as int) =~= all);
}

/// The decimal numeral of an integer, with a minus sign where it is
/// negative.
pub open spec fn signed_decimal(n: int) -> Seq<char> {
    if n < 0 {
        "-"@ + decimal((-n) as nat)
    } else {
        decimal(n as nat)
    }
}

/// Appends the decimal numeral of an integer.
pub fn push_signed(out: &mut String, n: i32)
    ensures
        final(out)@ == old(out)@ + signed_decimal(n as int),
{
    let ghost before = out@;
    if n < 0 {
        let magnitude: u64 = (-(n as i64)) as u64;
        out.append("-");
        push_decimal(out, magnitude);
        assert(out@ =~= before + ("-"@ + decimal((-n) as nat)));
    } else {
        push_decimal(out, n as u64);
    }
}

} // verus!
