//! Canonical text rendering of values: the single place that says what
//! every leaf and container looks like inside a query fragment.
//!
//! Floating values and geometry coordinates are carried as IEEE 754 bit
//! patterns, so they render in an exact bit-level hexadecimal form
//! rather than a decimal approximation.
use vstd::prelude::*;
use vstd::string::StringExecFns;

use crate::value::Bytes;
use crate::value::Datetime;
use crate::value::Duration;
use crate::value::GeometryPoint;
use crate::value::Number;
use crate::value::Object;
use crate::value::Thing;
use crate::value::ThingView;
use crate::value::Uuid;
use crate::value::Value;
use crate::value::ValueView;

verus! {

/// Relies on String::push: appends exactly one character.
#[verifier::external_body]
pub(crate) fn push_char(s: &mut String, c: char)
    ensures
        final (s)@ == old(s)@.push(c),
{
    s.push(c);
}

/// The character for one digit, decimal or hexadecimal.
pub open spec fn spec_digit(d: int) -> char {
    if d == 0 {
        '0'
    } else if d == 1 {
        '1'
    } else if d == 2 {
        '2'
    } else if d == 3 {
        '3'
    } else if d == 4 {
        '4'
    } else if d == 5 {
        '5'
    } else if d == 6 {
        '6'
    } else if d == 7 {
        '7'
    } else if d == 8 {
        '8'
    } else if d == 9 {
        '9'
    } else if d == 10 {
        'a'
    } else if d == 11 {
        'b'
    } else if d == 12 {
        'c'
    } else if d == 13 {
        'd'
    } else if d == 14 {
        'e'
    } else {
        'f'
    }
}

fn digit_char(d: u64) -> (c: char)
    requires
        d < 16,
    ensures
        c == spec_digit(d as int),
{
    if d == 0 {
        '0'
    } else if d == 1 {
        '1'
    } else if d == 2 {
        '2'
    } else if d == 3 {
        '3'
    } else if d == 4 {
        '4'
    } else if d == 5 {
        '5'
    } else if d == 6 {
        '6'
    } else if d == 7 {
        '7'
    } else if d == 8 {
        '8'
    } else if d == 9 {
        '9'
    } else if d == 10 {
        'a'
    } else if d == 11 {
        'b'
    } else if d == 12 {
        'c'
    } else if d == 13 {
        'd'
    } else if d == 14 {
        'e'
    } else {
        'f'
    }
}

/// The decimal digits of a number, most significant first.
pub open spec fn spec_dec_digits(n: nat) -> Seq<char>
    decreases n,
{
    if n < 10 {
        seq![spec_digit(n as int)]
    } else {
        spec_dec_digits(n / 10).push(spec_digit((n % 10) as int))
    }
}

/// The decimal text of a signed number: a minus sign before the digits
/// of its magnitude.
pub open spec fn spec_i64_text(n: int) -> Seq<char> {
    if n < 0 {
        seq!['-'] + spec_dec_digits((-n) as nat)
    } else {
        spec_dec_digits(n as nat)
    }
}

/// Exactly `w` decimal digits, zero padded at the front.
pub open spec fn spec_padded_digits(n: nat, w: nat) -> Seq<char>
    decreases w,
{
    if w == 0 {
        Seq::empty()
    } else {
        spec_padded_digits(n / 10, (w - 1) as nat).push(spec_digit((n % 10) as int))
    }
}

/// Exactly `w` hexadecimal digits, zero padded at the front.
pub open spec fn spec_hex_digits(n: nat, w: nat) -> Seq<char>
    decreases w,
{
    if w == 0 {
        Seq::empty()
    } else {
        spec_hex_digits(n / 16, (w - 1) as nat).push(spec_digit((n % 16) as int))
    }
}

fn push_u64_digits(s: &mut String, n: u64)
    ensures
        final (s)@ == old(s)@ + spec_dec_digits(n as nat),
    decreases n,
{
    if n < 10 {
        push_char(s, digit_char(n));
        proof {
            assert(final (s)@ =~= old(s)@ + spec_dec_digits(n as nat));
        }
    } else {
        push_u64_digits(s, n / 10);
        push_char(s, digit_char(n % 10));
        proof {
            assert(final (s)@ =~= old(s)@ + spec_dec_digits(n as nat));
        }
    }
}

fn push_i64_text(s: &mut String, n: i64)
    ensures
        final (s)@ == old(s)@ + spec_i64_text(n as int),
{
    if n < 0 {
        push_char(s, '-');
        let wide: i128 = -(n as i128);
        let mag: u64 = wide as u64;
        push_u64_digits(s, mag);
        proof {
            assert(final (s)@ =~= old(s)@ + spec_i64_text(n as int));
        }
    } else {
        push_u64_digits(s, n as u64);
    }
}

fn push_padded_digits(s: &mut String, n: u64, w: usize)
    ensures
        final (s)@ == old(s)@ + spec_padded_digits(n as nat, w as nat),
    decreases w,
{
    if w > 0 {
        push_padded_digits(s, n / 10, w - 1);
        push_char(s, digit_char(n % 10));
        proof {
            assert(final (s)@ =~= old(s)@ + spec_padded_digits(n as nat, w as nat));
        }
    } else {
        proof {
            assert(final (s)@ =~= old(s)@ + spec_padded_digits(n as nat, 0));
        }
    }
}

fn push_hex_digits(s: &mut String, n: u128, w: usize)
    ensures
        final (s)@ == old(s)@ + spec_hex_digits(n as nat, w as nat),
    decreases w,
{
    if w > 0 {
        push_hex_digits(s, n / 16, w - 1);
        push_char(s, digit_char((n % 16) as u64));
        proof {
            assert(final (s)@ =~= old(s)@ + spec_hex_digits(n as nat, w as nat));
        }
    } else {
        proof {
            assert(final (s)@ =~= old(s)@ + spec_hex_digits(n as nat, 0));
        }
    }
}

/// A strand body with the quote and the backslash escaped.
pub open spec fn spec_escaped(s: Seq<char>) -> Seq<char>
    decreases s.len(),
{
    if s.len() == 0 {
        Seq::empty()
    } else {
        (if s[0] == '"' || s[0] == '\\' {
            seq!['\\', s[0]]
        } else {
            seq![s[0]]
        }) + spec_escaped(s.drop_first())
    }
}

/// A strand renders as its escaped body in double quotes.
pub open spec fn spec_strand_text(s: Seq<char>) -> Seq<char> {
    seq!['"'] + spec_escaped(s) + seq!['"']
}

/// An identifier renders as its table and key joined by a colon.
pub open spec fn spec_thing_text(t: ThingView) -> Seq<char> {
    t.table + seq![':'] + t.key
}

/// A boolean renders as its name.
pub open spec fn spec_bool_text(b: bool) -> Seq<char> {
    if b {
        "true"@
    } else {
        "false"@
    }
}

/// A floating value renders as its exact bit pattern in hexadecimal.
pub open spec fn spec_float_text(bits: u64) -> Seq<char> {
    "f64#"@ + spec_hex_digits(bits as nat, 16)
}

/// A number renders as decimal text for integers and as the bit-level
/// form for floating values.
pub open spec fn spec_number_text(n: Number) -> Seq<char> {
    match n {
        Number::Int(i) => spec_i64_text(i as int),
        Number::Float(bits) => spec_float_text(bits),
    }
}

/// A UUID renders as the usual five hyphen-separated hexadecimal groups.
pub open spec fn spec_uuid_text(u: Uuid) -> Seq<char> {
    spec_hex_digits((u.bits >> 96) as nat, 8) + seq!['-'] + spec_hex_digits(
        ((u.bits >> 80) & 0xffff) as nat,
        4,
    ) + seq!['-'] + spec_hex_digits(((u.bits >> 64) & 0xffff) as nat, 4) + seq!['-']
        + spec_hex_digits(((u.bits >> 48) & 0xffff) as nat, 4) + seq!['-'] + spec_hex_digits(
        (u.bits & 0xffff_ffff_ffff) as nat,
        12,
    )
}

/// A duration renders as its whole seconds, then the nanosecond
/// remainder when one is present.
pub open spec fn spec_duration_text(d: Duration) -> Seq<char> {
    spec_dec_digits(d.secs as nat) + seq!['s'] + (if d.nanos > 0 {
        spec_dec_digits(d.nanos as nat) + "ns"@
    } else {
        Seq::empty()
    })
}

/// A timestamp renders as quoted epoch seconds and a nine-digit
/// nanosecond field.
pub open spec fn spec_datetime_text(t: Datetime) -> Seq<char> {
    "d'"@ + spec_i64_text(t.seconds as int) + seq!['.'] + spec_padded_digits(t.nanos as nat, 9)
        + seq!['\'']
}

/// The hexadecimal body of a byte blob, two digits per byte.
pub open spec fn spec_bytes_hex(b: Seq<u8>) -> Seq<char>
    decreases b.len(),
{
    if b.len() == 0 {
        Seq::empty()
    } else {
        spec_hex_digits(b[0] as nat, 2) + spec_bytes_hex(b.drop_first())
    }
}

/// A byte blob renders as its quoted hexadecimal body.
pub open spec fn spec_bytes_text(b: Seq<u8>) -> Seq<char> {
    "b\""@ + spec_bytes_hex(b) + seq!['"']
}

/// A geometry point renders as its two coordinates in parentheses.
pub open spec fn spec_geometry_text(g: GeometryPoint) -> Seq<char> {
    seq!['('] + spec_float_text(g.long_bits) + ", "@ + spec_float_text(g.lat_bits) + seq![')']
}

/// What every value looks like as text. Arrays are bracketed and comma
/// separated; objects are braced, each field a bare key, a colon and the
/// field's text.
pub open spec fn spec_value_text(v: ValueView) -> Seq<char>
    decreases v, 1int,
{
    match v {
        ValueView::Absent => "NONE"@,
        ValueView::Null => "NULL"@,
        ValueView::Bool(b) => spec_bool_text(b),
        ValueView::Number(n) => spec_number_text(n),
        ValueView::Strand(s) => spec_strand_text(s),
        ValueView::Thing(t) => spec_thing_text(t),
        ValueView::Uuid(u) => spec_uuid_text(u),
        ValueView::Duration(d) => spec_duration_text(d),
        ValueView::Datetime(d) => spec_datetime_text(d),
        ValueView::Bytes(b) => spec_bytes_text(b),
        ValueView::Geometry(g) => spec_geometry_text(g),
        ValueView::Array(items) => seq!['['] + spec_members_text(items) + seq![']'],
        ValueView::Object(entries) => if entries.len() == 0 {
            "{}"@
        } else {
            seq!['{'] + spec_entries_text(entries) + seq!['}']
        },
    }
}

/// The members of an array, comma separated.
pub open spec fn spec_members_text(items: Seq<ValueView>) -> Seq<char>
    decreases items, 0int,
{
    if items.len() == 0 {
        Seq::empty()
    } else {
        spec_value_text(items[0]) + spec_members_tail(items.drop_first())
    }
}

/// The members after the first, each preceded by a separator.
pub open spec fn spec_members_tail(items: Seq<ValueView>) -> Seq<char>
    decreases items, 0int,
{
    if items.len() == 0 {
        Seq::empty()
    } else {
        ", "@ + spec_value_text(items[0]) + spec_members_tail(items.drop_first())
    }
}

/// One object field: the bare key, a colon, and the field's text.
pub open spec fn spec_entry_text(e: (Seq<char>, ValueView)) -> Seq<char>
    decreases e, 0int,
{
    e.0 + seq![':'] + spec_value_text(e.1)
}

/// The fields of an object, comma separated.
pub open spec fn spec_entries_text(entries: Seq<(Seq<char>, ValueView)>) -> Seq<char>
    decreases entries, 1int,
{
    if entries.len() == 0 {
        Seq::empty()
    } else {
        spec_entry_text(entries[0]) + spec_entries_tail(entries.drop_first())
    }
}

/// The fields after the first, each preceded by a separator.
pub open spec fn spec_entries_tail(entries: Seq<(Seq<char>, ValueView)>) -> Seq<char>
    decreases entries, 1int,
{
    if entries.len() == 0 {
        Seq::empty()
    } else {
        ", "@ + spec_entry_text(entries[0]) + spec_entries_tail(entries.drop_first())
    }
}

fn push_escaped(s: &mut String, text: &str)
    ensures
        final (s)@ == old(s)@ + spec_escaped(text@),
{
    let n = text.unicode_len();
    let mut i: usize = 0;
    proof {
        assert(text@.skip(0) =~= text@);
    }
    while i < n
        invariant
            n == text@.len(),
            i <= n,
            old(s)@ + spec_escaped(text@) == s@ + spec_escaped(text@.skip(i as int)),
        decreases n - i,
    {
        let c = text.get_char(i);
        proof {
            assert(text@.skip(i as int)[0] == text@[i as int]);
            assert(text@.skip(i as int).drop_first() =~= text@.skip(i + 1));
        }
        if c == '"' || c == '\\' {
            push_char(s, '\\');
            push_char(s, c);
        } else {
            push_char(s, c);
        }
        proof {
            assert(old(s)@ + spec_escaped(text@) =~= s@ + spec_escaped(text@.skip(i + 1)));
        }
        i = i + 1;
    }
    proof {
        assert(spec_escaped(text@.skip(n as int)) =~= Seq::<char>::empty());
        assert(old(s)@ + spec_escaped(text@) =~= s@);
    }
}

fn push_strand_text(s: &mut String, text: &str)
    ensures
        final (s)@ == old(s)@ + spec_strand_text(text@),
{
    push_char(s, '"');
    push_escaped(s, text);
    push_char(s, '"');
    proof {
        assert(final (s)@ =~= old(s)@ + spec_strand_text(text@));
    }
}

/// Renders an identifier as text.
pub fn push_thing_text(s: &mut String, t: &Thing)
    ensures
        final (s)@ == old(s)@ + spec_thing_text(t.deep_view()),
{
    s.append(t.table.as_str());
    push_char(s, ':');
    s.append(t.key.as_str());
    proof {
        assert(final (s)@ =~= old(s)@ + spec_thing_text(t.deep_view()));
    }
}

fn push_float_text(s: &mut String, bits: u64)
    ensures
        final (s)@ == old(s)@ + spec_float_text(bits),
{
    s.append("f64#");
    push_hex_digits(s, bits as u128, 16);
    proof {
        assert(final (s)@ =~= old(s)@ + spec_float_text(bits));
    }
}

fn push_uuid_text(s: &mut String, u: &Uuid)
    ensures
        final (s)@ == old(s)@ + spec_uuid_text(*u),
{
    push_hex_digits(s, u.bits >> 96, 8);
    push_char(s, '-');
    push_hex_digits(s, (u.bits >> 80) & 0xffff, 4);
    push_char(s, '-');
    push_hex_digits(s, (u.bits >> 64) & 0xffff, 4);
    push_char(s, '-');
    push_hex_digits(s, (u.bits >> 48) & 0xffff, 4);
    push_char(s, '-');
    push_hex_digits(s, u.bits & 0xffff_ffff_ffff, 12);
    proof {
        assert(final (s)@ =~= old(s)@ + spec_uuid_text(*u));
    }
}

fn push_duration_text(s: &mut String, d: &Duration)
    ensures
        final (s)@ == old(s)@ + spec_duration_text(*d),
{
    push_u64_digits(s, d.secs);
    push_char(s, 's');
    if d.nanos > 0 {
        push_u64_digits(s, d.nanos as u64);
        s.append("ns");
    }
    proof {
        assert(final (s)@ =~= old(s)@ + spec_duration_text(*d));
    }
}

fn push_datetime_text(s: &mut String, t: &Datetime)
    ensures
        final (s)@ == old(s)@ + spec_datetime_text(*t),
{
    s.append("d'");
    push_i64_text(s, t.seconds);
    push_char(s, '.');
    push_padded_digits(s, t.nanos as u64, 9);
    push_char(s, '\'');
    proof {
        assert(final (s)@ =~= old(s)@ + spec_datetime_text(*t));
    }
}

fn push_bytes_text(s: &mut String, b: &Bytes)
    ensures
        final (s)@ == old(s)@ + spec_bytes_text(b.deep_view()),
{
    s.append("b\"");
    let mut i: usize = 0;
    proof {
        assert(b.data@.skip(0) =~= b.data@);
        assert(s@ =~= old(s)@ + "b\""@);
    }
    while i < b.data.len()
        invariant
            i <= b.data.len(),
            old(s)@ + "b\""@ + spec_bytes_hex(b.data@) == s@ + spec_bytes_hex(
                b.data@.skip(i as int),
            ),
        decreases b.data.len() - i,
    {
        proof {
            assert(b.data@.skip(i as int)[0] == b.data@[i as int]);
            assert(b.data@.skip(i as int).drop_first() =~= b.data@.skip(i + 1));
        }
        push_hex_digits(s, b.data[i] as u128, 2);
        proof {
            assert(old(s)@ + "b\""@ + spec_bytes_hex(b.data@) =~= s@ + spec_bytes_hex(
                b.data@.skip(i + 1),
            ));
        }
        i = i + 1;
    }
    push_char(s, '"');
    proof {
        assert(spec_bytes_hex(b.data@.skip(b.data@.len() as int)) =~= Seq::<char>::empty());
        assert(final (s)@ =~= old(s)@ + spec_bytes_text(b.deep_view()));
    }
}

fn push_geometry_text(s: &mut String, g: &GeometryPoint)
    ensures
        final (s)@ == old(s)@ + spec_geometry_text(*g),
{
    push_char(s, '(');
    push_float_text(s, g.long_bits);
    s.append(", ");
    push_float_text(s, g.lat_bits);
    push_char(s, ')');
    proof {
        assert(final (s)@ =~= old(s)@ + spec_geometry_text(*g));
    }
}

/// Renders a value as text, appending to the buffer.
pub fn push_value_text(s: &mut String, v: &Value)
    ensures
        final (s)@ == old(s)@ + spec_value_text(v.deep_view()),
    decreases v,
{
    broadcast use {crate::value::lemma_seq_deep_view, crate::value::lemma_entries_deep_view};

    match v {
        Value::Absent => {
            s.append("NONE");
        },
        Value::Null => {
            s.append("NULL");
        },
        Value::Bool(b) => {
            if *b {
                s.append("true");
            } else {
                s.append("false");
            }
        },
        Value::Number(n) => match n {
            Number::Int(i) => push_i64_text(s, *i),
            Number::Float(bits) => push_float_text(s, *bits),
        },
        Value::Strand(text) => push_strand_text(s, text.as_str()),
        Value::Thing(t) => push_thing_text(s, t),
        Value::Uuid(u) => push_uuid_text(s, u),
        Value::Duration(d) => push_duration_text(s, d),
        Value::Datetime(d) => push_datetime_text(s, d),
        Value::Bytes(b) => push_bytes_text(s, b),
        Value::Geometry(g) => push_geometry_text(s, g),
        Value::Array(items) => {
            let ghost items_view = Value::seq_deep_view(items@);
            push_char(s, '[');
            if items.len() > 0 {
                proof {
                    vstd::std_specs::vec::axiom_vec_index_decreases(*items, 0);
                    crate::value::lemma_seq_deep_view(items@);
                    assert(items_view[0] == items@[0].deep_view());
                }
                push_value_text(s, &items[0]);
                proof {
                    assert(items_view.drop_first() =~= items_view.skip(1));
                    assert(old(s)@ + seq!['['] + spec_members_text(items_view) =~= s@
                        + spec_members_tail(items_view.skip(1)));
                }
                let mut i: usize = 1;
                while i < items.len()
                    invariant
                        *v == Value::Array(*items),
                        items_view == Value::seq_deep_view(items@),
                        items_view.len() == items@.len(),
                        1 <= i <= items@.len(),
                        old(s)@ + seq!['['] + spec_members_text(items_view) == s@
                            + spec_members_tail(items_view.skip(i as int)),
                    decreases items.len() - i,
                {
                    proof {
                        vstd::std_specs::vec::axiom_vec_index_decreases(*items, i as int);
                        assert(decreases_to!(*v => v->Array_0));
                        crate::value::lemma_seq_deep_view(items@);
                        assert(items_view.skip(i as int)[0] == items@[i as int].deep_view());
                        assert(items_view.skip(i as int).drop_first() =~= items_view.skip(i + 1));
                    }
                    s.append(", ");
                    push_value_text(s, &items[i]);
                    proof {
                        assert(old(s)@ + seq!['['] + spec_members_text(items_view) =~= s@
                            + spec_members_tail(items_view.skip(i + 1)));
                    }
                    i = i + 1;
                }
                proof {
                    assert(spec_members_tail(items_view.skip(items@.len() as int))
                        =~= Seq::<char>::empty());
                    assert(old(s)@ + seq!['['] + spec_members_text(items_view) =~= s@);
                }
            }
            push_char(s, ']');
            proof {
                assert(final (s)@ =~= old(s)@ + spec_value_text(v.deep_view()));
            }
        },
        Value::Object(o) => {
            let ghost entries_view = Value::entries_deep_view(o.entries@);
            if o.entries.len() == 0 {
                s.append("{}");
                proof {
                    assert(final (s)@ =~= old(s)@ + spec_value_text(v.deep_view()));
                }
            } else {
                push_char(s, '{');
                proof {
                    crate::value::lemma_entries_deep_view(o.entries@);
                    assert(entries_view[0] == (o.entries@[0].0@, o.entries@[0].1.deep_view()));
                    vstd::std_specs::vec::axiom_vec_index_decreases(o.entries, 0);
                }
                s.append(o.entries[0].0.as_str());
                push_char(s, ':');
                push_value_text(s, &o.entries[0].1);
                proof {
                    assert(entries_view.drop_first() =~= entries_view.skip(1));
                    assert(old(s)@ + seq!['{'] + spec_entries_text(entries_view) =~= s@
                        + spec_entries_tail(entries_view.skip(1)));
                }
                let mut i: usize = 1;
                while i < o.entries.len()
                    invariant
                        *v == Value::Object(*o),
                        entries_view == Value::entries_deep_view(o.entries@),
                        entries_view.len() == o.entries@.len(),
                        1 <= i <= o.entries@.len(),
                        old(s)@ + seq!['{'] + spec_entries_text(entries_view) == s@
                            + spec_entries_tail(entries_view.skip(i as int)),
                    decreases o.entries.len() - i,
                {
                    let ghost prev = s@;
                    proof {
                        vstd::std_specs::vec::axiom_vec_index_decreases(o.entries, i as int);
                        assert(decreases_to!(*v => v->Object_0));
                        crate::value::lemma_entries_deep_view(o.entries@);
                        assert(entries_view.skip(i as int)[0] == (
                            o.entries@[i as int].0@,
                            o.entries@[i as int].1.deep_view(),
                        ));
                        assert(entries_view.skip(i as int).drop_first() =~= entries_view.skip(
                            i + 1,
                        ));
                    }
                    s.append(", ");
                    s.append(o.entries[i].0.as_str());
                    push_char(s, ':');
                    push_value_text(s, &o.entries[i].1);
                    proof {
                        let e0 = entries_view.skip(i as int)[0];
                        assert(spec_entries_tail(entries_view.skip(i as int)) == ", "@
                            + spec_entry_text(e0) + spec_entries_tail(
                            entries_view.skip(i as int).drop_first(),
                        ));
                        assert(s@ =~= prev + ", "@ + e0.0 + seq![':'] + spec_value_text(e0.1));
                        assert(prev + (", "@ + spec_entry_text(e0) + spec_entries_tail(
                            entries_view.skip(i + 1),
                        )) =~= s@ + spec_entries_tail(entries_view.skip(i + 1)));
                        assert(old(s)@ + seq!['{'] + spec_entries_text(entries_view) =~= s@
                            + spec_entries_tail(entries_view.skip(i + 1)));
                    }
                    i = i + 1;
                }
                proof {
                    assert(spec_entries_tail(entries_view.skip(o.entries@.len() as int))
                        =~= Seq::<char>::empty());
                }
                push_char(s, '}');
                proof {
                    assert(final (s)@ =~= old(s)@ + spec_value_text(v.deep_view()));
                }
            }
        },
    }
}

/// Renders a value as a fresh text fragment.
pub fn value_text(v: &Value) -> (s: String)
    ensures
        s@ == spec_value_text(v.deep_view()),
{
    let mut s = String::new();
    push_value_text(&mut s, v);
    proof {
        assert(s@ =~= spec_value_text(v.deep_view()));
    }
    s
}

/// Renders an identifier as a fresh text fragment.
pub fn thing_text(t: &Thing) -> (s: String)
    ensures
        s@ == spec_thing_text(t.deep_view()),
{
    let mut s = String::new();
    push_thing_text(&mut s, t);
    proof {
        assert(s@ =~= spec_thing_text(t.deep_view()));
    }
    s
}

} // verus!
