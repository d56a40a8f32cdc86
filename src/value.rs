//! Option values, decimal integers and environment lookups.
use vstd::prelude::*;

verus! {

/// A value handed to the driver's generic "set option" protocol.
#[derive(Clone, Debug, PartialEq, Eq)]
pub enum Value {
    String(String),
    Bytes(Vec<u8>),
    Int(i64),
}

/// An option entry seen through views: its key as text, and its value.
pub open spec fn entry_view(e: (String, Value)) -> (Seq<char>, Value) {
    (e.0@, e.1)
}

/// A sequence of option entries seen through views.
pub open spec fn entries_view(s: Seq<(String, Value)>) -> Seq<(Seq<char>, Value)> {
    s.map_values(|e: (String, Value)| entry_view(e))
}

/// The entry that a text field emits under `key`: one when present, none when absent.
pub open spec fn text_entry(key: Seq<char>, v: Option<String>) -> Seq<(Seq<char>, Value)> {
    match v {
        Some(s) => seq![(key, Value::String(s))],
        None => Seq::empty(),
    }
}

/// The entry that an integer field emits under `key`: one when present, none when absent.
pub open spec fn int_entry(key: Seq<char>, v: Option<i64>) -> Seq<(Seq<char>, Value)> {
    match v {
        Some(n) => seq![(key, Value::Int(n))],
        None => Seq::empty(),
    }
}

/// 1 when the field is present, else 0.
pub open spec fn present<T>(v: Option<T>) -> nat {
    if v is Some {
        1
    } else {
        0
    }
}

/// Appends the entry of a text field to `out`.
pub fn push_text(out: &mut Vec<(String, Value)>, key: &str, v: Option<String>)
    ensures
        entries_view(final(out)@) == entries_view(old(out)@) + text_entry(key@, v),
{
    proof {
        assert(entries_view(old(out)@) + text_entry(key@, None) =~= entries_view(old(out)@));
    }
    if let Some(s) = v {
        out.push((key.to_owned(), Value::String(s)));
        proof {
            assert(entries_view(final(out)@) =~= entries_view(old(out)@) + text_entry(key@, v));
        }
    }
}

/// Appends the entry of an integer field to `out`.
pub fn push_int(out: &mut Vec<(String, Value)>, key: &str, v: Option<i64>)
    ensures
        entries_view(final(out)@) == entries_view(old(out)@) + int_entry(key@, v),
{
    proof {
        assert(entries_view(old(out)@) + int_entry(key@, None) =~= entries_view(old(out)@));
    }
    if let Some(n) = v {
        out.push((key.to_owned(), Value::Int(n)));
        proof {
            assert(entries_view(final(out)@) =~= entries_view(old(out)@) + int_entry(key@, v));
        }
    }
}

/// Appends the overflow entries `other` to `out`, in their order.
pub fn push_all(out: &mut Vec<(String, Value)>, other: Vec<(String, Value)>)
    ensures
        entries_view(final(out)@) == entries_view(old(out)@) + entries_view(other@),
{
    let mut other = other;
    let ghost start = out@;
    let ghost orig = other@;
    out.append(&mut other);
    proof {
        assert(entries_view(out@) =~= entries_view(start) + entries_view(orig));
    }
}

/// Whether `c` is an ASCII decimal digit.
pub open spec fn is_digit(c: char) -> bool {
    '0' <= c && c <= '9'
}

/// The number written by the decimal digits `s` (most significant first).
pub open spec fn digits_value(s: Seq<char>) -> int
    decreases s.len(),
{
    if s.len() == 0 {
        0
    } else {
        digits_value(s.drop_last()) * 10 + (s.last() as int - '0' as int)
    }
}

/// Whether `s` is a non-empty run of decimal digits.
pub open spec fn all_digits(s: Seq<char>) -> bool {
    s.len() > 0 && forall|i: int| 0 <= i < s.len() ==> is_digit(#[trigger] s[i])
}

/// Whether `s` starts with a sign character.
pub open spec fn has_sign(s: Seq<char>) -> bool {
    s.len() > 0 && (s[0] == '-' || s[0] == '+')
}

/// The digits of `s` after an optional leading sign.
pub open spec fn unsigned_part(s: Seq<char>) -> Seq<char> {
    if has_sign(s) {
        s.skip(1)
    } else {
        s
    }
}

/// The signed magnitude written by `s`, ignoring whether it is well formed.
pub open spec fn signed_value(s: Seq<char>) -> int {
    if s.len() > 0 && s[0] == '-' {
        -digits_value(unsigned_part(s))
    } else {
        digits_value(unsigned_part(s))
    }
}

/// The `i64` that the text `s` denotes in decimal: an optional `+` or `-`,
/// then one or more ASCII digits, and a value within the range of `i64`.
/// Any other text (blanks, underscores, an empty string) denotes none.
pub open spec fn parsed_i64(s: Seq<char>) -> Option<i64> {
    if all_digits(unsigned_part(s)) && i64::MIN <= signed_value(s) <= i64::MAX {
        Some(signed_value(s) as i64)
    } else {
        None
    }
}

/// Relies on `<i64 as FromStr>::from_str`, which accepts exactly an optional
/// sign followed by decimal digits whose value fits in `i64`.
#[verifier::external_body]
fn parse_i64(s: &str) -> (r: Option<i64>)
    ensures
        r == parsed_i64(s@),
{
    s.parse::<i64>().ok()
}

/// The `i64` that an optional text denotes, if any.
pub open spec fn parsed_int(s: Option<String>) -> Option<i64> {
    match s {
        Some(t) => parsed_i64(t@),
        None => None,
    }
}

/// Reads an optional text as a decimal `i64`; text that is absent or does
/// not denote an `i64` gives `None`.
pub fn parse_int(s: &Option<String>) -> (r: Option<i64>)
    ensures
        r == parsed_int(*s),
{
    match s {
        Some(t) => parse_i64(t.as_str()),
        None => None,
    }
}

/// The value that the environment `vars` gives the variable `name`: that of
/// the first pair whose name is `name`, if there is one.
pub open spec fn var_value(vars: Seq<(String, String)>, name: Seq<char>) -> Option<String>
    decreases vars.len(),
{
    if vars.len() == 0 {
        None
    } else if vars[0].0@ == name {
        Some(vars[0].1)
    } else {
        var_value(vars.skip(1), name)
    }
}

/// Looks up the variable `name` in the environment `vars`, given as
/// (name, value) pairs.
pub fn lookup_var(vars: &Vec<(String, String)>, name: &str) -> (r: Option<String>)
    ensures
        r == var_value(vars@, name@),
{
    let key: String = name.to_owned();
    let n: usize = vars.len();
    let mut i: usize = 0;
    assert(vars@.skip(0) =~= vars@);
    while i < n
        invariant
            n == vars@.len(),
            i <= n,
            key@ == name@,
            var_value(vars@, name@) == var_value(vars@.skip(i as int), name@),
        decreases n - i,
    {
        assert(vars@.skip(i as int)[0] == vars@[i as int]);
        assert(vars@.skip(i as int).skip(1) =~= vars@.skip(i + 1));
        if vars[i].0 == key {
            return Some(vars[i].1.clone());
        }
        i = i + 1;
    }
    assert(vars@.skip(n as int).len() == 0);
    None
}

} // verus!
