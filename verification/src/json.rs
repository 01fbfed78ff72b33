//! The JSON boundary of the library.
//!
//! Request bodies are flat objects whose values are strings, so the
//! library encodes them itself, and the encoding is verified down to the
//! characters. Response bodies come from the server and are read through
//! a small set of trusted lookups into serde_json; each lookup's result
//! is a function of the body text alone and carries a name that the
//! response contracts are stated over.

use vstd::prelude::*;

verus! {

/// Relies on String::push, which vstd gives no specification:
/// appends exactly the one character.
pub assume_specification[ String::push ](s: &mut String, c: char)
    ensures
        final(s)@ == old(s)@.push(c),
;

/// The lowercase hexadecimal digit of `n`.
pub open spec fn hex_digit(n: int) -> char
    recommends
        0 <= n < 16,
{
    if n == 0 { '0' } else if n == 1 { '1' } else if n == 2 { '2' } else if n == 3 { '3' }
    else if n == 4 { '4' } else if n == 5 { '5' } else if n == 6 { '6' } else if n == 7 { '7' }
    else if n == 8 { '8' } else if n == 9 { '9' } else if n == 10 { 'a' } else if n == 11 { 'b' }
    else if n == 12 { 'c' } else if n == 13 { 'd' } else if n == 14 { 'e' } else { 'f' }
}

/// How one character reads inside a JSON string literal: quote and
/// backslash are escaped, the named control characters take their short
/// escapes, any other control character takes a `\u00..` escape, and
/// every other character stands as itself.
pub open spec fn escaped_char(c: char) -> Seq<char> {
    if c == '"' {
        seq!['\\', '"']
    } else if c == '\\' {
        seq!['\\', '\\']
    } else if c == '\n' {
        seq!['\\', 'n']
    } else if c == '\r' {
        seq!['\\', 'r']
    } else if c == '\t' {
        seq!['\\', 't']
    } else if (c as u32) < 32 {
        seq!['\\', 'u', '0', '0', hex_digit((c as u32) as int / 16), hex_digit((c as u32) as int % 16)]
    } else {
        seq![c]
    }
}

/// The characters of `s`, each escaped for a JSON string literal.
pub open spec fn escaped(s: Seq<char>) -> Seq<char>
    decreases s.len(),
{
    if s.len() == 0 {
        Seq::empty()
    } else {
        escaped(s.drop_last()) + escaped_char(s.last())
    }
}

/// A JSON string literal holding `s`.
pub open spec fn quoted(s: Seq<char>) -> Seq<char> {
    seq!['"'] + escaped(s) + seq!['"']
}

/// The views of a sequence of string pairs.
pub open spec fn pair_views(pairs: Seq<(String, String)>) -> Seq<(Seq<char>, Seq<char>)> {
    pairs.map_values(|p: (String, String)| (p.0@, p.1@))
}

/// The members of a JSON object built from `pairs`, in order, separated
/// by commas.
pub open spec fn members_text(pairs: Seq<(Seq<char>, Seq<char>)>) -> Seq<char>
    decreases pairs.len(),
{
    if pairs.len() == 0 {
        Seq::empty()
    } else if pairs.len() == 1 {
        quoted(pairs[0].0) + seq![':'] + quoted(pairs[0].1)
    } else {
        members_text(pairs.drop_last()) + seq![','] + quoted(pairs.last().0) + seq![':'] + quoted(
            pairs.last().1,
        )
    }
}

/// The text of a JSON object whose members are `pairs`, in order.
pub open spec fn object_text(pairs: Seq<(Seq<char>, Seq<char>)>) -> Seq<char> {
    seq!['{'] + members_text(pairs) + seq!['}']
}

// Appends the hexadecimal digit of `n` to `out`.
fn push_hex_digit(out: &mut String, n: u32)
    requires
        n < 16,
    ensures
        final(out)@ == old(out)@.push(hex_digit(n as int)),
{
    let c: char = if n == 0 { '0' } else if n == 1 { '1' } else if n == 2 { '2' } else if n == 3 { '3' }
    else if n == 4 { '4' } else if n == 5 { '5' } else if n == 6 { '6' } else if n == 7 { '7' }
    else if n == 8 { '8' } else if n == 9 { '9' } else if n == 10 { 'a' } else if n == 11 { 'b' }
    else if n == 12 { 'c' } else if n == 13 { 'd' } else if n == 14 { 'e' } else { 'f' };
    out.push(c);
}

// Appends one character to `out` in its escaped JSON form.
fn push_escaped_char(out: &mut String, c: char)
    ensures
        final(out)@ == old(out)@ + escaped_char(c),
{
    if c == '"' {
        out.push('\\');
        out.push('"');
    } else if c == '\\' {
        out.push('\\');
        out.push('\\');
    } else if c == '\n' {
        out.push('\\');
        out.push('n');
    } else if c == '\r' {
        out.push('\\');
        out.push('r');
    } else if c == '\t' {
        out.push('\\');
        out.push('t');
    } else {
        let v = c as u32;
        if v < 32 {
            out.push('\\');
            out.push('u');
            out.push('0');
            out.push('0');
            push_hex_digit(out, v / 16);
            push_hex_digit(out, v % 16);
        } else {
            out.push(c);
        }
    }
    proof {
        assert(out@ =~= old(out)@ + escaped_char(c));
    }
}

// Appends the escaped characters of `s` to `out`.
fn push_escaped(out: &mut String, s: &str)
    ensures
        final(out)@ == old(out)@ + escaped(s@),
{
    let ghost base = old(out)@;
    let len = s.unicode_len();
    let mut i: usize = 0;
    while i < len
        invariant
            i <= len,
            len == s@.len(),
            out@ == base + escaped(s@.take(i as int)),
        decreases len - i,
    {
        let c = s.get_char(i);
        push_escaped_char(out, c);
        proof {
            let t = s@.take(i + 1 as int);
            assert(t.drop_last() =~= s@.take(i as int));
            assert(t.last() == s@[i as int]);
        }
        i = i + 1;
    }
    proof {
        assert(s@.take(len as int) =~= s@);
    }
}

// Appends a JSON string literal holding `s` to `out`.
fn push_quoted(out: &mut String, s: &str)
    ensures
        final(out)@ == old(out)@ + quoted(s@),
{
    out.push('"');
    push_escaped(out, s);
    out.push('"');
    proof {
        assert(out@ =~= old(out)@ + quoted(s@));
    }
}

/// Encodes `pairs` as the text of a JSON object, members in order.
pub fn encode_json_object(pairs: &Vec<(String, String)>) -> (r: String)
    ensures
        r@ == object_text(pair_views(pairs@)),
{
    let ghost all = pair_views(pairs@);
    let mut out = String::new();
    out.push('{');
    let mut i: usize = 0;
    while i < pairs.len()
        invariant
            i <= pairs.len(),
            all == pair_views(pairs@),
            all.len() == pairs@.len(),
            out@ == seq!['{'] + members_text(all.take(i as int)),
        decreases pairs.len() - i,
    {
        if i > 0 {
            out.push(',');
        }
        let pair = &pairs[i];
        push_quoted(&mut out, pair.0.as_str());
        out.push(':');
        push_quoted(&mut out, pair.1.as_str());
        proof {
            let t = all.take(i + 1 as int);
            assert(t.drop_last() =~= all.take(i as int));
            assert(t.last() == all[i as int]);
            assert(all[i as int] == (pairs@[i as int].0@, pairs@[i as int].1@));
            assert(out@ =~= seq!['{'] + members_text(all.take(i + 1 as int)));
        }
        i = i + 1;
    }
    out.push('}');
    proof {
        assert(all.take(pairs@.len() as int) =~= all);
        assert(out@ =~= object_text(all));
    }
    out
}

/// Whether a string is valid JSON text; a function of its characters alone.
pub uninterp spec fn is_json_text(s: Seq<char>) -> bool;

/// What parsing a string as a JSON object reports: `None` when the string
/// is the text of a JSON object, otherwise the parser's error message.
pub uninterp spec fn json_object_err(s: Seq<char>) -> Option<Seq<char>>;

/// The string value at a top-level field of a JSON object text, when the
/// text is such an object, the field is present and its value is a string.
pub uninterp spec fn json_str_field(s: Seq<char>, key: Seq<char>) -> Option<Seq<char>>;

/// The string value at a field nested one level down (`s[key][sub]`).
pub uninterp spec fn json_str_field2(s: Seq<char>, key: Seq<char>, sub: Seq<char>) -> Option<
    Seq<char>,
>;

/// The boolean value at a top-level field of a JSON object text.
pub uninterp spec fn json_bool_field(s: Seq<char>, key: Seq<char>) -> Option<bool>;

/// The unsigned integer value at a field nested one level down.
pub uninterp spec fn json_u64_field2(s: Seq<char>, key: Seq<char>, sub: Seq<char>) -> Option<u64>;

/// The signed integer value at a field nested one level down.
pub uninterp spec fn json_i64_field2(s: Seq<char>, key: Seq<char>, sub: Seq<char>) -> Option<i64>;

/// The list of strings at a field nested one level down, when every
/// element of the array there is a string.
pub uninterp spec fn json_str_list_field2(s: Seq<char>, key: Seq<char>, sub: Seq<char>) -> Option<
    Seq<Seq<char>>,
>;

/// Relies on serde_json::from_str::<Value>: whether a string parses as
/// JSON depends on its characters alone.
#[verifier::external_body]
pub fn is_valid_json(json: &str) -> (r: bool)
    ensures
        r == is_json_text(json@),
{
    serde_json::from_str::<serde_json::Value>(json).is_ok()
}

/// Relies on serde_json::from_str::<Map<String, Value>>: whether a string
/// parses as a JSON object, and the error message when it does not,
/// depend on its characters alone.
#[verifier::external_body]
pub fn json_object_parse_err(body: &str) -> (r: Option<String>)
    ensures
        match r {
            Some(m) => json_object_err(body@) == Some(m@),
            None => json_object_err(body@) is None,
        },
{
    match serde_json::from_str::<serde_json::Map<String, serde_json::Value>>(body) {
        Ok(_) => None,
        Err(e) => Some(e.to_string()),
    }
}

/// Relies on serde_json::from_str, Value::get and Value::as_str: the
/// string value at a top-level field, a function of the text and the key.
#[verifier::external_body]
pub fn json_get_str(body: &str, key: &str) -> (r: Option<String>)
    ensures
        match r {
            Some(v) => json_str_field(body@, key@) == Some(v@),
            None => json_str_field(body@, key@) is None,
        },
{
    let value: serde_json::Value = serde_json::from_str(body).ok()?;
    Some(value.get(key)?.as_str()?.to_string())
}

/// Relies on serde_json::from_str, Value::get and Value::as_str: the
/// string value at a field one level down.
#[verifier::external_body]
pub fn json_get_str2(body: &str, key: &str, sub: &str) -> (r: Option<String>)
    ensures
        match r {
            Some(v) => json_str_field2(body@, key@, sub@) == Some(v@),
            None => json_str_field2(body@, key@, sub@) is None,
        },
{
    let value: serde_json::Value = serde_json::from_str(body).ok()?;
    Some(value.get(key)?.get(sub)?.as_str()?.to_string())
}

/// Relies on serde_json::from_str, Value::get and Value::as_bool: the
/// boolean value at a top-level field.
#[verifier::external_body]
pub fn json_get_bool(body: &str, key: &str) -> (r: Option<bool>)
    ensures
        r == json_bool_field(body@, key@),
{
    let value: serde_json::Value = serde_json::from_str(body).ok()?;
    value.get(key)?.as_bool()
}

/// Relies on serde_json::from_str, Value::get and Value::as_u64: the
/// unsigned integer value at a field one level down.
#[verifier::external_body]
pub fn json_get_u64_2(body: &str, key: &str, sub: &str) -> (r: Option<u64>)
    ensures
        r == json_u64_field2(body@, key@, sub@),
{
    let value: serde_json::Value = serde_json::from_str(body).ok()?;
    value.get(key)?.get(sub)?.as_u64()
}

/// Relies on serde_json::from_str, Value::get and Value::as_i64: the
/// signed integer value at a field one level down.
#[verifier::external_body]
pub fn json_get_i64_2(body: &str, key: &str, sub: &str) -> (r: Option<i64>)
    ensures
        r == json_i64_field2(body@, key@, sub@),
{
    let value: serde_json::Value = serde_json::from_str(body).ok()?;
    value.get(key)?.get(sub)?.as_i64()
}

/// Relies on serde_json::from_str, Value::get, Value::as_array and
/// Value::as_str: the list of strings at a field one level down.
#[verifier::external_body]
pub fn json_get_str_list2(body: &str, key: &str, sub: &str) -> (r: Option<Vec<String>>)
    ensures
        match r {
            Some(v) => json_str_list_field2(body@, key@, sub@) == Some(v.deep_view()),
            None => json_str_list_field2(body@, key@, sub@) is None,
        },
{
    let value: serde_json::Value = serde_json::from_str(body).ok()?;
    let items = value.get(key)?.get(sub)?.as_array()?;
    let mut out: Vec<String> = Vec::with_capacity(items.len());
    for item in items {
        out.push(item.as_str()?.to_string());
    }
    Some(out)
}

} // verus!
