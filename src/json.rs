//! Writing JSON text: string literals (escaped by serde_json), decimal
//! integers, objects and arrays. Text is built in a `Vec<char>` and turned into a
//! `String` at the end.

use serde_json::Error as JsonError;
use vstd::prelude::*;

verus! {

/// The character for a decimal digit.
pub open spec fn digit_char(d: nat) -> char {
    if d == 0 { '0' }
    else if d == 1 { '1' }
    else if d == 2 { '2' }
    else if d == 3 { '3' }
    else if d == 4 { '4' }
    else if d == 5 { '5' }
    else if d == 6 { '6' }
    else if d == 7 { '7' }
    else if d == 8 { '8' }
    else { '9' }
}

/// The lower-case character for a hexadecimal digit.
pub open spec fn hex_char(d: nat) -> char {
    if d < 10 { digit_char(d) }
    else if d == 10 { 'a' }
    else if d == 11 { 'b' }
    else if d == 12 { 'c' }
    else if d == 13 { 'd' }
    else if d == 14 { 'e' }
    else { 'f' }
}

/// The decimal text of a natural number, without leading zeros.
pub open spec fn decimal(n: nat) -> Seq<char>
    decreases n,
{
    if n < 10 {
        seq![digit_char(n)]
    } else {
        decimal(n / 10).push(digit_char(n % 10))
    }
}

/// How one character is written inside a JSON string literal.
pub open spec fn escape_char(c: char) -> Seq<char> {
    if c == '"' { seq!['\\', '"'] }
    else if c == '\\' { seq!['\\', '\\'] }
    else if c == '\n' { seq!['\\', 'n'] }
    else if c == '\r' { seq!['\\', 'r'] }
    else if c == '\t' { seq!['\\', 't'] }
    else if c == '\x08' { seq!['\\', 'b'] }
    else if c == '\x0c' { seq!['\\', 'f'] }
    else if (c as u32) < 0x20 {
        seq!['\\', 'u', '0', '0', hex_char((c as u32 / 16) as nat), hex_char((c as u32 % 16) as nat)]
    } else {
        seq![c]
    }
}

/// The characters of `s`, each escaped.
pub open spec fn escaped(s: Seq<char>) -> Seq<char>
    decreases s.len(),
{
    if s.len() == 0 {
        Seq::empty()
    } else {
        escaped(s.drop_last()) + escape_char(s.last())
    }
}

/// A JSON string literal holding `s`.
pub open spec fn json_string(s: Seq<char>) -> Seq<char> {
    seq!['"'] + escaped(s) + seq!['"']
}

/// The JSON `null` literal.
pub open spec fn json_null() -> Seq<char> {
    seq!['n', 'u', 'l', 'l']
}

/// The text of an optional string.
pub open spec fn opt_text(o: Option<String>) -> Option<Seq<char>> {
    match o {
        Some(s) => Some(s@),
        None => None,
    }
}

/// An optional string: its literal, or `null`.
pub open spec fn json_opt_string(o: Option<Seq<char>>) -> Seq<char> {
    match o {
        Some(s) => json_string(s),
        None => json_null(),
    }
}

/// An optional unsigned integer: its decimal text, or `null`.
pub open spec fn json_opt_uint(o: Option<u64>) -> Seq<char> {
    match o {
        Some(n) => decimal(n as nat),
        None => json_null(),
    }
}

/// One `"key":value` member of an object; `value` is already JSON text.
pub open spec fn member(field: (Seq<char>, Seq<char>)) -> Seq<char> {
    json_string(field.0) + seq![':'] + field.1
}

/// The members of an object, separated by commas.
pub open spec fn members(fields: Seq<(Seq<char>, Seq<char>)>) -> Seq<char>
    decreases fields.len(),
{
    if fields.len() == 0 {
        Seq::empty()
    } else if fields.len() == 1 {
        member(fields[0])
    } else {
        members(fields.drop_last()) + seq![','] + member(fields.last())
    }
}

/// A JSON object with the given members, in order.
pub open spec fn json_object(fields: Seq<(Seq<char>, Seq<char>)>) -> Seq<char> {
    seq!['{'] + members(fields) + seq!['}']
}

/// Array items (JSON texts), separated by commas.
pub open spec fn items(values: Seq<Seq<char>>) -> Seq<char>
    decreases values.len(),
{
    if values.len() == 0 {
        Seq::empty()
    } else if values.len() == 1 {
        values[0]
    } else {
        items(values.drop_last()) + seq![','] + values.last()
    }
}

/// A JSON array of the given values, in order.
pub open spec fn json_array(values: Seq<Seq<char>>) -> Seq<char> {
    seq!['['] + items(values) + seq![']']
}

/// A member of an object under construction: a key and its value as JSON text.
pub struct Field {
    pub key: String,
    pub value: Vec<char>,
}

impl Field {
    pub open spec fn view(&self) -> (Seq<char>, Seq<char>) {
        (self.key@, self.value@)
    }
}

/// The members that a sequence of fields stands for.
pub open spec fn fields_view(fields: Seq<Field>) -> Seq<(Seq<char>, Seq<char>)> {
    fields.map_values(|f: Field| f.view())
}

/// Relies on `String: FromIterator<char>`: the string holds exactly the characters, in order.
#[verifier::external_body]
pub(crate) fn chars_to_string(chars: &Vec<char>) -> (r: String)
    ensures
        r@ == chars@,
{
    chars.iter().collect()
}

/// Appends the characters of `s`.
pub fn push_str(out: &mut Vec<char>, s: &str)
    ensures
        final(out)@ == old(out)@ + s@,
{
    let n = s.unicode_len();
    let mut i: usize = 0;
    while i < n
        invariant
            i <= n,
            n == s@.len(),
            out@ == old(out)@ + s@.subrange(0, i as int),
        decreases n - i,
    {
        let c = s.get_char(i);
        out.push(c);
        i = i + 1;
        assert(s@.subrange(0, i as int) =~= s@.subrange(0, i - 1).push(c));
    }
    assert(s@.subrange(0, n as int) =~= s@);
}

/// Appends the characters of `s`.
pub fn push_chars(out: &mut Vec<char>, s: &Vec<char>)
    ensures
        final(out)@ == old(out)@ + s@,
{
    let n = s.len();
    let mut i: usize = 0;
    while i < n
        invariant
            i <= n,
            n == s@.len(),
            out@ == old(out)@ + s@.subrange(0, i as int),
        decreases n - i,
    {
        out.push(s[i]);
        i = i + 1;
        assert(s@.subrange(0, i as int) =~= s@.subrange(0, i - 1).push(s@[i - 1]));
    }
    assert(s@.subrange(0, n as int) =~= s@);
}

fn digit(d: u64) -> (c: char)
    requires
        d < 16,
    ensures
        c == hex_char(d as nat),
{
    match d {
        0 => '0',
        1 => '1',
        2 => '2',
        3 => '3',
        4 => '4',
        5 => '5',
        6 => '6',
        7 => '7',
        8 => '8',
        9 => '9',
        10 => 'a',
        11 => 'b',
        12 => 'c',
        13 => 'd',
        14 => 'e',
        _ => 'f',
    }
}

/// Appends the decimal text of `n`.
pub fn push_decimal(out: &mut Vec<char>, n: u64)
    ensures
        final(out)@ == old(out)@ + decimal(n as nat),
    decreases n,
{
    if n >= 10 {
        push_decimal(out, n / 10);
    }
    let c = digit(n % 10);
    out.push(c);
    assert(final(out)@ =~= old(out)@ + decimal(n as nat));
}

#[verifier::external_type_specification]
#[verifier::external_body]
pub struct ExJsonError(JsonError);

/// Relies on `serde_json::to_string` on a `str`: a string literal in which
/// `"` and `\` are escaped with a backslash, the control characters as
/// `\b \t \n \f \r` or else `\u00xx` in lower-case hex, and every other
/// character is kept. It writes into memory, so it does not fail.
#[verifier::external_body]
fn json_quote(s: &str) -> (r: Result<String, JsonError>)
    ensures
        r is Ok,
        r is Ok ==> r->Ok_0@ == json_string(s@),
{
    serde_json::to_string(s)
}

/// Appends `s` as a JSON string literal.
pub fn push_json_string(out: &mut Vec<char>, s: &str)
    ensures
        final(out)@ == old(out)@ + json_string(s@),
{
    match json_quote(s) {
        Ok(text) => push_str(out, text.as_str()),
        Err(_) => {},
    }
}

/// Appends an optional string: its literal, or `null`.
pub fn push_json_opt_string(out: &mut Vec<char>, o: &Option<String>)
    ensures
        final(out)@ == old(out)@ + json_opt_string(opt_text(*o)),
{
    match o {
        Some(s) => push_json_string(out, s.as_str()),
        None => push_str(out, "null"),
    }
    proof {
        reveal_strlit("null");
    }
    assert(final(out)@ =~= old(out)@ + json_opt_string(opt_text(*o)));
}

/// Appends an optional integer: its decimal text, or `null`.
pub fn push_json_opt_uint(out: &mut Vec<char>, o: Option<u64>)
    ensures
        final(out)@ == old(out)@ + json_opt_uint(o),
{
    match o {
        Some(n) => push_decimal(out, n),
        None => {
            push_str(out, "null");
            proof {
                reveal_strlit("null");
            }
            assert(final(out)@ =~= old(out)@ + json_null());
        },
    }
}

/// A field whose value is the JSON text `value`.
pub fn field(key: &str, value: Vec<char>) -> (f: Field)
    ensures
        f.view() == (key@, value@),
{
    Field { key: key.to_owned(), value }
}

/// A field holding a string literal.
pub fn string_field(key: &str, value: &str) -> (f: Field)
    ensures
        f.view() == (key@, json_string(value@)),
{
    let mut v: Vec<char> = Vec::new();
    push_json_string(&mut v, value);
    field(key, v)
}

/// A field holding an optional string literal.
pub fn opt_string_field(key: &str, value: &Option<String>) -> (f: Field)
    ensures
        f.view() == (key@, json_opt_string(opt_text(*value))),
{
    let mut v: Vec<char> = Vec::new();
    push_json_opt_string(&mut v, value);
    field(key, v)
}

/// A field holding an unsigned integer.
pub fn uint_field(key: &str, value: u64) -> (f: Field)
    ensures
        f.view() == (key@, decimal(value as nat)),
{
    let mut v: Vec<char> = Vec::new();
    push_decimal(&mut v, value);
    field(key, v)
}

/// A field holding an optional unsigned integer.
pub fn opt_uint_field(key: &str, value: Option<u64>) -> (f: Field)
    ensures
        f.view() == (key@, json_opt_uint(value)),
{
    let mut v: Vec<char> = Vec::new();
    push_json_opt_uint(&mut v, value);
    field(key, v)
}

/// Renders an object with the given fields, in order.
pub fn render_object(fields: &Vec<Field>) -> (r: Vec<char>)
    ensures
        r@ == json_object(fields_view(fields@)),
{
    let mut out: Vec<char> = Vec::new();
    out.push('{');
    let n = fields.len();
    let mut i: usize = 0;
    while i < n
        invariant
            i <= n,
            n == fields@.len(),
            out@ == seq!['{'] + members(fields_view(fields@.subrange(0, i as int))),
        decreases n - i,
    {
        let ghost before = fields_view(fields@.subrange(0, i as int));
        if i > 0 {
            out.push(',');
        }
        push_json_string(&mut out, fields[i].key.as_str());
        out.push(':');
        push_chars(&mut out, &fields[i].value);
        i = i + 1;
        proof {
            let now = fields_view(fields@.subrange(0, i as int));
            assert(now.drop_last() =~= before);
            assert(now.last() == fields@[i - 1].view());
            if i == 1 {
                assert(now =~= seq![fields@[0].view()]);
            }
        }
        assert(out@ =~= seq!['{'] + members(fields_view(fields@.subrange(0, i as int))));
    }
    assert(fields@.subrange(0, n as int) =~= fields@);
    out.push('}');
    assert(out@ =~= json_object(fields_view(fields@)));
    out
}

/// Renders an array of JSON texts, in order.
pub fn render_array(values: &Vec<String>) -> (r: Vec<char>)
    ensures
        r@ == json_array(values@.map_values(|v: String| v@)),
{
    let ghost all = values@.map_values(|v: String| v@);
    let mut out: Vec<char> = Vec::new();
    out.push('[');
    let n = values.len();
    let mut i: usize = 0;
    while i < n
        invariant
            i <= n,
            n == values@.len(),
            all == values@.map_values(|v: String| v@),
            out@ == seq!['['] + items(all.subrange(0, i as int)),
        decreases n - i,
    {
        let ghost before = all.subrange(0, i as int);
        if i > 0 {
            out.push(',');
        }
        push_str(&mut out, values[i].as_str());
        i = i + 1;
        proof {
            let now = all.subrange(0, i as int);
            assert(now.drop_last() =~= before);
            if i == 1 {
                assert(now =~= seq![all[0]]);
            }
        }
        assert(out@ =~= seq!['['] + items(all.subrange(0, i as int)));
    }
    assert(all.subrange(0, n as int) =~= all);
    out.push(']');
    assert(out@ =~= json_array(all));
    out
}

} // verus!
