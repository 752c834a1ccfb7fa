use vstd::prelude::*;
use crate::report::push_chars;

verus! {

/// A JSON document as the report layouts read it. Object members keep the
/// order in which the parser hands them over.
#[derive(Debug)]
pub enum JsonValue {
    Null,
    Bool(bool),
    /// A number, as its shortest JSON text.
    Number(String),
    Str(String),
    Array(Vec<JsonValue>),
    Object(Vec<(String, JsonValue)>),
}

/// serde_json's parse error, carried through unopened.
#[verifier::external_type_specification]
#[verifier::external_body]
pub struct ExJsonError(serde_json::Error);

/// serde_json's document type, only ever moved into `JsonValue`.
#[verifier::external_type_specification]
#[verifier::external_body]
pub struct ExJsonValue(serde_json::Value);

/// What serde_json reads from a text, where the text is one JSON document.
pub uninterp spec fn json_document(s: Seq<char>) -> Option<JsonValue>;

/// Relies on `serde_json::from_str` into a `serde_json::Value`: whether it
/// succeeds, and the document it reads, depend on the text alone.
#[verifier::external_body]
pub(crate) fn parse_json(data: &str) -> (r: Result<JsonValue, serde_json::Error>)
    ensures
        r matches Ok(v) ==> json_document(data@) == Some(v),
        r is Err ==> json_document(data@) is None,
{
    serde_json::from_str::<serde_json::Value>(data).map(from_serde)
}

/// Moves a `serde_json::Value` into the library's model, node for node.
/// Relies on `serde_json::Number`'s `Display` for the text of a number.
#[verifier::external_body]
fn from_serde(v: serde_json::Value) -> JsonValue {
    match v {
        serde_json::Value::Null => JsonValue::Null,
        serde_json::Value::Bool(b) => JsonValue::Bool(b),
        serde_json::Value::Number(n) => JsonValue::Number(n.to_string()),
        serde_json::Value::String(s) => JsonValue::Str(s),
        serde_json::Value::Array(a) => JsonValue::Array(a.into_iter().map(from_serde).collect()),
        serde_json::Value::Object(m) => JsonValue::Object(m.into_iter().map(|(k, x)| (k, from_serde(x))).collect()),
    }
}

/// Lower-case hexadecimal digit of `d`.
pub open spec fn hex_digit(d: nat) -> char {
    if d < 10 {
        ((d + 48) as u8) as char
    } else {
        ((d + 87) as u8) as char
    }
}

/// A character as it stands inside a JSON string.
pub open spec fn escape_json_char(c: char) -> Seq<char> {
    if c == '"' {
        seq!['\\', '"']
    } else if c == '\\' {
        seq!['\\', '\\']
    } else if c == '\n' {
        seq!['\\', 'n']
    } else if c == '\r' {
        seq!['\\', 'r']
    } else if c == '\t' {
        seq!['\\', 't']
    } else if c == '\u{8}' {
        seq!['\\', 'b']
    } else if c == '\u{c}' {
        seq!['\\', 'f']
    } else if (c as u32) < 0x20 {
        seq!['\\', 'u', '0', '0', hex_digit((c as u32 / 16) as nat), hex_digit((c as u32 % 16) as nat)]
    } else {
        seq![c]
    }
}

/// A string as a JSON string literal.
pub open spec fn json_quoted(s: Seq<char>) -> Seq<char> {
    seq!['"'] + escaped_body(s) + seq!['"']
}

pub open spec fn escaped_body(s: Seq<char>) -> Seq<char>
    decreases s.len(),
{
    if s.len() == 0 {
        Seq::empty()
    } else {
        escaped_body(s.drop_last()) + escape_json_char(s.last())
    }
}

/// `n` spaces of indentation, two per level.
pub open spec fn indent(level: nat) -> Seq<char> {
    Seq::new(2 * level, |i: int| ' ')
}

/// The JSON text of a scalar.
pub open spec fn scalar_text(v: JsonValue) -> Seq<char> {
    match v {
        JsonValue::Null => "null"@,
        JsonValue::Bool(b) => if b { "true"@ } else { "false"@ },
        JsonValue::Number(n) => n@,
        JsonValue::Str(s) => json_quoted(s@),
        _ => Seq::empty(),
    }
}

/// The compact JSON text of a value.
pub open spec fn compact(v: JsonValue) -> Seq<char>
    decreases v, 0nat,
{
    match v {
        JsonValue::Array(items) => seq!['['] + compact_items(items@, items@.len()) + seq![']'],
        JsonValue::Object(es) => seq!['{'] + compact_members(es@, es@.len()) + seq!['}'],
        _ => scalar_text(v),
    }
}

pub open spec fn compact_items(items: Seq<JsonValue>, k: nat) -> Seq<char>
    decreases items, k,
{
    if k == 0 || k > items.len() {
        Seq::empty()
    } else if k == 1 {
        compact(items[0])
    } else {
        compact_items(items, (k - 1) as nat) + seq![','] + compact(items[k - 1])
    }
}

pub open spec fn compact_members(es: Seq<(String, JsonValue)>, k: nat) -> Seq<char>
    decreases es, k,
{
    if k == 0 || k > es.len() {
        Seq::empty()
    } else {
        let m = json_quoted(es[k - 1].0@) + seq![':'] + compact(es[k - 1].1);
        if k == 1 {
            m
        } else {
            compact_members(es, (k - 1) as nat) + seq![','] + m
        }
    }
}

/// The pretty JSON text of a value standing at nesting `level`, two spaces
/// per level, as serde_json's pretty printer lays it out.
pub open spec fn pretty(v: JsonValue, level: nat) -> Seq<char>
    decreases v, 0nat,
{
    match v {
        JsonValue::Array(items) => if items@.len() == 0 {
            "[]"@
        } else {
            seq!['['] + pretty_items(items@, items@.len(), level) + seq!['\n'] + indent(level) + seq![']']
        },
        JsonValue::Object(es) => if es@.len() == 0 {
            "{}"@
        } else {
            seq!['{'] + pretty_members(es@, es@.len(), level) + seq!['\n'] + indent(level) + seq!['}']
        },
        _ => scalar_text(v),
    }
}

/// What separates an element of a pretty array or object from the one
/// before it.
pub open spec fn pretty_sep(k: nat) -> Seq<char> {
    if k == 1 { seq!['\n'] } else { seq![',', '\n'] }
}

pub open spec fn pretty_items(items: Seq<JsonValue>, k: nat, level: nat) -> Seq<char>
    decreases items, k,
{
    if k == 0 || k > items.len() {
        Seq::empty()
    } else {
        pretty_items(items, (k - 1) as nat, level) + pretty_sep(k) + indent(level + 1) + pretty(items[k - 1], level + 1)
    }
}

pub open spec fn pretty_members(es: Seq<(String, JsonValue)>, k: nat, level: nat) -> Seq<char>
    decreases es, k,
{
    if k == 0 || k > es.len() {
        Seq::empty()
    } else {
        pretty_members(es, (k - 1) as nat, level) + pretty_sep(k) + indent(level + 1) + json_quoted(es[k - 1].0@)
            + seq![':', ' '] + pretty(es[k - 1].1, level + 1)
    }
}

/// Appends `s` as a JSON string literal.
pub fn write_quoted(s: &String, out: &mut Vec<char>)
    ensures
        final(out)@ == old(out)@ + json_quoted(s@),
{
    let ghost start = out@;
    let v = crate::text::chars_of(s.as_str());
    out.push('"');
    let mut i: usize = 0;
    while i < v.len()
        invariant
            v@ == s@,
            i <= v@.len(),
            out@ == start + seq!['"'] + escaped_body(v@.take(i as int)),
        decreases v@.len() - i,
    {
        let c = v[i];
        proof {
            assert(v@.take(i + 1).drop_last() =~= v@.take(i as int));
            assert(v@.take(i + 1).last() == c);
        }
        let ghost mid = out@;
        if c == '"' {
            out.push('\\');
            out.push('"');
        } else if c == '\\' {
            out.push('\\');
            out.push('\\');
        } else if c == '\n' {
            out.push('\\');
            out.push('n');
        } else if c == '\r' {
            out.push('\\');
            out.push('r');
        } else if c == '\t' {
            out.push('\\');
            out.push('t');
        } else if c == '\u{8}' {
            out.push('\\');
            out.push('b');
        } else if c == '\u{c}' {
            out.push('\\');
            out.push('f');
        } else if (c as u32) < 0x20 {
            let code = c as u32;
            out.push('\\');
            out.push('u');
            out.push('0');
            out.push('0');
            out.push(hex_char(code / 16));
            out.push(hex_char(code % 16));
        } else {
            out.push(c);
        }
        assert(out@ =~= mid + escape_json_char(c));
        i = i + 1;
    }
    out.push('"');
    assert(v@.take(i as int) =~= v@);
    assert(out@ =~= start + json_quoted(s@));
}

fn hex_char(d: u32) -> (r: char)
    requires
        d < 16,
    ensures
        r == hex_digit(d as nat),
{
    if d < 10 {
        ((d + 48) as u8) as char
    } else {
        ((d + 87) as u8) as char
    }
}

fn write_scalar(v: &JsonValue, out: &mut Vec<char>)
    requires
        !(v is Array) && !(v is Object),
    ensures
        final(out)@ == old(out)@ + scalar_text(*v),
{
    match v {
        JsonValue::Null => push_chars(out, "null"),
        JsonValue::Bool(b) => if *b { push_chars(out, "true") } else { push_chars(out, "false") },
        JsonValue::Number(n) => push_chars(out, n.as_str()),
        JsonValue::Str(s) => write_quoted(s, out),
        _ => {},
    }
}

/// Appends the compact JSON text of `v`.
pub fn write_compact(v: &JsonValue, out: &mut Vec<char>)
    ensures
        final(out)@ == old(out)@ + compact(*v),
    decreases v,
{
    let ghost start = out@;
    match v {
        JsonValue::Array(items) => {
            out.push('[');
            let mut i: usize = 0;
            while i < items.len()
                invariant
                    *v == JsonValue::Array(*items),
                    i <= items@.len(),
                    out@ == start + seq!['['] + compact_items(items@, i as nat),
                decreases items@.len() - i,
            {
                if i > 0 {
                    out.push(',');
                }
                proof {
                    vstd::std_specs::vec::axiom_vec_index_decreases(*items, i as int);
                    assert(*v == JsonValue::Array(*items));
                    assert(decreases_to!(*v => v->Array_0));
                    assert(decreases_to!(*v => items[i as int]));
                }
                write_compact(&items[i], out);
                i = i + 1;
            }
            out.push(']');
        },
        JsonValue::Object(es) => {
            out.push('{');
            let mut i: usize = 0;
            while i < es.len()
                invariant
                    *v == JsonValue::Object(*es),
                    i <= es@.len(),
                    out@ == start + seq!['{'] + compact_members(es@, i as nat),
                decreases es@.len() - i,
            {
                if i > 0 {
                    out.push(',');
                }
                write_quoted(&es[i].0, out);
                out.push(':');
                proof {
                    vstd::std_specs::vec::axiom_vec_index_decreases(*es, i as int);
                    assert(*v == JsonValue::Object(*es));
                    assert(decreases_to!(*v => v->Object_0));
                    assert(decreases_to!(*v => es[i as int]));
                    assert(decreases_to!(*v => es[i as int].1));
                }
                write_compact(&es[i].1, out);
                i = i + 1;
            }
            out.push('}');
        },
        _ => write_scalar(v, out),
    }
}

/// Appends the indentation one level deeper than `ind`.
fn deeper(ind: &Vec<char>, Ghost(level): Ghost<nat>) -> (r: Vec<char>)
    requires
        ind@ == indent(level),
    ensures
        r@ == indent(level + 1),
{
    let mut r = crate::request::slice_chars(ind, 0, ind.len());
    r.push(' ');
    r.push(' ');
    assert(r@ =~= indent(level + 1));
    r
}

fn push_all(out: &mut Vec<char>, v: &Vec<char>)
    ensures
        final(out)@ == old(out)@ + v@,
{
    let ghost start = out@;
    let mut i: usize = 0;
    while i < v.len()
        invariant
            i <= v@.len(),
            out@ == start + v@.take(i as int),
        decreases v@.len() - i,
    {
        out.push(v[i]);
        i = i + 1;
        assert(out@ =~= start + v@.take(i as int));
    }
    assert(v@.take(i as int) =~= v@);
}

/// Appends the pretty JSON text of `v` standing at nesting `level`, whose
/// indentation is `ind`.
fn write_pretty_at(v: &JsonValue, Ghost(level): Ghost<nat>, ind: &Vec<char>, out: &mut Vec<char>)
    requires
        ind@ == indent(level),
    ensures
        final(out)@ == old(out)@ + pretty(*v, level),
    decreases v,
{
    let ghost start = out@;
    match v {
        JsonValue::Array(items) => {
            if items.len() == 0 {
                push_chars(out, "[]");
                return;
            }
            let inner = deeper(ind, Ghost(level));
            out.push('[');
            let mut i: usize = 0;
            while i < items.len()
                invariant
                    *v == JsonValue::Array(*items),
                    ind@ == indent(level),
                    inner@ == indent(level + 1),
                    i <= items@.len(),
                    out@ == start + seq!['['] + pretty_items(items@, i as nat, level),
                decreases items@.len() - i,
            {
                if i > 0 {
                    out.push(',');
                }
                out.push('\n');
                push_all(out, &inner);
                proof {
                    vstd::std_specs::vec::axiom_vec_index_decreases(*items, i as int);
                    assert(decreases_to!(*v => v->Array_0));
                    assert(decreases_to!(*v => items[i as int]));
                }
                write_pretty_at(&items[i], Ghost(level + 1), &inner, out);
                i = i + 1;
            }
            out.push('\n');
            push_all(out, ind);
            out.push(']');
        },
        JsonValue::Object(es) => {
            if es.len() == 0 {
                push_chars(out, "{}");
                return;
            }
            let inner = deeper(ind, Ghost(level));
            out.push('{');
            let mut i: usize = 0;
            while i < es.len()
                invariant
                    *v == JsonValue::Object(*es),
                    ind@ == indent(level),
                    inner@ == indent(level + 1),
                    i <= es@.len(),
                    out@ == start + seq!['{'] + pretty_members(es@, i as nat, level),
                decreases es@.len() - i,
            {
                if i > 0 {
                    out.push(',');
                }
                out.push('\n');
                push_all(out, &inner);
                write_quoted(&es[i].0, out);
                out.push(':');
                out.push(' ');
                proof {
                    vstd::std_specs::vec::axiom_vec_index_decreases(*es, i as int);
                    assert(decreases_to!(*v => v->Object_0));
                    assert(decreases_to!(*v => es[i as int]));
                    assert(decreases_to!(*v => es[i as int].1));
                }
                write_pretty_at(&es[i].1, Ghost(level + 1), &inner, out);
                i = i + 1;
            }
            out.push('\n');
            push_all(out, ind);
            out.push('}');
        },
        _ => write_scalar(v, out),
    }
}

/// Appends the pretty JSON text of `v` at the outermost level.
pub fn write_pretty(v: &JsonValue, out: &mut Vec<char>)
    ensures
        final(out)@ == old(out)@ + pretty(*v, 0),
{
    let ind: Vec<char> = Vec::new();
    assert(ind@ =~= indent(0));
    write_pretty_at(v, Ghost(0), &ind, out);
}

} // verus!
