//! The library's own JSON document tree, the trusted bridge that parses
//! response bodies into it, and a verified JSON string encoder used when
//! composing request bodies.

use vstd::prelude::*;
use rustc_serialize::json::Json;
use crate::text::spec_digit;

verus! {

/// A parsed JSON document.  Numbers are held as their rendered literal text:
/// no command of this client reads a numeric field, so the tree only carries
/// them through.  Object fields keep unique keys in ascending order, as the
/// parser's map hands them out; `obj_lookup` does not depend on that.
pub enum JsonValue {
    Null,
    Bool(bool),
    Number(String),
    Text(String),
    List(Vec<JsonValue>),
    Object(Vec<(String, JsonValue)>),
}

#[verifier::external_type_specification]
#[verifier::external_body]
pub struct ExJson(Json);

/// The document that a body text parses to, if the text is well-formed JSON.
/// This names the result of `rustc_serialize::json::Json::from_str`, which
/// depends on the text alone.
pub uninterp spec fn json_of(s: Seq<char>) -> Option<JsonValue>;

/// Glue for `parse_json`: rebuilds the parser's document tree, node for
/// node, as the library's own `JsonValue`.
#[verifier::external_body]
fn translate(j: Json) -> JsonValue {
    match j {
        Json::Null => JsonValue::Null,
        Json::Boolean(b) => JsonValue::Bool(b),
        Json::String(s) => JsonValue::Text(s),
        n @ (Json::I64(_) | Json::U64(_) | Json::F64(_)) => JsonValue::Number(format!("{}", n)),
        Json::Array(items) => JsonValue::List(items.into_iter().map(translate).collect()),
        Json::Object(fields) => JsonValue::Object(
            fields.into_iter().map(|(k, v)| (k, translate(v))).collect(),
        ),
    }
}

/// Relies on `rustc_serialize::json::Json::from_str`: parses the full text as
/// one JSON document, deterministically in the text, and reports a syntax
/// error otherwise.  The error's rendered description is passed through.
#[verifier::external_body]
pub(crate) fn parse_json(body: &str) -> (r: Result<JsonValue, String>)
    ensures
        r is Ok <==> json_of(body@) is Some,
        r matches Ok(v) ==> json_of(body@) == Some(v),
{
    match Json::from_str(body) {
        Ok(j) => Ok(translate(j)),
        Err(e) => Err(format!("{}", e)),
    }
}

/// The value under the first field named `key`, if any.
pub open spec fn obj_lookup(fields: Seq<(String, JsonValue)>, key: Seq<char>) -> Option<
    JsonValue,
>
    decreases fields.len(),
{
    if fields.len() == 0 {
        None
    } else if fields[0].0@ == key {
        Some(fields[0].1)
    } else {
        obj_lookup(fields.drop_first(), key)
    }
}

proof fn lemma_obj_lookup_at(fields: Seq<(String, JsonValue)>, key: Seq<char>, i: int)
    requires
        0 <= i < fields.len(),
        fields[i].0@ == key,
        forall|j: int| 0 <= j < i ==> fields[j].0@ != key,
    ensures
        obj_lookup(fields, key) == Some(fields[i].1),
    decreases i,
{
    if i > 0 {
        lemma_obj_lookup_at(fields.drop_first(), key, i - 1);
    }
}

proof fn lemma_obj_lookup_none(fields: Seq<(String, JsonValue)>, key: Seq<char>)
    requires
        forall|j: int| 0 <= j < fields.len() ==> fields[j].0@ != key,
    ensures
        obj_lookup(fields, key) is None,
    decreases fields.len(),
{
    if fields.len() > 0 {
        lemma_obj_lookup_none(fields.drop_first(), key);
    }
}

/// Field access on an object document; `None` on a missing field or on any
/// non-object document.
pub open spec fn spec_get(v: JsonValue, key: Seq<char>) -> Option<JsonValue> {
    match v {
        JsonValue::Object(fs) => obj_lookup(fs@, key),
        _ => None,
    }
}

impl JsonValue {
    /// Field access on an object; `None` on a missing field or on any
    /// non-object document.
    pub fn get<'a>(&'a self, key: &str) -> (r: Option<&'a JsonValue>)
        ensures
            match r {
                Some(v) => spec_get(*self, key@) == Some(*v),
                None => spec_get(*self, key@) is None,
            },
    {
        match self {
            JsonValue::Object(fields) => {
                let mut i: usize = 0;
                while i < fields.len()
                    invariant
                        (*self) is Object,
                        *fields == (*self)->Object_0,
                        i <= fields@.len(),
                        forall|j: int| 0 <= j < i ==> fields@[j].0@ != key@,
                    decreases fields@.len() - i,
                {
                    if crate::text::str_eq(fields[i].0.as_str(), key) {
                        proof {
                            lemma_obj_lookup_at(fields@, key@, i as int);
                        }
                        return Some(&fields[i].1);
                    }
                    i += 1;
                }
                proof {
                    lemma_obj_lookup_none(fields@, key@);
                }
                None
            },
            _ => None,
        }
    }
}

/// The string contents of a list of documents, if every element is a string.
pub open spec fn texts_of(elems: Seq<JsonValue>) -> Option<Seq<Seq<char>>> {
    if forall|i: int| 0 <= i < elems.len() ==> elems[i] is Text {
        Some(Seq::new(elems.len(), |i: int| elems[i]->Text_0@))
    } else {
        None
    }
}

/// Reads a list of documents as a list of strings.
pub fn decode_texts(elems: &Vec<JsonValue>) -> (r: Option<Vec<String>>)
    ensures
        match r {
            Some(v) => texts_of(elems@) == Some(v.deep_view()),
            None => texts_of(elems@) is None,
        },
{
    let mut out: Vec<String> = Vec::new();
    let mut i: usize = 0;
    while i < elems.len()
        invariant
            i <= elems@.len(),
            out@.len() == i,
            forall|j: int| 0 <= j < i ==> out@[j]@ == elems@[j]->Text_0@,
            forall|j: int| 0 <= j < i ==> elems@[j] is Text,
        decreases elems@.len() - i,
    {
        match &elems[i] {
            JsonValue::Text(t) => {
                out.push(t.clone());
            },
            _ => {
                assert(!(elems@[i as int] is Text));
                return None;
            },
        }
        i += 1;
    }
    proof {
        assert forall|j: int| 0 <= j < elems@.len() implies out.deep_view()[j] == elems@[j]->Text_0@ by {
            assert(out.deep_view()[j] == out@[j]@);
        }
        assert(out.deep_view() =~= Seq::new(elems@.len(), |j: int| elems@[j]->Text_0@));
    }
    Some(out)
}

/// One hexadecimal digit, lower case.
pub open spec fn hex_char(n: int) -> char {
    if n < 10 {
        spec_digit(n)
    } else if n == 10 {
        'a'
    } else if n == 11 {
        'b'
    } else if n == 12 {
        'c'
    } else if n == 13 {
        'd'
    } else if n == 14 {
        'e'
    } else {
        'f'
    }
}

/// How one character is written inside a JSON string literal: the quote and
/// the backslash get a backslash escape, the common control characters their
/// short escapes, the remaining control characters and delete a `\u00..`
/// escape, and every other character stands as itself.
pub open spec fn spec_escape_char(c: char) -> Seq<char> {
    if c == '"' {
        seq!['\\', '"']
    } else if c == '\\' {
        seq!['\\', '\\']
    } else if c == '\u{8}' {
        seq!['\\', 'b']
    } else if c == '\t' {
        seq!['\\', 't']
    } else if c == '\n' {
        seq!['\\', 'n']
    } else if c == '\u{c}' {
        seq!['\\', 'f']
    } else if c == '\r' {
        seq!['\\', 'r']
    } else if (c as int) < 0x20 || (c as int) == 0x7f {
        seq!['\\', 'u', '0', '0', hex_char(c as int / 16), hex_char(c as int % 16)]
    } else {
        seq![c]
    }
}

/// The body of a JSON string literal for `s`.
pub open spec fn spec_escape(s: Seq<char>) -> Seq<char>
    decreases s.len(),
{
    if s.len() == 0 {
        Seq::empty()
    } else {
        spec_escape_char(s[0]) + spec_escape(s.drop_first())
    }
}

/// Escaping distributes over concatenation.
pub proof fn lemma_escape_append(x: Seq<char>, y: Seq<char>)
    ensures
        spec_escape(x + y) == spec_escape(x) + spec_escape(y),
    decreases x.len(),
{
    if x.len() == 0 {
        assert(x + y =~= y);
        assert(spec_escape(x) + spec_escape(y) =~= spec_escape(y));
    } else {
        assert((x + y).drop_first() =~= x.drop_first() + y);
        lemma_escape_append(x.drop_first(), y);
        assert(spec_escape_char(x[0]) + (spec_escape(x.drop_first()) + spec_escape(y))
            =~= (spec_escape_char(x[0]) + spec_escape(x.drop_first())) + spec_escape(y));
    }
}

/// A complete JSON string literal for `s`, quotes included.
pub open spec fn spec_json_string(s: Seq<char>) -> Seq<char> {
    seq!['"'] + spec_escape(s) + seq!['"']
}

/// Relies on std's `String::push`: appends exactly one character.
#[verifier::external_body]
fn push_char(out: &mut String, c: char)
    ensures
        final(out)@ == old(out)@.push(c),
{
    out.push(c);
}

/// One hexadecimal digit as a string slice.
fn hex_str(d: u32) -> (r: &'static str)
    requires
        d < 16,
    ensures
        r@ == seq![hex_char(d as int)],
{
    proof {
        reveal_strlit("0");
        reveal_strlit("1");
        reveal_strlit("2");
        reveal_strlit("3");
        reveal_strlit("4");
        reveal_strlit("5");
        reveal_strlit("6");
        reveal_strlit("7");
        reveal_strlit("8");
        reveal_strlit("9");
        reveal_strlit("a");
        reveal_strlit("b");
        reveal_strlit("c");
        reveal_strlit("d");
        reveal_strlit("e");
        reveal_strlit("f");
    }
    if d == 0 {
        "0"
    } else if d == 1 {
        "1"
    } else if d == 2 {
        "2"
    } else if d == 3 {
        "3"
    } else if d == 4 {
        "4"
    } else if d == 5 {
        "5"
    } else if d == 6 {
        "6"
    } else if d == 7 {
        "7"
    } else if d == 8 {
        "8"
    } else if d == 9 {
        "9"
    } else if d == 10 {
        "a"
    } else if d == 11 {
        "b"
    } else if d == 12 {
        "c"
    } else if d == 13 {
        "d"
    } else if d == 14 {
        "e"
    } else {
        "f"
    }
}

/// Appends one escaped character to `out`.
fn write_escaped_char(out: &mut String, c: char)
    ensures
        final(out)@ == old(out)@ + spec_escape_char(c),
{
    proof {
        reveal_strlit("\\\"");
        reveal_strlit("\\\\");
        reveal_strlit("\\b");
        reveal_strlit("\\t");
        reveal_strlit("\\n");
        reveal_strlit("\\f");
        reveal_strlit("\\r");
        reveal_strlit("\\u00");
    }
    if c == '"' {
        out.append("\\\"");
    } else if c == '\\' {
        out.append("\\\\");
    } else if c == '\u{8}' {
        out.append("\\b");
    } else if c == '\t' {
        out.append("\\t");
    } else if c == '\n' {
        out.append("\\n");
    } else if c == '\u{c}' {
        out.append("\\f");
    } else if c == '\r' {
        out.append("\\r");
    } else if (c as u32) < 0x20 || (c as u32) == 0x7f {
        let n = c as u32;
        out.append("\\u00");
        out.append(hex_str(n / 16));
        out.append(hex_str(n % 16));
        assert(out@ =~= old(out)@ + spec_escape_char(c));
    } else {
        push_char(out, c);
        assert(out@ =~= old(out)@ + spec_escape_char(c));
    }
}

/// Appends the JSON string literal for `s` to `out`.
pub fn write_json_string(out: &mut String, s: &str)
    ensures
        final(out)@ == old(out)@ + spec_json_string(s@),
{
    proof {
        reveal_strlit("\"");
    }
    out.append("\"");
    let len = s.unicode_len();
    let mut i: usize = 0;
    while i < len
        invariant
            len == s@.len(),
            i <= len,
            out@ == old(out)@ + seq!['"'] + spec_escape(s@.take(i as int)),
        decreases len - i,
    {
        let c = s.get_char(i);
        write_escaped_char(out, c);
        proof {
            lemma_escape_append(s@.take(i as int), seq![s@[i as int]]);
            assert(s@.take(i + 1) =~= s@.take(i as int) + seq![s@[i as int]]);
            assert(seq![s@[i as int]].drop_first() =~= Seq::<char>::empty());
            assert(spec_escape(Seq::<char>::empty()) =~= Seq::<char>::empty());
            assert(spec_escape(seq![s@[i as int]]) =~= spec_escape_char(s@[i as int]));
            assert(out@ =~= old(out)@ + seq!['"'] + spec_escape(s@.take(i + 1)));
        }
        i += 1;
    }
    out.append("\"");
    proof {
        assert(s@.take(len as int) =~= s@);
        assert(out@ =~= old(out)@ + spec_json_string(s@));
    }
}

} // verus!
