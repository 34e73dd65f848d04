//! Generic JSON model for the response pipeline.
//!
//! Response text is parsed once, through a trusted call into
//! `serde_json`, into the plain [`Json`] value below; every shape rule
//! of the protocol is then verified code over that value.

use vstd::prelude::*;

use crate::error::Error;
use crate::strutil::push_char;

verus! {

/// A parsed JSON value, as far as this protocol reads one: numbers the
/// protocol uses are small integers, so anything outside `i64` is
/// carried opaquely as `OtherNum`.
#[derive(Debug, PartialEq)]
pub enum Json {
    Null,
    Bool(bool),
    Int(i64),
    Text(String),
    Arr(Vec<Json>),
    Obj(Vec<(String, Json)>),
    OtherNum,
}

/// First binding of a key in an object's field list, if any.
pub open spec fn spec_obj_get(fields: Seq<(String, Json)>, key: Seq<char>) -> Option<Json>
    decreases fields.len(),
{
    if fields.len() == 0 {
        None
    } else if fields.first().0@ == key {
        Some(fields.first().1)
    } else {
        spec_obj_get(fields.drop_first(), key)
    }
}

/// Looks a key up in an object's field list.
pub fn obj_get<'a>(fields: &'a Vec<(String, Json)>, key: &str) -> (r: Option<&'a Json>)
    ensures
        match r {
            Some(v) => spec_obj_get(fields@, key@) == Some(*v),
            None => spec_obj_get(fields@, key@) is None,
        },
{
    let mut i: usize = 0;
    proof {
        assert(fields@.skip(0) =~= fields@);
    }
    while i < fields.len()
        invariant
            i <= fields@.len(),
            spec_obj_get(fields@, key@) == spec_obj_get(fields@.skip(i as int), key@),
        decreases fields@.len() - i,
    {
        proof {
            assert(fields@.skip(i as int).first() == fields@[i as int]);
            assert(fields@.skip(i as int).drop_first() =~= fields@.skip(i + 1));
        }
        if crate::strutil::str_eq(fields[i].0.as_str(), key) {
            return Some(&fields[i].1);
        }
        i = i + 1;
    }
    proof {
        assert(fields@.skip(i as int) =~= Seq::<(String, Json)>::empty());
    }
    None
}

#[verifier::external_type_specification]
#[verifier::external_body]
pub struct ExValue(serde_json::Value);

/// The JSON value a string parses to, when it parses at all: parsing
/// depends on the string alone.
pub uninterp spec fn spec_parse_json(s: Seq<char>) -> Option<Json>;

/// Relies on serde_json::Value: the variants are told apart one arm
/// each; a number outside `i64` becomes `OtherNum`; object fields keep
/// the order serde_json's map iterates them in.
#[verifier::external_body]
fn json_of_value(v: serde_json::Value) -> Json {
    match v {
        serde_json::Value::Null => Json::Null,
        serde_json::Value::Bool(b) => Json::Bool(b),
        serde_json::Value::Number(n) => match n.as_i64() {
            Some(i) => Json::Int(i),
            None => Json::OtherNum,
        },
        serde_json::Value::String(s) => Json::Text(s),
        serde_json::Value::Array(a) => Json::Arr(a.into_iter().map(json_of_value).collect()),
        serde_json::Value::Object(o) => Json::Obj(
            o.into_iter().map(|(k, x)| (k, json_of_value(x))).collect(),
        ),
    }
}

/// Relies on serde_json::from_str::<Value>: whether a string is valid
/// JSON, and what it parses to, are functions of the string alone; on
/// failure the parser's diagnostic is returned as text.
#[verifier::external_body]
fn parse_json_raw(s: &str) -> (r: Result<Json, String>)
    ensures
        r matches Ok(j) ==> spec_parse_json(s@) == Some(j),
        r is Err ==> spec_parse_json(s@) is None,
{
    match serde_json::from_str::<serde_json::Value>(s) {
        Ok(v) => Ok(json_of_value(v)),
        Err(e) => Err(e.to_string()),
    }
}

/// Parses response text into the JSON model; a parse failure is a
/// JSON-decode error whose message carries the parser's diagnostic
/// and ends with the offending text itself.
pub fn parse_json(s: &str) -> (r: Result<Json, Error>)
    ensures
        match spec_parse_json(s@) {
            Some(j) => r == Ok::<Json, Error>(j),
            None => r matches Err(e) && e matches Error::Json(m) && m@.len() >= s@.len()
                && m@.subrange(m@.len() - s@.len(), m@.len() as int) == s@,
        },
{
    match parse_json_raw(s) {
        Ok(j) => Ok(j),
        Err(d) => {
            let mut m = d;
            m.append(" while parsing ");
            m.append(s);
            proof {
                assert(m@.subrange(m@.len() - s@.len(), m@.len() as int) =~= s@);
            }
            Err(Error::Json(m))
        },
    }
}

/// One character of JSON string-escaping: quote and backslash get a
/// backslash, control characters become a `\u00..` sequence, the rest
/// stand as themselves.
pub open spec fn spec_escape_char(c: char) -> Seq<char> {
    if c == '"' {
        seq!['\\', '"']
    } else if c == '\\' {
        seq!['\\', '\\']
    } else if (c as u32) < 32 {
        seq![
            '\\',
            'u',
            '0',
            '0',
            crate::strutil::spec_hex_digit(((c as u32) / 16) as u8),
            crate::strutil::spec_hex_digit(((c as u32) % 16) as u8),
        ]
    } else {
        seq![c]
    }
}

/// JSON string-escaping of a whole character sequence.
pub open spec fn spec_escape(s: Seq<char>) -> Seq<char>
    decreases s.len(),
{
    if s.len() == 0 {
        Seq::<char>::empty()
    } else {
        spec_escape_char(s.first()) + spec_escape(s.drop_first())
    }
}

/// Decimal rendering of a JSON integer, with its sign.
pub open spec fn spec_render_int(i: i64) -> Seq<char> {
    if i >= 0 {
        crate::strutil::spec_dec(i as nat)
    } else {
        seq!['-'] + crate::strutil::spec_dec((-(i as int)) as nat)
    }
}

/// The compact textual rendering of a JSON value, as decode
/// diagnostics embed it; a number that was carried opaquely renders
/// as a placeholder token.
pub open spec fn spec_render_json(j: Json) -> Seq<char>
    decreases j,
{
    match j {
        Json::Null => "null"@,
        Json::Bool(b) => if b {
            "true"@
        } else {
            "false"@
        },
        Json::Int(i) => spec_render_int(i),
        Json::Text(t) => seq!['"'] + spec_escape(t@) + seq!['"'],
        Json::Arr(items) => seq!['['] + spec_render_list(items@) + seq![']'],
        Json::Obj(fields) => seq!['{'] + spec_render_fields(fields@) + seq!['}'],
        Json::OtherNum => "<number>"@,
    }
}

/// Comma-separated renderings of an array's items.
pub open spec fn spec_render_list(items: Seq<Json>) -> Seq<char>
    decreases items,
{
    if items.len() == 0 {
        Seq::<char>::empty()
    } else if items.len() == 1 {
        spec_render_json(items.first())
    } else {
        spec_render_json(items.first()) + seq![','] + spec_render_list(items.drop_first())
    }
}

/// Comma-separated renderings of an object's fields.
pub open spec fn spec_render_fields(fields: Seq<(String, Json)>) -> Seq<char>
    decreases fields,
{
    if fields.len() == 0 {
        Seq::<char>::empty()
    } else if fields.len() == 1 {
        spec_render_field(fields.first())
    } else {
        spec_render_field(fields.first()) + seq![','] + spec_render_fields(fields.drop_first())
    }
}

/// One rendered field: quoted escaped key, colon, value.
pub open spec fn spec_render_field(field: (String, Json)) -> Seq<char>
    decreases field,
{
    seq!['"'] + spec_escape(field.0@) + seq!['"', ':'] + spec_render_json(field.1)
}

/// Escapes text for embedding in a rendered JSON string.
fn escape_str(s: &str) -> (r: String)
    ensures
        r@ == spec_escape(s@),
{
    let len = s.unicode_len();
    let mut r = String::new();
    let mut i: usize = 0;
    proof {
        assert(s@.skip(0) =~= s@);
        assert(r@ + spec_escape(s@) =~= spec_escape(s@));
    }
    while i < len
        invariant
            len == s@.len(),
            i <= len,
            spec_escape(s@) =~= r@ + spec_escape(s@.skip(i as int)),
        decreases len - i,
    {
        let c = s.get_char(i);
        proof {
            assert(s@.skip(i as int).first() == s@[i as int]);
            assert(s@.skip(i as int).drop_first() =~= s@.skip(i + 1));
        }
        if c == '"' {
            push_char(&mut r, '\\');
            push_char(&mut r, '"');
        } else if c == '\\' {
            push_char(&mut r, '\\');
            push_char(&mut r, '\\');
        } else if (c as u32) < 32 {
            let u = c as u32;
            push_char(&mut r, '\\');
            push_char(&mut r, 'u');
            push_char(&mut r, '0');
            push_char(&mut r, '0');
            push_char(&mut r, crate::strutil::hex_digit((u / 16) as u8));
            push_char(&mut r, crate::strutil::hex_digit((u % 16) as u8));
        } else {
            push_char(&mut r, c);
        }
        i = i + 1;
    }
    proof {
        assert(s@.skip(i as int) =~= Seq::<char>::empty());
        assert(r@ =~= spec_escape(s@));
    }
    r
}

/// Renders a JSON integer.
fn render_int(i: i64) -> (r: String)
    ensures
        r@ == spec_render_int(i),
{
    if i >= 0 {
        crate::strutil::u64_to_dec(i as u64)
    } else {
        let magnitude: u64 = if i == i64::MIN {
            9223372036854775808u64
        } else {
            (-i) as u64
        };
        let mut r = "-".to_owned();
        r.append(crate::strutil::u64_to_dec(magnitude).as_str());
        proof {
            reveal_strlit("-");
            assert(r@ =~= spec_render_int(i));
        }
        r
    }
}

/// Renders a JSON value compactly, for decode diagnostics.
pub fn render_json(j: &Json) -> (r: String)
    ensures
        r@ == spec_render_json(*j),
    decreases *j,
{
    match j {
        Json::Null => "null".to_owned(),
        Json::Bool(b) => if *b {
            "true".to_owned()
        } else {
            "false".to_owned()
        },
        Json::Int(i) => render_int(*i),
        Json::Text(t) => {
            let mut r = "\"".to_owned();
            r.append(escape_str(t.as_str()).as_str());
            r.append("\"");
            proof {
                reveal_strlit("\"");
                assert(r@ =~= spec_render_json(*j));
            }
            r
        },
        Json::Arr(items) => {
            let mut r = "[".to_owned();
            r.append(render_list(items, 0).as_str());
            r.append("]");
            proof {
                reveal_strlit("[");
                reveal_strlit("]");
                assert(items@.skip(0) =~= items@);
                assert(r@ =~= spec_render_json(*j));
            }
            r
        },
        Json::Obj(fields) => {
            let mut r = "{".to_owned();
            r.append(render_fields(fields, 0).as_str());
            r.append("}");
            proof {
                reveal_strlit("{");
                reveal_strlit("}");
                assert(fields@.skip(0) =~= fields@);
                assert(r@ =~= spec_render_json(*j));
            }
            r
        },
        Json::OtherNum => "<number>".to_owned(),
    }
}

/// Renders the items of an array from the given position on.
fn render_list(items: &Vec<Json>, i: usize) -> (r: String)
    requires
        i <= items@.len(),
    ensures
        r@ == spec_render_list(items@.skip(i as int)),
    decreases items@, items@.len() - i,
{
    if i == items.len() {
        proof {
            assert(items@.skip(i as int) =~= Seq::<Json>::empty());
        }
        String::new()
    } else {
        proof {
            assert(items@.skip(i as int).first() == items@[i as int]);
            assert(items@.skip(i as int).drop_first() =~= items@.skip(i + 1));
        }
        let mut r = render_json(&items[i]);
        if i + 1 < items.len() {
            push_char(&mut r, ',');
            r.append(render_list(items, i + 1).as_str());
            proof {
                assert(r@ =~= spec_render_list(items@.skip(i as int)));
            }
        }
        r
    }
}

/// Renders the fields of an object from the given position on.
fn render_fields(fields: &Vec<(String, Json)>, i: usize) -> (r: String)
    requires
        i <= fields@.len(),
    ensures
        r@ == spec_render_fields(fields@.skip(i as int)),
    decreases fields@, fields@.len() - i,
{
    if i == fields.len() {
        proof {
            assert(fields@.skip(i as int) =~= Seq::<(String, Json)>::empty());
        }
        String::new()
    } else {
        proof {
            assert(fields@.skip(i as int).first() == fields@[i as int]);
            assert(fields@.skip(i as int).drop_first() =~= fields@.skip(i + 1));
        }
        let mut r = "\"".to_owned();
        r.append(escape_str(fields[i].0.as_str()).as_str());
        r.append("\":");
        r.append(render_json(&fields[i].1).as_str());
        proof {
            reveal_strlit("\"");
            reveal_strlit("\":");
            assert(r@ =~= spec_render_field(fields@[i as int]));
        }
        if i + 1 < fields.len() {
            push_char(&mut r, ',');
            r.append(render_fields(fields, i + 1).as_str());
            proof {
                assert(r@ =~= spec_render_fields(fields@.skip(i as int)));
            }
        }
        r
    }
}

} // verus!
