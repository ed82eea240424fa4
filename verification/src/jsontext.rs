//! JSON text: rendering a document to its wire form, and parsing a response
//! body back into a document.
//!
//! Rendering is this crate's own verified code, specified character by
//! character by [`spec_render`]. Parsing is delegated to `serde_json` behind
//! trusted declarations, since the crate only ever reads documents that the
//! remote service produced.

use vstd::prelude::*;

use crate::json::{JsonModel, JsonValue, json_model, json_model_pairs, json_model_seq,
    lemma_json_model_pairs, lemma_json_model_seq};
use crate::numtext::{dec_int, i64_dec, push_char};

verus! {

/// The character for one hexadecimal digit.
pub open spec fn hex_char(d: int) -> char {
    if d == 0 {
        '0'
    } else if d == 1 {
        '1'
    } else if d == 2 {
        '2'
    } else if d == 3 {
        '3'
    } else if d == 4 {
        '4'
    } else if d == 5 {
        '5'
    } else if d == 6 {
        '6'
    } else if d == 7 {
        '7'
    } else if d == 8 {
        '8'
    } else if d == 9 {
        '9'
    } else if d == 10 {
        'a'
    } else if d == 11 {
        'b'
    } else if d == 12 {
        'c'
    } else if d == 13 {
        'd'
    } else if d == 14 {
        'e'
    } else {
        'f'
    }
}

/// How one character appears inside a JSON string literal: quotes and
/// backslashes are escaped, control characters take their short escape or a
/// `\u00XX` escape, and every other character stands as itself.
pub open spec fn escape_char(c: char) -> Seq<char> {
    if c == '"' {
        seq!['\\', '"']
    } else if c == '\\' {
        seq!['\\', '\\']
    } else if c == '\n' {
        seq!['\\', 'n']
    } else if c == '\r' {
        seq!['\\', 'r']
    } else if c == '\t' {
        seq!['\\', 't']
    } else if c as int == 8 {
        seq!['\\', 'b']
    } else if c as int == 12 {
        seq!['\\', 'f']
    } else if (c as int) < 32 {
        seq!['\\', 'u', '0', '0', hex_char((c as int) / 16), hex_char((c as int) % 16)]
    } else {
        seq![c]
    }
}

pub open spec fn escape_str(s: Seq<char>) -> Seq<char>
    decreases s.len(),
{
    if s.len() == 0 {
        Seq::empty()
    } else {
        escape_str(s.drop_last()) + escape_char(s.last())
    }
}

/// A JSON string literal: the escaped characters between double quotes.
pub open spec fn quote_str(s: Seq<char>) -> Seq<char> {
    seq!['"'] + escape_str(s) + seq!['"']
}

/// The wire text of a document: minimal JSON, no whitespace, fields in the
/// order the document lists them.
pub open spec fn spec_render(m: JsonModel) -> Seq<char>
    decreases m,
{
    match m {
        JsonModel::Null => seq!['n', 'u', 'l', 'l'],
        JsonModel::Bool(b) => if b {
            seq!['t', 'r', 'u', 'e']
        } else {
            seq!['f', 'a', 'l', 's', 'e']
        },
        JsonModel::Int(i) => dec_int(i),
        JsonModel::NumText(s) => s,
        JsonModel::Str(s) => quote_str(s),
        JsonModel::Arr(elems) => seq!['['] + render_elems(elems) + seq![']'],
        JsonModel::Obj(fields) => seq!['{'] + render_fields(fields) + seq!['}'],
    }
}

pub open spec fn render_elems(s: Seq<JsonModel>) -> Seq<char>
    decreases s,
{
    if s.len() == 0 {
        Seq::empty()
    } else if s.len() == 1 {
        spec_render(s[0])
    } else {
        render_elems(s.drop_last()) + seq![','] + spec_render(s.last())
    }
}

/// One `"name":value` binding.
pub open spec fn render_field(p: (Seq<char>, JsonModel)) -> Seq<char>
    decreases p,
{
    quote_str(p.0) + seq![':'] + spec_render(p.1)
}

pub open spec fn render_fields(s: Seq<(Seq<char>, JsonModel)>) -> Seq<char>
    decreases s,
{
    if s.len() == 0 {
        Seq::empty()
    } else if s.len() == 1 {
        render_field(s[0])
    } else {
        render_fields(s.drop_last()) + seq![','] + render_field(s.last())
    }
}

pub proof fn lemma_render_elems_snoc(t: Seq<JsonModel>, x: JsonModel)
    ensures
        render_elems(t.push(x)) == if t.len() == 0 {
            spec_render(x)
        } else {
            render_elems(t) + seq![','] + spec_render(x)
        },
{
    let u = t.push(x);
    assert(u.drop_last() =~= t);
    assert(u.last() == x);
    if t.len() == 0 {
        assert(u[0] == x);
    }
}

pub proof fn lemma_render_fields_snoc(t: Seq<(Seq<char>, JsonModel)>, x: (Seq<char>, JsonModel))
    ensures
        render_fields(t.push(x)) == if t.len() == 0 {
            render_field(x)
        } else {
            render_fields(t) + seq![','] + render_field(x)
        },
{
    let u = t.push(x);
    assert(u.drop_last() =~= t);
    assert(u.last() == x);
    if t.len() == 0 {
        assert(u[0] == x);
    }
}

pub proof fn lemma_escape_str_snoc(t: Seq<char>, c: char)
    ensures
        escape_str(t.push(c)) == escape_str(t) + escape_char(c),
{
    let u = t.push(c);
    assert(u.drop_last() =~= t);
    assert(u.last() == c);
}

fn hex_digit(d: u32) -> (c: char)
    requires
        d < 16,
    ensures
        c == hex_char(d as int),
{
    if d == 0 {
        '0'
    } else if d == 1 {
        '1'
    } else if d == 2 {
        '2'
    } else if d == 3 {
        '3'
    } else if d == 4 {
        '4'
    } else if d == 5 {
        '5'
    } else if d == 6 {
        '6'
    } else if d == 7 {
        '7'
    } else if d == 8 {
        '8'
    } else if d == 9 {
        '9'
    } else if d == 10 {
        'a'
    } else if d == 11 {
        'b'
    } else if d == 12 {
        'c'
    } else if d == 13 {
        'd'
    } else if d == 14 {
        'e'
    } else {
        'f'
    }
}

/// Appends one character's escaped form to `out`.
fn append_escaped_char(out: &mut String, c: char)
    ensures
        final (out)@ == old(out)@ + escape_char(c),
{
    if c == '"' {
        push_char(out, '\\');
        push_char(out, '"');
    } else if c == '\\' {
        push_char(out, '\\');
        push_char(out, '\\');
    } else if c == '\n' {
        push_char(out, '\\');
        push_char(out, 'n');
    } else if c == '\r' {
        push_char(out, '\\');
        push_char(out, 'r');
    } else if c == '\t' {
        push_char(out, '\\');
        push_char(out, 't');
    } else if (c as u32) == 8 {
        push_char(out, '\\');
        push_char(out, 'b');
    } else if (c as u32) == 12 {
        push_char(out, '\\');
        push_char(out, 'f');
    } else if (c as u32) < 32 {
        let v = c as u32;
        push_char(out, '\\');
        push_char(out, 'u');
        push_char(out, '0');
        push_char(out, '0');
        push_char(out, hex_digit(v / 16));
        push_char(out, hex_digit(v % 16));
    } else {
        push_char(out, c);
    }
    proof {
        assert(final (out)@ =~= old(out)@ + escape_char(c));
    }
}

/// Appends the escaped characters of `s` to `out`, without quotes.
fn append_escaped(out: &mut String, s: &str)
    ensures
        final (out)@ == old(out)@ + escape_str(s@),
{
    let n = s.unicode_len();
    let mut i: usize = 0;
    proof {
        assert(s@.subrange(0, 0) =~= Seq::<char>::empty());
        assert(old(out)@ + escape_str(s@.subrange(0, 0)) =~= old(out)@);
    }
    while i < n
        invariant
            i <= n,
            n == s@.len(),
            out@ == old(out)@ + escape_str(s@.subrange(0, i as int)),
        decreases n - i,
    {
        let c = s.get_char(i);
        append_escaped_char(out, c);
        proof {
            let pre = s@.subrange(0, i as int);
            assert(s@.subrange(0, i + 1) =~= pre.push(s@[i as int]));
            lemma_escape_str_snoc(pre, s@[i as int]);
        }
        i = i + 1;
    }
    proof {
        assert(s@.subrange(0, n as int) =~= s@);
    }
}

/// Renders a document to its wire text.
pub fn render(v: &JsonValue) -> (s: String)
    ensures
        s@ == spec_render(v@),
    decreases *v,
{
    match v {
        JsonValue::Null => {
            let s = literal_string("null");
            proof {
                reveal_strlit("null");
                assert(s@ =~= seq!['n', 'u', 'l', 'l']);
            }
            s
        },
        JsonValue::Bool(b) => {
            if *b {
                let s = literal_string("true");
                proof {
                    reveal_strlit("true");
                    assert(s@ =~= seq!['t', 'r', 'u', 'e']);
                }
                s
            } else {
                let s = literal_string("false");
                proof {
                    reveal_strlit("false");
                    assert(s@ =~= seq!['f', 'a', 'l', 's', 'e']);
                }
                s
            }
        },
        JsonValue::Int(i) => i64_dec(*i),
        JsonValue::NumText(t) => t.clone(),
        JsonValue::Str(t) => {
            let mut out = String::new();
            push_char(&mut out, '"');
            append_escaped(&mut out, t.as_str());
            push_char(&mut out, '"');
            proof {
                assert(out@ =~= quote_str(t@));
            }
            out
        },
        JsonValue::Arr(elems) => {
            let ghost gm = json_model_seq(elems@);
            proof {
                lemma_json_model_seq(elems@);
            }
            let mut out = String::new();
            push_char(&mut out, '[');
            let mut i: usize = 0;
            proof {
                assert(gm.subrange(0, 0) =~= Seq::<JsonModel>::empty());
                assert(out@ =~= seq!['['] + render_elems(gm.subrange(0, 0)));
            }
            while i < elems.len()
                invariant
                    i <= elems.len(),
                    *v == JsonValue::Arr(*elems),
                    gm == json_model_seq(elems@),
                    gm.len() == elems@.len(),
                    forall|j: int| 0 <= j < elems@.len() ==> gm[j] == json_model(elems@[j]),
                    out@ == seq!['['] + render_elems(gm.subrange(0, i as int)),
                decreases elems.len() - i,
            {
                if i > 0 {
                    push_char(&mut out, ',');
                }
                proof {
                    assert(decreases_to!(*v => v->Arr_0));
                    assert(decreases_to!(*elems => elems@));
                    assert(decreases_to!(elems@ => elems@[i as int]));
                    assert(decreases_to!(*v => elems@[i as int]));
                }
                let piece = render(&elems[i]);
                out.append(piece.as_str());
                proof {
                    let pre = gm.subrange(0, i as int);
                    assert(gm.subrange(0, i + 1) =~= pre.push(gm[i as int]));
                    lemma_render_elems_snoc(pre, gm[i as int]);
                    assert(out@ =~= seq!['['] + render_elems(gm.subrange(0, i + 1)));
                }
                i = i + 1;
            }
            push_char(&mut out, ']');
            proof {
                assert(gm.subrange(0, elems@.len() as int) =~= gm);
                assert(out@ =~= seq!['['] + render_elems(gm) + seq![']']);
            }
            out
        },
        JsonValue::Obj(fields) => {
            let ghost gm = json_model_pairs(fields@);
            proof {
                lemma_json_model_pairs(fields@);
            }
            let mut out = String::new();
            push_char(&mut out, '{');
            let mut i: usize = 0;
            proof {
                assert(gm.subrange(0, 0) =~= Seq::<(Seq<char>, JsonModel)>::empty());
                assert(out@ =~= seq!['{'] + render_fields(gm.subrange(0, 0)));
            }
            while i < fields.len()
                invariant
                    i <= fields.len(),
                    *v == JsonValue::Obj(*fields),
                    gm == json_model_pairs(fields@),
                    gm.len() == fields@.len(),
                    forall|j: int|
                        0 <= j < fields@.len() ==> gm[j] == (fields@[j].0@, json_model(
                            fields@[j].1,
                        )),
                    out@ == seq!['{'] + render_fields(gm.subrange(0, i as int)),
                decreases fields.len() - i,
            {
                if i > 0 {
                    push_char(&mut out, ',');
                }
                push_char(&mut out, '"');
                append_escaped(&mut out, fields[i].0.as_str());
                push_char(&mut out, '"');
                push_char(&mut out, ':');
                proof {
                    assert(decreases_to!(*v => v->Obj_0));
                    assert(decreases_to!(*fields => fields@));
                    assert(decreases_to!(fields@ => fields@[i as int]));
                    assert(decreases_to!(fields@[i as int] => fields@[i as int].1));
                    assert(decreases_to!(*v => fields@[i as int].1));
                }
                let piece = render(&fields[i].1);
                out.append(piece.as_str());
                proof {
                    let pre = gm.subrange(0, i as int);
                    assert(gm.subrange(0, i + 1) =~= pre.push(gm[i as int]));
                    lemma_render_fields_snoc(pre, gm[i as int]);
                    assert(render_field(gm[i as int]) == quote_str(fields@[i as int].0@) + seq![':']
                        + spec_render(gm[i as int].1));
                    assert(out@ =~= seq!['{'] + render_fields(gm.subrange(0, i + 1)));
                }
                i = i + 1;
            }
            push_char(&mut out, '}');
            proof {
                assert(gm.subrange(0, fields@.len() as int) =~= gm);
                assert(out@ =~= seq!['{'] + render_fields(gm) + seq!['}']);
            }
            out
        },
    }
}

/// An owned copy of a string literal.
fn literal_string(s: &str) -> (r: String)
    ensures
        r@ == s@,
{
    s.to_owned()
}

/// What `serde_json` yields for a given body text, as a document of this
/// crate. The result is a function of the text alone.
pub uninterp spec fn parsed_doc(s: Seq<char>) -> Option<JsonModel>;

/// What a `serde_json::Value` holds, as a document of this crate.
pub uninterp spec fn value_model(v: serde_json::Value) -> JsonModel;

/// Declares `serde_json::Value` so the two parse helpers below can pass
/// one along; the value is opaque here, and [`value_model`] names what it
/// holds.
#[verifier::external_type_specification]
#[verifier::external_body]
pub struct ExValue(serde_json::Value);

/// Relies on `serde_json::from_str::<serde_json::Value>`: parses a complete
/// JSON text, or fails; the outcome depends on the text alone.
#[verifier::external_body]
fn parse_value(s: &str) -> (r: Option<serde_json::Value>)
    ensures
        match r {
            Some(v) => parsed_doc(s@) == Some(value_model(v)),
            None => parsed_doc(s@) is None,
        },
{
    serde_json::from_str::<serde_json::Value>(s).ok()
}

/// Relies on `serde_json::Value`: each variant is carried over to this
/// crate's document type field for field; a number that fits a signed 64-bit
/// integer becomes that integer, any other numeric token keeps its decimal
/// text.
#[verifier::external_body]
fn value_to_json(v: serde_json::Value) -> (r: JsonValue)
    ensures
        r@ == value_model(v),
{
    match v {
        serde_json::Value::Null => JsonValue::Null,
        serde_json::Value::Bool(b) => JsonValue::Bool(b),
        serde_json::Value::Number(n) => match n.as_i64() {
            Some(i) => JsonValue::Int(i),
            None => JsonValue::NumText(n.to_string()),
        },
        serde_json::Value::String(s) => JsonValue::Str(s),
        serde_json::Value::Array(a) => JsonValue::Arr(a.into_iter().map(value_to_json).collect()),
        serde_json::Value::Object(m) => JsonValue::Obj(
            m.into_iter().map(|(k, x)| (k, value_to_json(x))).collect(),
        ),
    }
}

/// Parses a response body into a document, or reports that the text is not
/// JSON.
pub fn parse_json(s: &str) -> (r: Option<JsonValue>)
    ensures
        match r {
            Some(v) => parsed_doc(s@) == Some(v@),
            None => parsed_doc(s@) is None,
        },
{
    match parse_value(s) {
        Some(v) => Some(value_to_json(v)),
        None => None,
    }
}

} // verus!
