//! The JSON documents this crate builds and reads, with their mathematical
//! model.
//!
//! Requests are serialized into a [`JsonValue`] and rendered to text by
//! [`render`]; response bodies are parsed back into a [`JsonValue`] through
//! a trusted call into `serde_json`. All contracts speak of [`JsonModel`],
//! the spec-level value of a document.

use vstd::prelude::*;

verus! {

/// A JSON document.
///
/// Numbers are kept as signed 64-bit integers, which covers everything this
/// API reads or writes (identifiers, counts, error codes, retry hints). A
/// parsed numeric token outside that range is carried verbatim as its
/// decimal text in [`JsonValue::NumText`], so no element of a response is
/// lost.
#[derive(Debug, PartialEq)]
pub enum JsonValue {
    Null,
    Bool(bool),
    Int(i64),
    NumText(String),
    Str(String),
    Arr(Vec<JsonValue>),
    Obj(Vec<(String, JsonValue)>),
}

/// The mathematical value of a [`JsonValue`].
pub ghost enum JsonModel {
    Null,
    Bool(bool),
    Int(int),
    NumText(Seq<char>),
    Str(Seq<char>),
    Arr(Seq<JsonModel>),
    Obj(Seq<(Seq<char>, JsonModel)>),
}

pub open spec fn json_model(v: JsonValue) -> JsonModel
    decreases v,
{
    match v {
        JsonValue::Null => JsonModel::Null,
        JsonValue::Bool(b) => JsonModel::Bool(b),
        JsonValue::Int(i) => JsonModel::Int(i as int),
        JsonValue::NumText(s) => JsonModel::NumText(s@),
        JsonValue::Str(s) => JsonModel::Str(s@),
        JsonValue::Arr(elems) => JsonModel::Arr(json_model_seq(elems@)),
        JsonValue::Obj(fields) => JsonModel::Obj(json_model_pairs(fields@)),
    }
}

pub open spec fn json_model_seq(s: Seq<JsonValue>) -> Seq<JsonModel>
    decreases s,
{
    if s.len() == 0 {
        Seq::empty()
    } else {
        json_model_seq(s.drop_last()).push(json_model(s.last()))
    }
}

pub open spec fn json_model_pairs(s: Seq<(String, JsonValue)>) -> Seq<(Seq<char>, JsonModel)>
    decreases s,
{
    if s.len() == 0 {
        Seq::empty()
    } else {
        json_model_pairs(s.drop_last()).push((s.last().0@, json_model(s.last().1)))
    }
}

impl View for JsonValue {
    type V = JsonModel;

    open spec fn view(&self) -> JsonModel {
        json_model(*self)
    }
}

pub proof fn lemma_json_model_seq(s: Seq<JsonValue>)
    ensures
        json_model_seq(s).len() == s.len(),
        forall|i: int| 0 <= i < s.len() ==> json_model_seq(s)[i] == json_model(s[i]),
    decreases s.len(),
{
    if s.len() > 0 {
        lemma_json_model_seq(s.drop_last());
        assert(forall|i: int| 0 <= i < s.len() - 1 ==> s.drop_last()[i] == s[i]);
    }
}

pub proof fn lemma_json_model_pairs(s: Seq<(String, JsonValue)>)
    ensures
        json_model_pairs(s).len() == s.len(),
        forall|i: int| 0 <= i < s.len() ==> json_model_pairs(s)[i] == (s[i].0@,
        json_model(s[i].1)),
    decreases s.len(),
{
    if s.len() > 0 {
        lemma_json_model_pairs(s.drop_last());
        assert(forall|i: int| 0 <= i < s.len() - 1 ==> s.drop_last()[i] == s[i]);
    }
}

pub proof fn lemma_json_model_seq_snoc(s: Seq<JsonValue>, x: JsonValue)
    ensures
        json_model_seq(s.push(x)) == json_model_seq(s).push(json_model(x)),
{
    let u = s.push(x);
    assert(u.drop_last() =~= s);
    assert(u.last() == x);
}

pub proof fn lemma_json_model_pairs_snoc(s: Seq<(String, JsonValue)>, x: (String, JsonValue))
    ensures
        json_model_pairs(s.push(x)) == json_model_pairs(s).push((x.0@, json_model(x.1))),
{
    let u = s.push(x);
    assert(u.drop_last() =~= s);
    assert(u.last() == x);
}

/// Appends one `name: value` binding to an object under construction.
pub fn push_field(fields: &mut Vec<(String, JsonValue)>, name: &str, value: JsonValue)
    ensures
        json_model_pairs(final (fields)@) == json_model_pairs(old(fields)@).push((name@, value@)),
{
    let ghost orig = fields@;
    let ghost pushed_name = name@;
    let ghost pushed_model = value@;
    let owned: String = name.to_owned();
    fields.push((owned, value));
    proof {
        lemma_json_model_pairs_snoc(orig, fields@.last());
        assert(fields@.last().0@ == pushed_name);
        assert(json_model(fields@.last().1) == pushed_model);
    }
}

/// The models of a sequence of strings, each as a JSON string.
pub open spec fn strings_model(s: Seq<String>) -> Seq<JsonModel>
    decreases s.len(),
{
    if s.len() == 0 {
        Seq::empty()
    } else {
        strings_model(s.drop_last()).push(JsonModel::Str(s.last()@))
    }
}

/// A JSON array of strings.
pub open spec fn strings_json(s: Seq<String>) -> JsonModel {
    JsonModel::Arr(strings_model(s))
}

pub proof fn lemma_strings_model_snoc(s: Seq<String>, x: String)
    ensures
        strings_model(s.push(x)) == strings_model(s).push(JsonModel::Str(x@)),
{
    let u = s.push(x);
    assert(u.drop_last() =~= s);
    assert(u.last() == x);
}

/// Renders a sequence of strings as a JSON array value.
pub fn strings_to_json(v: &Vec<String>) -> (r: JsonValue)
    ensures
        r@ == strings_json(v@),
{
    let mut out: Vec<JsonValue> = Vec::new();
    let mut i: usize = 0;
    proof {
        assert(v@.subrange(0, 0) =~= Seq::<String>::empty());
    }
    while i < v.len()
        invariant
            i <= v.len(),
            json_model_seq(out@) == strings_model(v@.subrange(0, i as int)),
        decreases v.len() - i,
    {
        let ghost before = out@;
        out.push(JsonValue::Str(v[i].clone()));
        proof {
            lemma_json_model_seq_snoc(before, out@.last());
            assert(v@.subrange(0, i + 1) =~= v@.subrange(0, i as int).push(v@[i as int]));
            lemma_strings_model_snoc(v@.subrange(0, i as int), v@[i as int]);
        }
        i = i + 1;
    }
    proof {
        assert(v@.subrange(0, v@.len() as int) =~= v@);
    }
    JsonValue::Arr(out)
}

/// A value whose mathematical content is a JSON document, and which can
/// yield that document as a [`JsonValue`].
pub trait AsJson: View<V = JsonModel> {
    fn to_json_value(&self) -> (r: JsonValue)
        ensures
            r@ == self@,
    ;
}

/// The models of a sequence of document-valued items.
pub open spec fn docs_model<T: View<V = JsonModel>>(s: Seq<T>) -> Seq<JsonModel>
    decreases s.len(),
{
    if s.len() == 0 {
        Seq::empty()
    } else {
        docs_model(s.drop_last()).push(s.last()@)
    }
}

pub proof fn lemma_docs_model_snoc<T: View<V = JsonModel>>(s: Seq<T>, x: T)
    ensures
        docs_model(s.push(x)) == docs_model(s).push(x@),
{
    let u = s.push(x);
    assert(u.drop_last() =~= s);
    assert(u.last() == x);
}

/// Renders a sequence of document-valued items as a JSON array value.
pub fn docs_to_json<T: AsJson>(v: &Vec<T>) -> (r: JsonValue)
    ensures
        r@ == JsonModel::Arr(docs_model(v@)),
{
    let mut out: Vec<JsonValue> = Vec::new();
    let mut i: usize = 0;
    proof {
        assert(v@.subrange(0, 0) =~= Seq::<T>::empty());
    }
    while i < v.len()
        invariant
            i <= v.len(),
            json_model_seq(out@) == docs_model(v@.subrange(0, i as int)),
        decreases v.len() - i,
    {
        let ghost before = out@;
        let piece = v[i].to_json_value();
        out.push(piece);
        proof {
            lemma_json_model_seq_snoc(before, out@.last());
            assert(v@.subrange(0, i + 1) =~= v@.subrange(0, i as int).push(v@[i as int]));
            lemma_docs_model_snoc(v@.subrange(0, i as int), v@[i as int]);
        }
        i = i + 1;
    }
    proof {
        assert(v@.subrange(0, v@.len() as int) =~= v@);
    }
    JsonValue::Arr(out)
}

/// The value under `key` in an object's field list: the first binding wins.
pub open spec fn obj_lookup(fields: Seq<(Seq<char>, JsonModel)>, key: Seq<char>) -> Option<
    JsonModel,
>
    decreases fields.len(),
{
    if fields.len() == 0 {
        None
    } else if fields[0].0 == key {
        Some(fields[0].1)
    } else {
        obj_lookup(fields.drop_first(), key)
    }
}

/// [`obj_lookup`] over a whole document: `None` unless it is an object
/// holding the key.
pub open spec fn doc_lookup(m: JsonModel, key: Seq<char>) -> Option<JsonModel> {
    match m {
        JsonModel::Obj(fields) => obj_lookup(fields, key),
        _ => None,
    }
}

impl JsonValue {
    /// Looks `key` up in this document, if it is an object.
    pub fn get<'a>(&'a self, key: &str) -> (r: Option<&'a JsonValue>)
        ensures
            match r {
                Some(v) => doc_lookup(self@, key@) == Some(v@),
                None => doc_lookup(self@, key@) is None,
            },
    {
        match self {
            JsonValue::Obj(fields) => {
                let wanted: String = key.to_owned();
                let ghost gfields = json_model_pairs(fields@);
                proof {
                    lemma_json_model_pairs(fields@);
                }
                let mut i: usize = 0;
                proof {
                    assert(gfields.skip(0) =~= gfields);
                }
                while i < fields.len()
                    invariant
                        i <= fields.len(),
                        wanted@ == key@,
                        *self == JsonValue::Obj(*fields),
                        gfields == json_model_pairs(fields@),
                        gfields.len() == fields@.len(),
                        forall|j: int|
                            0 <= j < fields@.len() ==> gfields[j] == (fields@[j].0@, json_model(
                                fields@[j].1,
                            )),
                        obj_lookup(gfields, key@) == obj_lookup(
                            gfields.skip(i as int),
                            key@,
                        ),
                    decreases fields.len() - i,
                {
                    if fields[i].0 == wanted {
                        proof {
                            assert(gfields.skip(i as int)[0] == gfields[i as int]);
                        }
                        return Some(&fields[i].1);
                    }
                    proof {
                        assert(gfields.skip(i as int)[0] == gfields[i as int]);
                        assert(gfields.skip(i as int).drop_first() =~= gfields.skip(i + 1));
                    }
                    i = i + 1;
                }
                None
            },
            _ => None,
        }
    }

    /// A structurally equal copy of this document.
    pub fn deep_copy(&self) -> (r: JsonValue)
        ensures
            r@ == self@,
        decreases *self,
    {
        match self {
            JsonValue::Null => JsonValue::Null,
            JsonValue::Bool(b) => JsonValue::Bool(*b),
            JsonValue::Int(i) => JsonValue::Int(*i),
            JsonValue::NumText(s) => JsonValue::NumText(s.clone()),
            JsonValue::Str(s) => JsonValue::Str(s.clone()),
            JsonValue::Arr(elems) => {
                let mut out: Vec<JsonValue> = Vec::new();
                let mut i: usize = 0;
                while i < elems.len()
                    invariant
                        i <= elems.len(),
                        out@.len() == i,
                        forall|j: int| 0 <= j < i ==> json_model(out@[j]) == json_model(elems@[j]),
                        *self == JsonValue::Arr(*elems),
                    decreases elems.len() - i,
                {
                    proof {
                        assert(decreases_to!(*self => self->Arr_0));
                        assert(decreases_to!(*elems => elems@));
                        assert(decreases_to!(elems@ => elems@[i as int]));
                        assert(decreases_to!(*self => elems@[i as int]));
                    }
                    let copied = elems[i].deep_copy();
                    out.push(copied);
                    i = i + 1;
                }
                proof {
                    lemma_json_model_seq(out@);
                    lemma_json_model_seq(elems@);
                    assert(json_model_seq(out@) =~= json_model_seq(elems@));
                }
                JsonValue::Arr(out)
            },
            JsonValue::Obj(fields) => {
                let mut out: Vec<(String, JsonValue)> = Vec::new();
                let mut i: usize = 0;
                while i < fields.len()
                    invariant
                        i <= fields.len(),
                        out@.len() == i,
                        forall|j: int|
                            0 <= j < i ==> out@[j].0@ == fields@[j].0@ && json_model(out@[j].1)
                                == json_model(fields@[j].1),
                        *self == JsonValue::Obj(*fields),
                    decreases fields.len() - i,
                {
                    proof {
                        assert(decreases_to!(*self => self->Obj_0));
                        assert(decreases_to!(*fields => fields@));
                        assert(decreases_to!(fields@ => fields@[i as int]));
                        assert(decreases_to!(fields@[i as int] => fields@[i as int].1));
                        assert(decreases_to!(*self => fields@[i as int].1));
                    }
                    let name = fields[i].0.clone();
                    let copied = fields[i].1.deep_copy();
                    out.push((name, copied));
                    i = i + 1;
                }
                proof {
                    lemma_json_model_pairs(out@);
                    lemma_json_model_pairs(fields@);
                    assert(json_model_pairs(out@) =~= json_model_pairs(fields@));
                }
                JsonValue::Obj(out)
            },
        }
    }
}

} // verus!
