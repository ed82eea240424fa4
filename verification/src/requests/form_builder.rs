//! Coercion of field values to their wire form, and the assembly of a
//! multipart body from them.
//!
//! Every field of a multipart request is first coerced to a transport-
//! neutral form value: plain text, a file by path, a file by in-memory
//! buffer, or nothing at all for an unset optional. The assembler folds the
//! coerced fields into an ordered list of named parts; an absent field adds
//! no part. The assembly is finalized exactly once: a second finalization
//! is rejected and leaves the assembly unchanged.

use vstd::prelude::*;

use crate::json::{JsonModel, docs_model, docs_to_json, strings_json, strings_to_json};
use crate::jsontext::{render, spec_render};
use crate::numtext::{dec_int, i64_dec, u64_dec};
use crate::types::{ChatId, InlineKeyboardMarkup, InputFile, InputMedia, MaskPosition, ParseMode,
    ReplyMarkup, chat_id_text, parse_mode_text};

verus! {

/// The transport-neutral form of one field value.
#[derive(Debug, PartialEq)]
pub enum FormValue {
    /// Plain text under the field's name.
    Str(String),
    /// A file on the local filesystem, read when the form is dispatched.
    File(String),
    /// A file from an in-memory buffer, with its logical file name.
    Memory { file_name: String, data: Vec<u8> },
}

/// The mathematical value of a [`FormValue`].
pub ghost enum FormValueModel {
    Str(Seq<char>),
    File(Seq<char>),
    Memory { file_name: Seq<char>, data: Seq<u8> },
}

impl View for FormValue {
    type V = FormValueModel;

    open spec fn view(&self) -> FormValueModel {
        match self {
            FormValue::Str(s) => FormValueModel::Str(s@),
            FormValue::File(p) => FormValueModel::File(p@),
            FormValue::Memory { file_name, data } => FormValueModel::Memory {
                file_name: file_name@,
                data: data@,
            },
        }
    }
}

/// How a field value appears in a form: its coerced form value, or nothing
/// for a value that is omitted entirely.
pub trait IntoFormValue {
    /// The coerced wire form of this value, or `None` when the value adds
    /// nothing to the form.
    spec fn spec_form_value(&self) -> Option<FormValueModel>;

    /// Coerces this value; coercion never fails.
    fn into_form_value(&self) -> (r: Option<FormValue>)
        ensures
            match r {
                Some(fv) => self.spec_form_value() == Some(fv@),
                None => self.spec_form_value() is None,
            },
    ;
}

impl IntoFormValue for bool {
    open spec fn spec_form_value(&self) -> Option<FormValueModel> {
        Some(FormValueModel::Str(spec_render(JsonModel::Bool(*self))))
    }

    fn into_form_value(&self) -> (r: Option<FormValue>) {
        if *self {
            let s = "true".to_owned();
            proof {
                reveal_strlit("true");
                assert(s@ =~= spec_render(JsonModel::Bool(true)));
            }
            Some(FormValue::Str(s))
        } else {
            let s = "false".to_owned();
            proof {
                reveal_strlit("false");
                assert(s@ =~= spec_render(JsonModel::Bool(false)));
            }
            Some(FormValue::Str(s))
        }
    }
}

impl IntoFormValue for i32 {
    open spec fn spec_form_value(&self) -> Option<FormValueModel> {
        Some(FormValueModel::Str(dec_int(*self as int)))
    }

    fn into_form_value(&self) -> (r: Option<FormValue>) {
        Some(FormValue::Str(i64_dec(*self as i64)))
    }
}

impl IntoFormValue for i64 {
    open spec fn spec_form_value(&self) -> Option<FormValueModel> {
        Some(FormValueModel::Str(dec_int(*self as int)))
    }

    fn into_form_value(&self) -> (r: Option<FormValue>) {
        Some(FormValue::Str(i64_dec(*self)))
    }
}

impl IntoFormValue for u32 {
    open spec fn spec_form_value(&self) -> Option<FormValueModel> {
        Some(FormValueModel::Str(dec_int(*self as int)))
    }

    fn into_form_value(&self) -> (r: Option<FormValue>) {
        Some(FormValue::Str(u64_dec(*self as u64)))
    }
}

impl IntoFormValue for str {
    open spec fn spec_form_value(&self) -> Option<FormValueModel> {
        Some(FormValueModel::Str(self@))
    }

    fn into_form_value(&self) -> (r: Option<FormValue>) {
        Some(FormValue::Str(self.to_owned()))
    }
}

impl IntoFormValue for String {
    open spec fn spec_form_value(&self) -> Option<FormValueModel> {
        Some(FormValueModel::Str(self@))
    }

    fn into_form_value(&self) -> (r: Option<FormValue>) {
        Some(FormValue::Str(self.clone()))
    }
}

impl IntoFormValue for ChatId {
    open spec fn spec_form_value(&self) -> Option<FormValueModel> {
        Some(FormValueModel::Str(chat_id_text(self@)))
    }

    fn into_form_value(&self) -> (r: Option<FormValue>) {
        Some(FormValue::Str(self.to_text()))
    }
}

impl IntoFormValue for ParseMode {
    open spec fn spec_form_value(&self) -> Option<FormValueModel> {
        Some(FormValueModel::Str(parse_mode_text(*self)))
    }

    fn into_form_value(&self) -> (r: Option<FormValue>) {
        Some(FormValue::Str(self.to_text()))
    }
}

impl IntoFormValue for InputFile {
    open spec fn spec_form_value(&self) -> Option<FormValueModel> {
        match self@ {
            crate::types::InputFileModel::File(p) => Some(FormValueModel::File(p)),
            crate::types::InputFileModel::Memory { file_name, data } => Some(
                FormValueModel::Memory { file_name, data },
            ),
            crate::types::InputFileModel::Url(u) => Some(FormValueModel::Str(u)),
            crate::types::InputFileModel::FileId(id) => Some(FormValueModel::Str(id)),
        }
    }

    fn into_form_value(&self) -> (r: Option<FormValue>) {
        match self {
            InputFile::File(p) => Some(FormValue::File(p.clone())),
            InputFile::Memory { file_name, data } => Some(
                FormValue::Memory { file_name: file_name.clone(), data: data.clone() },
            ),
            InputFile::Url(u) => Some(FormValue::Str(u.clone())),
            InputFile::FileId(id) => Some(FormValue::Str(id.clone())),
        }
    }
}

impl IntoFormValue for ReplyMarkup {
    open spec fn spec_form_value(&self) -> Option<FormValueModel> {
        Some(FormValueModel::Str(spec_render(self@)))
    }

    fn into_form_value(&self) -> (r: Option<FormValue>) {
        Some(FormValue::Str(render(&self.doc)))
    }
}

impl IntoFormValue for InlineKeyboardMarkup {
    open spec fn spec_form_value(&self) -> Option<FormValueModel> {
        Some(FormValueModel::Str(spec_render(self@)))
    }

    fn into_form_value(&self) -> (r: Option<FormValue>) {
        Some(FormValue::Str(render(&self.doc)))
    }
}

impl IntoFormValue for MaskPosition {
    open spec fn spec_form_value(&self) -> Option<FormValueModel> {
        Some(FormValueModel::Str(spec_render(self@)))
    }

    fn into_form_value(&self) -> (r: Option<FormValue>) {
        Some(FormValue::Str(render(&self.doc)))
    }
}

impl IntoFormValue for InputMedia {
    open spec fn spec_form_value(&self) -> Option<FormValueModel> {
        Some(FormValueModel::Str(spec_render(self@)))
    }

    fn into_form_value(&self) -> (r: Option<FormValue>) {
        Some(FormValue::Str(render(&self.doc)))
    }
}

impl IntoFormValue for Vec<InputMedia> {
    open spec fn spec_form_value(&self) -> Option<FormValueModel> {
        Some(FormValueModel::Str(spec_render(JsonModel::Arr(docs_model(self@)))))
    }

    fn into_form_value(&self) -> (r: Option<FormValue>) {
        let doc = docs_to_json(self);
        Some(FormValue::Str(render(&doc)))
    }
}

impl IntoFormValue for Vec<String> {
    open spec fn spec_form_value(&self) -> Option<FormValueModel> {
        Some(FormValueModel::Str(spec_render(strings_json(self@))))
    }

    fn into_form_value(&self) -> (r: Option<FormValue>) {
        let doc = strings_to_json(self);
        Some(FormValue::Str(render(&doc)))
    }
}

impl<T: IntoFormValue> IntoFormValue for Option<T> {
    open spec fn spec_form_value(&self) -> Option<FormValueModel> {
        match self {
            Some(v) => v.spec_form_value(),
            None => None,
        }
    }

    fn into_form_value(&self) -> (r: Option<FormValue>) {
        match self {
            Some(v) => v.into_form_value(),
            None => None,
        }
    }
}

/// One named part of a multipart body.
#[derive(Debug, PartialEq)]
pub struct Part {
    pub name: String,
    pub content: PartContent,
}

/// What a part carries: text, a file to be read from a path when the form
/// is dispatched, or file bytes already in memory.
#[derive(Debug, PartialEq)]
pub enum PartContent {
    Text(String),
    FilePath(String),
    FileBytes { file_name: String, data: Vec<u8> },
}

/// The mathematical value of a [`Part`].
pub ghost struct PartModel {
    pub name: Seq<char>,
    pub content: PartContentModel,
}

pub ghost enum PartContentModel {
    Text(Seq<char>),
    FilePath(Seq<char>),
    FileBytes { file_name: Seq<char>, data: Seq<u8> },
}

impl View for Part {
    type V = PartModel;

    open spec fn view(&self) -> PartModel {
        PartModel {
            name: self.name@,
            content: match &self.content {
                PartContent::Text(s) => PartContentModel::Text(s@),
                PartContent::FilePath(p) => PartContentModel::FilePath(p@),
                PartContent::FileBytes { file_name, data } => PartContentModel::FileBytes {
                    file_name: file_name@,
                    data: data@,
                },
            },
        }
    }
}

impl DeepView for Part {
    type V = PartModel;

    open spec fn deep_view(&self) -> PartModel {
        self.view()
    }
}

/// The part that one coerced field value contributes under a field name.
pub open spec fn part_of(name: Seq<char>, fv: FormValueModel) -> PartModel {
    match fv {
        FormValueModel::Str(s) => PartModel { name, content: PartContentModel::Text(s) },
        FormValueModel::File(p) => PartModel { name, content: PartContentModel::FilePath(p) },
        FormValueModel::Memory { file_name, data } => PartModel {
            name,
            content: PartContentModel::FileBytes { file_name, data },
        },
    }
}

/// A part that carries a file, whichever source the bytes come from.
pub open spec fn is_file_part(p: PartModel) -> bool {
    p.content matches PartContentModel::FilePath(_) || p.content
        matches PartContentModel::FileBytes { .. }
}

/// A file field by path and a file field by buffer produce structurally
/// equivalent parts: the same part name, and a file part either way; only
/// the byte source differs.
pub proof fn lemma_file_part_sources_equivalent(
    name: Seq<char>,
    path: Seq<char>,
    file_name: Seq<char>,
    data: Seq<u8>,
)
    ensures
        part_of(name, FormValueModel::File(path)).name == part_of(
            name,
            FormValueModel::Memory { file_name, data },
        ).name,
        is_file_part(part_of(name, FormValueModel::File(path))),
        is_file_part(part_of(name, FormValueModel::Memory { file_name, data })),
{
}

/// The parts of a form after one more field is added: the field's coerced
/// part is appended, and an absent field appends nothing.
pub open spec fn form_step<T: IntoFormValue>(
    parts: Seq<PartModel>,
    name: Seq<char>,
    value: T,
) -> Seq<PartModel> {
    match value.spec_form_value() {
        None => parts,
        Some(fv) => parts.push(part_of(name, fv)),
    }
}

/// Whether some part of the form bears the given name.
pub open spec fn has_part(parts: Seq<PartModel>, name: Seq<char>) -> bool {
    exists|i: int| 0 <= i < parts.len() && #[trigger] parts[i].name == name
}

/// Adding a field under one name never brings a part under another name
/// into the form.
pub proof fn lemma_form_step_other_name<T: IntoFormValue>(
    parts: Seq<PartModel>,
    name: Seq<char>,
    value: T,
    other: Seq<char>,
)
    requires
        name != other,
        !has_part(parts, other),
    ensures
        !has_part(form_step(parts, name, value), other),
{
    match value.spec_form_value() {
        None => {},
        Some(fv) => {
            let u = parts.push(part_of(name, fv));
            assert forall|i: int| 0 <= i < u.len() implies #[trigger] u[i].name != other by {
                if i < parts.len() {
                    assert(u[i] == parts[i]);
                    assert(!(parts[i].name == other));
                } else {
                    assert(u[i] == part_of(name, fv));
                }
            }
        },
    }
}

/// A finished multipart body: its parts, in the order their fields were
/// added.
#[derive(Debug, PartialEq)]
pub struct MultipartForm {
    pub parts: Vec<Part>,
}

/// Builds a multipart body part by part from coerced field values.
#[derive(Debug)]
pub struct FormBuilder {
    parts: Vec<Part>,
    finalized: bool,
}

impl FormBuilder {
    /// The parts assembled so far, in order.
    pub closed spec fn spec_parts(&self) -> Seq<PartModel> {
        self.parts.deep_view()
    }

    /// Whether the assembly has already been finalized.
    pub closed spec fn spec_finalized(&self) -> bool {
        self.finalized
    }

    pub fn new() -> (r: Self)
        ensures
            r.spec_parts() == Seq::<PartModel>::empty(),
            !r.spec_finalized(),
    {
        let r = FormBuilder { parts: Vec::new(), finalized: false };
        proof {
            assert(r.spec_parts() =~= Seq::<PartModel>::empty());
        }
        r
    }

    /// Adds the supplied field under `name`: its coerced part is appended,
    /// and an absent value appends nothing.
    pub fn add<T: IntoFormValue>(self, name: &str, value: &T) -> (r: Self)
        ensures
            r.spec_finalized() == self.spec_finalized(),
            r.spec_parts() == match value.spec_form_value() {
                None => self.spec_parts(),
                Some(fv) => self.spec_parts().push(part_of(name@, fv)),
            },
    {
        match value.into_form_value() {
            Some(FormValue::Str(s)) => {
                let mut parts = self.parts;
                let ghost before = parts.deep_view();
                parts.push(Part { name: name.to_owned(), content: PartContent::Text(s) });
                proof {
                    assert(parts.deep_view() =~= before.push(parts@.last()@));
                }
                FormBuilder { parts, finalized: self.finalized }
            },
            Some(FormValue::File(p)) => self.add_file(name, p),
            Some(FormValue::Memory { file_name, data }) => self.add_file_from_memory(
                name,
                file_name,
                data,
            ),
            None => self,
        }
    }

    /// Adds a file part under `name` whose bytes are read from `path` when
    /// the form is dispatched.
    pub fn add_file(self, name: &str, path: String) -> (r: Self)
        ensures
            r.spec_finalized() == self.spec_finalized(),
            r.spec_parts() == self.spec_parts().push(
                part_of(name@, FormValueModel::File(path@)),
            ),
    {
        let mut parts = self.parts;
        let ghost before = parts.deep_view();
        parts.push(Part { name: name.to_owned(), content: PartContent::FilePath(path) });
        proof {
            assert(parts.deep_view() =~= before.push(parts@.last()@));
        }
        FormBuilder { parts, finalized: self.finalized }
    }

    /// Adds a file part under `name` from an in-memory buffer, labelled
    /// with `file_name`; no disk is touched.
    pub fn add_file_from_memory(self, name: &str, file_name: String, data: Vec<u8>) -> (r: Self)
        ensures
            r.spec_finalized() == self.spec_finalized(),
            r.spec_parts() == self.spec_parts().push(
                part_of(name@, FormValueModel::Memory { file_name: file_name@, data: data@ }),
            ),
    {
        let mut parts = self.parts;
        let ghost before = parts.deep_view();
        parts.push(
            Part { name: name.to_owned(), content: PartContent::FileBytes { file_name, data } },
        );
        proof {
            assert(parts.deep_view() =~= before.push(parts@.last()@));
        }
        FormBuilder { parts, finalized: self.finalized }
    }

    /// Finalizes the assembly into an immutable multipart body, exactly
    /// once. Re-finalizing an already finalized assembly is rejected: the
    /// call yields nothing, no part is duplicated, and the assembly is left
    /// as it was.
    pub fn build(&mut self) -> (r: Option<MultipartForm>)
        ensures
            old(self).spec_finalized() ==> r is None && *final (self) == *old(self),
            !old(self).spec_finalized() ==> final (self).spec_finalized() && (r matches Some(f)
                && f.parts.deep_view() == old(self).spec_parts()),
    {
        if self.finalized {
            None
        } else {
            self.finalized = true;
            let mut moved: Vec<Part> = Vec::new();
            core::mem::swap(&mut moved, &mut self.parts);
            Some(MultipartForm { parts: moved })
        }
    }
}

} // verus!
