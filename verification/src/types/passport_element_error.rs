//! An error in a submitted passport element that the user has to resolve.
//!
//! On the wire an element error is one flat object: the message, a `source`
//! tag naming the kind, the section `type`, and the kind's own fields.
//! [`passport_element_error_json`] states that object exactly, and
//! [`PassportElementError::to_json`] produces it.

use vstd::prelude::*;

use crate::json::{JsonModel, JsonValue, push_field, strings_json, strings_to_json};

verus! {

/// An error in a passport element which was submitted and should be
/// resolved by the user.
#[derive(Debug, Clone, PartialEq, Eq, Hash)]
pub struct PassportElementError {
    /// Error message.
    pub message: String,
    /// Which part of the element is at fault.
    pub kind: PassportElementErrorKind,
}

#[derive(Debug, Clone, PartialEq, Eq, Hash)]
pub enum PassportElementErrorKind {
    DataField(PassportElementErrorDataField),
    FrontSide(PassportElementErrorFrontSide),
    ReverseSide(PassportElementErrorReverseSide),
    Selfie(PassportElementErrorSelfie),
    File(PassportElementErrorFile),
    Files(PassportElementErrorFiles),
    TranslationFile(PassportElementErrorTranslationFile),
    TranslationFiles(PassportElementErrorTranslationFiles),
    Unspecified(PassportElementErrorUnspecified),
}

/// An issue in one of the data fields that was provided by the user. The
/// error is considered resolved when the field's value changes.
#[derive(Debug, Clone, PartialEq, Eq, Hash)]
pub struct PassportElementErrorDataField {
    /// The section of the user's passport which has the error.
    pub element_type: PassportElementErrorDataFieldType,
    /// Name of the data field which has the error.
    pub field_name: String,
    /// Base64-encoded data hash.
    pub data_hash: String,
}

/// An issue with the front side of a document, resolved when the file with
/// the front side changes.
#[derive(Debug, Clone, PartialEq, Eq, Hash)]
pub struct PassportElementErrorFrontSide {
    /// The section of the user's passport which has the issue.
    pub element_type: PassportElementErrorFrontSideType,
    /// Base64-encoded hash of the file with the front side of the document.
    pub file_hash: String,
}

/// An issue with the reverse side of a document, resolved when the file
/// with the reverse side changes.
#[derive(Debug, Clone, PartialEq, Eq, Hash)]
pub struct PassportElementErrorReverseSide {
    /// The section of the user's passport which has the issue.
    pub element_type: PassportElementErrorReverseSideType,
    /// Base64-encoded hash of the file with the reverse side of the
    /// document.
    pub file_hash: String,
}

/// An issue with the selfie with a document, resolved when the file with
/// the selfie changes.
#[derive(Debug, Clone, PartialEq, Eq, Hash)]
pub struct PassportElementErrorSelfie {
    /// The section of the user's passport which has the issue.
    pub element_type: PassportElementErrorSelfieType,
    /// Base64-encoded hash of the file with the selfie.
    pub file_hash: String,
}

/// An issue with a document scan, resolved when the file with the scan
/// changes.
#[derive(Debug, Clone, PartialEq, Eq, Hash)]
pub struct PassportElementErrorFile {
    /// The section of the user's passport which has the issue.
    pub element_type: PassportElementErrorFileType,
    /// Base64-encoded file hash.
    pub file_hash: String,
}

/// An issue with a list of scans, resolved when the list of files changes.
#[derive(Debug, Clone, PartialEq, Eq, Hash)]
pub struct PassportElementErrorFiles {
    /// The section of the user's passport which has the issue.
    pub element_type: PassportElementErrorFilesType,
    /// List of base64-encoded file hashes.
    pub file_hashes: Vec<String>,
}

/// An issue with one of the files that constitute the translation of a
/// document, resolved when the file changes.
#[derive(Debug, Clone, PartialEq, Eq, Hash)]
pub struct PassportElementErrorTranslationFile {
    /// Type of element of the user's passport which has the issue.
    pub element_type: PassportElementErrorTranslationFileType,
    /// Base64-encoded file hash.
    pub file_hash: String,
}

/// An issue with the translated version of a document, resolved when a file
/// with the translation changes.
#[derive(Debug, Clone, PartialEq, Eq, Hash)]
pub struct PassportElementErrorTranslationFiles {
    /// Type of element of the user's passport which has the issue.
    pub element_type: PassportElementErrorTranslationFilesType,
    /// List of base64-encoded file hashes.
    pub file_hashes: Vec<String>,
}

/// An issue in an unspecified place, resolved when new data is added.
#[derive(Debug, Clone, PartialEq, Eq, Hash)]
pub struct PassportElementErrorUnspecified {
    /// Type of element of the user's passport which has the issue.
    pub element_type: PassportElementErrorUnspecifiedType,
    /// Base64-encoded element hash.
    pub element_hash: String,
}

#[derive(Debug, Clone, Copy, PartialEq, Eq, Hash)]
pub enum PassportElementErrorDataFieldType {
    PersonalDetails,
    Passport,
    DriverLicense,
    IdentityCard,
    InternalPassport,
    Address,
}

#[derive(Debug, Clone, Copy, PartialEq, Eq, Hash)]
pub enum PassportElementErrorFrontSideType {
    Passport,
    DriverLicense,
    IdentityCard,
    InternalPassport,
}

#[derive(Debug, Clone, Copy, PartialEq, Eq, Hash)]
pub enum PassportElementErrorReverseSideType {
    DriverLicense,
    IdentityCard,
}

#[derive(Debug, Clone, Copy, PartialEq, Eq, Hash)]
pub enum PassportElementErrorSelfieType {
    Passport,
    DriverLicense,
    IdentityCard,
    InternalPassport,
}

#[derive(Debug, Clone, Copy, PartialEq, Eq, Hash)]
pub enum PassportElementErrorFileType {
    UtilityBill,
    BankStatement,
    RentalAgreement,
    PassportRegistration,
    TemporaryRegistration,
}

#[derive(Debug, Clone, Copy, PartialEq, Eq, Hash)]
pub enum PassportElementErrorFilesType {
    UtilityBill,
    BankStatement,
    RentalAgreement,
    PassportRegistration,
    TemporaryRegistration,
}

#[derive(Debug, Clone, Copy, PartialEq, Eq, Hash)]
pub enum PassportElementErrorTranslationFileType {
    Passport,
    DriverLicense,
    IdentityCard,
    InternalPassport,
    UtilityBill,
    BankStatement,
    RentalAgreement,
    PassportRegistration,
    TemporaryRegistration,
}

#[derive(Debug, Clone, Copy, PartialEq, Eq, Hash)]
pub enum PassportElementErrorTranslationFilesType {
    Passport,
    DriverLicense,
    IdentityCard,
    InternalPassport,
    UtilityBill,
    BankStatement,
    RentalAgreement,
    PassportRegistration,
    TemporaryRegistration,
}

#[derive(Debug, Clone, Copy, PartialEq, Eq, Hash)]
pub enum PassportElementErrorUnspecifiedType {
    DataField,
    FrontSide,
    ReverseSide,
    Selfie,
    File,
    Files,
    TranslationFile,
    TranslationFiles,
    Unspecified,
}

pub open spec fn data_field_type_text(t: PassportElementErrorDataFieldType) -> Seq<char> {
    match t {
        PassportElementErrorDataFieldType::PersonalDetails => "personal_details"@,
        PassportElementErrorDataFieldType::Passport => "passport"@,
        PassportElementErrorDataFieldType::DriverLicense => "driver_license"@,
        PassportElementErrorDataFieldType::IdentityCard => "identity_card"@,
        PassportElementErrorDataFieldType::InternalPassport => "internal_passport"@,
        PassportElementErrorDataFieldType::Address => "address"@,
    }
}

pub open spec fn front_side_type_text(t: PassportElementErrorFrontSideType) -> Seq<char> {
    match t {
        PassportElementErrorFrontSideType::Passport => "passport"@,
        PassportElementErrorFrontSideType::DriverLicense => "driver_license"@,
        PassportElementErrorFrontSideType::IdentityCard => "identity_card"@,
        PassportElementErrorFrontSideType::InternalPassport => "internal_passport"@,
    }
}

pub open spec fn reverse_side_type_text(t: PassportElementErrorReverseSideType) -> Seq<char> {
    match t {
        PassportElementErrorReverseSideType::DriverLicense => "driver_license"@,
        PassportElementErrorReverseSideType::IdentityCard => "identity_card"@,
    }
}

pub open spec fn selfie_type_text(t: PassportElementErrorSelfieType) -> Seq<char> {
    match t {
        PassportElementErrorSelfieType::Passport => "passport"@,
        PassportElementErrorSelfieType::DriverLicense => "driver_license"@,
        PassportElementErrorSelfieType::IdentityCard => "identity_card"@,
        PassportElementErrorSelfieType::InternalPassport => "internal_passport"@,
    }
}

pub open spec fn file_type_text(t: PassportElementErrorFileType) -> Seq<char> {
    match t {
        PassportElementErrorFileType::UtilityBill => "utility_bill"@,
        PassportElementErrorFileType::BankStatement => "bank_statement"@,
        PassportElementErrorFileType::RentalAgreement => "rental_agreement"@,
        PassportElementErrorFileType::PassportRegistration => "passport_registration"@,
        PassportElementErrorFileType::TemporaryRegistration => "temporary_registration"@,
    }
}

pub open spec fn files_type_text(t: PassportElementErrorFilesType) -> Seq<char> {
    match t {
        PassportElementErrorFilesType::UtilityBill => "utility_bill"@,
        PassportElementErrorFilesType::BankStatement => "bank_statement"@,
        PassportElementErrorFilesType::RentalAgreement => "rental_agreement"@,
        PassportElementErrorFilesType::PassportRegistration => "passport_registration"@,
        PassportElementErrorFilesType::TemporaryRegistration => "temporary_registration"@,
    }
}

pub open spec fn translation_file_type_text(t: PassportElementErrorTranslationFileType) -> Seq<
    char,
> {
    match t {
        PassportElementErrorTranslationFileType::Passport => "passport"@,
        PassportElementErrorTranslationFileType::DriverLicense => "driver_license"@,
        PassportElementErrorTranslationFileType::IdentityCard => "identity_card"@,
        PassportElementErrorTranslationFileType::InternalPassport => "internal_passport"@,
        PassportElementErrorTranslationFileType::UtilityBill => "utility_bill"@,
        PassportElementErrorTranslationFileType::BankStatement => "bank_statement"@,
        PassportElementErrorTranslationFileType::RentalAgreement => "rental_agreement"@,
        PassportElementErrorTranslationFileType::PassportRegistration => "passport_registration"@,
        PassportElementErrorTranslationFileType::TemporaryRegistration => "temporary_registration"@,
    }
}

pub open spec fn translation_files_type_text(t: PassportElementErrorTranslationFilesType) -> Seq<
    char,
> {
    match t {
        PassportElementErrorTranslationFilesType::Passport => "passport"@,
        PassportElementErrorTranslationFilesType::DriverLicense => "driver_license"@,
        PassportElementErrorTranslationFilesType::IdentityCard => "identity_card"@,
        PassportElementErrorTranslationFilesType::InternalPassport => "internal_passport"@,
        PassportElementErrorTranslationFilesType::UtilityBill => "utility_bill"@,
        PassportElementErrorTranslationFilesType::BankStatement => "bank_statement"@,
        PassportElementErrorTranslationFilesType::RentalAgreement => "rental_agreement"@,
        PassportElementErrorTranslationFilesType::PassportRegistration => "passport_registration"@,
        PassportElementErrorTranslationFilesType::TemporaryRegistration
            => "temporary_registration"@,
    }
}

pub open spec fn unspecified_type_text(t: PassportElementErrorUnspecifiedType) -> Seq<char> {
    match t {
        PassportElementErrorUnspecifiedType::DataField => "data_field"@,
        PassportElementErrorUnspecifiedType::FrontSide => "front_side"@,
        PassportElementErrorUnspecifiedType::ReverseSide => "reverse_side"@,
        PassportElementErrorUnspecifiedType::Selfie => "selfie"@,
        PassportElementErrorUnspecifiedType::File => "file"@,
        PassportElementErrorUnspecifiedType::Files => "files"@,
        PassportElementErrorUnspecifiedType::TranslationFile => "translation_file"@,
        PassportElementErrorUnspecifiedType::TranslationFiles => "translation_files"@,
        PassportElementErrorUnspecifiedType::Unspecified => "unspecified"@,
    }
}

/// The value of the `source` tag for a kind. Only the data-field kind has
/// the tag `data`; every other kind is tagged with the literal text
/// `snake_case`, exactly as the wire format has it.
pub open spec fn kind_tag(k: PassportElementErrorKind) -> Seq<char> {
    match k {
        PassportElementErrorKind::DataField(_) => "data"@,
        _ => "snake_case"@,
    }
}

/// The kind's own fields, flattened into the enclosing object.
pub open spec fn kind_fields(k: PassportElementErrorKind) -> Seq<(Seq<char>, JsonModel)> {
    match k {
        PassportElementErrorKind::DataField(d) => seq![
            ("type"@, JsonModel::Str(data_field_type_text(d.element_type))),
            ("field_name"@, JsonModel::Str(d.field_name@)),
            ("data_hash"@, JsonModel::Str(d.data_hash@)),
        ],
        PassportElementErrorKind::FrontSide(d) => seq![
            ("type"@, JsonModel::Str(front_side_type_text(d.element_type))),
            ("file_hash"@, JsonModel::Str(d.file_hash@)),
        ],
        PassportElementErrorKind::ReverseSide(d) => seq![
            ("type"@, JsonModel::Str(reverse_side_type_text(d.element_type))),
            ("file_hash"@, JsonModel::Str(d.file_hash@)),
        ],
        PassportElementErrorKind::Selfie(d) => seq![
            ("type"@, JsonModel::Str(selfie_type_text(d.element_type))),
            ("file_hash"@, JsonModel::Str(d.file_hash@)),
        ],
        PassportElementErrorKind::File(d) => seq![
            ("type"@, JsonModel::Str(file_type_text(d.element_type))),
            ("file_hash"@, JsonModel::Str(d.file_hash@)),
        ],
        PassportElementErrorKind::Files(d) => seq![
            ("type"@, JsonModel::Str(files_type_text(d.element_type))),
            ("file_hashes"@, strings_json(d.file_hashes@)),
        ],
        PassportElementErrorKind::TranslationFile(d) => seq![
            ("type"@, JsonModel::Str(translation_file_type_text(d.element_type))),
            ("file_hash"@, JsonModel::Str(d.file_hash@)),
        ],
        PassportElementErrorKind::TranslationFiles(d) => seq![
            ("type"@, JsonModel::Str(translation_files_type_text(d.element_type))),
            ("file_hashes"@, strings_json(d.file_hashes@)),
        ],
        PassportElementErrorKind::Unspecified(d) => seq![
            ("type"@, JsonModel::Str(unspecified_type_text(d.element_type))),
            ("element_hash"@, JsonModel::Str(d.element_hash@)),
        ],
    }
}

/// The JSON form of an element error: one flat object holding the message,
/// the `source` tag, and the kind's own fields.
pub open spec fn passport_element_error_json(e: PassportElementError) -> JsonModel {
    JsonModel::Obj(
        seq![("message"@, JsonModel::Str(e.message@)), ("source"@, JsonModel::Str(
            kind_tag(e.kind),
        ))] + kind_fields(e.kind),
    )
}

impl PassportElementError {
    pub fn to_json(&self) -> (r: JsonValue)
        ensures
            r@ == passport_element_error_json(*self),
    {
        let mut fields: Vec<(String, JsonValue)> = Vec::new();
        push_field(&mut fields, "message", JsonValue::Str(self.message.clone()));
        let tag = match &self.kind {
            PassportElementErrorKind::DataField(_) => "data".to_owned(),
            PassportElementErrorKind::FrontSide(_) => "snake_case".to_owned(),
            PassportElementErrorKind::ReverseSide(_) => "snake_case".to_owned(),
            PassportElementErrorKind::Selfie(_) => "snake_case".to_owned(),
            PassportElementErrorKind::File(_) => "snake_case".to_owned(),
            PassportElementErrorKind::Files(_) => "snake_case".to_owned(),
            PassportElementErrorKind::TranslationFile(_) => "snake_case".to_owned(),
            PassportElementErrorKind::TranslationFiles(_) => "snake_case".to_owned(),
            PassportElementErrorKind::Unspecified(_) => "snake_case".to_owned(),
        };
        push_field(&mut fields, "source", JsonValue::Str(tag));
        match &self.kind {
            PassportElementErrorKind::DataField(d) => {
                push_field(&mut fields, "type", JsonValue::Str(d.element_type.to_text()));
                push_field(&mut fields, "field_name", JsonValue::Str(d.field_name.clone()));
                push_field(&mut fields, "data_hash", JsonValue::Str(d.data_hash.clone()));
            },
            PassportElementErrorKind::FrontSide(d) => {
                push_field(&mut fields, "type", JsonValue::Str(d.element_type.to_text()));
                push_field(&mut fields, "file_hash", JsonValue::Str(d.file_hash.clone()));
            },
            PassportElementErrorKind::ReverseSide(d) => {
                push_field(&mut fields, "type", JsonValue::Str(d.element_type.to_text()));
                push_field(&mut fields, "file_hash", JsonValue::Str(d.file_hash.clone()));
            },
            PassportElementErrorKind::Selfie(d) => {
                push_field(&mut fields, "type", JsonValue::Str(d.element_type.to_text()));
                push_field(&mut fields, "file_hash", JsonValue::Str(d.file_hash.clone()));
            },
            PassportElementErrorKind::File(d) => {
                push_field(&mut fields, "type", JsonValue::Str(d.element_type.to_text()));
                push_field(&mut fields, "file_hash", JsonValue::Str(d.file_hash.clone()));
            },
            PassportElementErrorKind::Files(d) => {
                push_field(&mut fields, "type", JsonValue::Str(d.element_type.to_text()));
                push_field(&mut fields, "file_hashes", strings_to_json(&d.file_hashes));
            },
            PassportElementErrorKind::TranslationFile(d) => {
                push_field(&mut fields, "type", JsonValue::Str(d.element_type.to_text()));
                push_field(&mut fields, "file_hash", JsonValue::Str(d.file_hash.clone()));
            },
            PassportElementErrorKind::TranslationFiles(d) => {
                push_field(&mut fields, "type", JsonValue::Str(d.element_type.to_text()));
                push_field(&mut fields, "file_hashes", strings_to_json(&d.file_hashes));
            },
            PassportElementErrorKind::Unspecified(d) => {
                push_field(&mut fields, "type", JsonValue::Str(d.element_type.to_text()));
                push_field(&mut fields, "element_hash", JsonValue::Str(d.element_hash.clone()));
            },
        }
        let r = JsonValue::Obj(fields);
        proof {
            assert(r@->Obj_0 =~= passport_element_error_json(*self)->Obj_0);
        }
        r
    }
}

impl PassportElementErrorDataFieldType {
    pub fn to_text(&self) -> (r: String)
        ensures
            r@ == data_field_type_text(*self),
    {
        match self {
            PassportElementErrorDataFieldType::PersonalDetails => "personal_details".to_owned(),
            PassportElementErrorDataFieldType::Passport => "passport".to_owned(),
            PassportElementErrorDataFieldType::DriverLicense => "driver_license".to_owned(),
            PassportElementErrorDataFieldType::IdentityCard => "identity_card".to_owned(),
            PassportElementErrorDataFieldType::InternalPassport => "internal_passport".to_owned(),
            PassportElementErrorDataFieldType::Address => "address".to_owned(),
        }
    }
}

impl PassportElementErrorFrontSideType {
    pub fn to_text(&self) -> (r: String)
        ensures
            r@ == front_side_type_text(*self),
    {
        match self {
            PassportElementErrorFrontSideType::Passport => "passport".to_owned(),
            PassportElementErrorFrontSideType::DriverLicense => "driver_license".to_owned(),
            PassportElementErrorFrontSideType::IdentityCard => "identity_card".to_owned(),
            PassportElementErrorFrontSideType::InternalPassport => "internal_passport".to_owned(),
        }
    }
}

impl PassportElementErrorReverseSideType {
    pub fn to_text(&self) -> (r: String)
        ensures
            r@ == reverse_side_type_text(*self),
    {
        match self {
            PassportElementErrorReverseSideType::DriverLicense => "driver_license".to_owned(),
            PassportElementErrorReverseSideType::IdentityCard => "identity_card".to_owned(),
        }
    }
}

impl PassportElementErrorSelfieType {
    pub fn to_text(&self) -> (r: String)
        ensures
            r@ == selfie_type_text(*self),
    {
        match self {
            PassportElementErrorSelfieType::Passport => "passport".to_owned(),
            PassportElementErrorSelfieType::DriverLicense => "driver_license".to_owned(),
            PassportElementErrorSelfieType::IdentityCard => "identity_card".to_owned(),
            PassportElementErrorSelfieType::InternalPassport => "internal_passport".to_owned(),
        }
    }
}

impl PassportElementErrorFileType {
    pub fn to_text(&self) -> (r: String)
        ensures
            r@ == file_type_text(*self),
    {
        match self {
            PassportElementErrorFileType::UtilityBill => "utility_bill".to_owned(),
            PassportElementErrorFileType::BankStatement => "bank_statement".to_owned(),
            PassportElementErrorFileType::RentalAgreement => "rental_agreement".to_owned(),
            PassportElementErrorFileType::PassportRegistration => "passport_registration"
                .to_owned(),
            PassportElementErrorFileType::TemporaryRegistration => "temporary_registration"
                .to_owned(),
        }
    }
}

impl PassportElementErrorFilesType {
    pub fn to_text(&self) -> (r: String)
        ensures
            r@ == files_type_text(*self),
    {
        match self {
            PassportElementErrorFilesType::UtilityBill => "utility_bill".to_owned(),
            PassportElementErrorFilesType::BankStatement => "bank_statement".to_owned(),
            PassportElementErrorFilesType::RentalAgreement => "rental_agreement".to_owned(),
            PassportElementErrorFilesType::PassportRegistration => "passport_registration"
                .to_owned(),
            PassportElementErrorFilesType::TemporaryRegistration => "temporary_registration"
                .to_owned(),
        }
    }
}

impl PassportElementErrorTranslationFileType {
    pub fn to_text(&self) -> (r: String)
        ensures
            r@ == translation_file_type_text(*self),
    {
        match self {
            PassportElementErrorTranslationFileType::Passport => "passport".to_owned(),
            PassportElementErrorTranslationFileType::DriverLicense => "driver_license".to_owned(),
            PassportElementErrorTranslationFileType::IdentityCard => "identity_card".to_owned(),
            PassportElementErrorTranslationFileType::InternalPassport => "internal_passport"
                .to_owned(),
            PassportElementErrorTranslationFileType::UtilityBill => "utility_bill".to_owned(),
            PassportElementErrorTranslationFileType::BankStatement => "bank_statement".to_owned(),
            PassportElementErrorTranslationFileType::RentalAgreement => "rental_agreement"
                .to_owned(),
            PassportElementErrorTranslationFileType::PassportRegistration
                => "passport_registration".to_owned(),
            PassportElementErrorTranslationFileType::TemporaryRegistration
                => "temporary_registration".to_owned(),
        }
    }
}

impl PassportElementErrorTranslationFilesType {
    pub fn to_text(&self) -> (r: String)
        ensures
            r@ == translation_files_type_text(*self),
    {
        match self {
            PassportElementErrorTranslationFilesType::Passport => "passport".to_owned(),
            PassportElementErrorTranslationFilesType::DriverLicense => "driver_license".to_owned(),
            PassportElementErrorTranslationFilesType::IdentityCard => "identity_card".to_owned(),
            PassportElementErrorTranslationFilesType::InternalPassport => "internal_passport"
                .to_owned(),
            PassportElementErrorTranslationFilesType::UtilityBill => "utility_bill".to_owned(),
            PassportElementErrorTranslationFilesType::BankStatement => "bank_statement".to_owned(),
            PassportElementErrorTranslationFilesType::RentalAgreement => "rental_agreement"
                .to_owned(),
            PassportElementErrorTranslationFilesType::PassportRegistration
                => "passport_registration".to_owned(),
            PassportElementErrorTranslationFilesType::TemporaryRegistration
                => "temporary_registration".to_owned(),
        }
    }
}

impl PassportElementErrorUnspecifiedType {
    pub fn to_text(&self) -> (r: String)
        ensures
            r@ == unspecified_type_text(*self),
    {
        match self {
            PassportElementErrorUnspecifiedType::DataField => "data_field".to_owned(),
            PassportElementErrorUnspecifiedType::FrontSide => "front_side".to_owned(),
            PassportElementErrorUnspecifiedType::ReverseSide => "reverse_side".to_owned(),
            PassportElementErrorUnspecifiedType::Selfie => "selfie".to_owned(),
            PassportElementErrorUnspecifiedType::File => "file".to_owned(),
            PassportElementErrorUnspecifiedType::Files => "files".to_owned(),
            PassportElementErrorUnspecifiedType::TranslationFile => "translation_file".to_owned(),
            PassportElementErrorUnspecifiedType::TranslationFiles => "translation_files"
                .to_owned(),
            PassportElementErrorUnspecifiedType::Unspecified => "unspecified".to_owned(),
        }
    }
}

} // verus!
