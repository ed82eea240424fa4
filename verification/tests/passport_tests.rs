use botapi::jsontext::render;
use botapi::types::passport_element_error::{
    PassportElementError, PassportElementErrorDataField, PassportElementErrorDataFieldType,
    PassportElementErrorKind, PassportElementErrorSelfie, PassportElementErrorSelfieType,
};

#[test]
fn serialize_data_field() {
    let data = PassportElementError {
        message: "This is an error message!".to_owned(),
        kind: PassportElementErrorKind::DataField(PassportElementErrorDataField {
            element_type: PassportElementErrorDataFieldType::InternalPassport,
            field_name: "The field name".to_owned(),
            data_hash: "This is a data hash".to_owned(),
        }),
    };

    assert_eq!(
        render(&data.to_json()),
        r#"{"message":"This is an error message!","source":"data","type":"internal_passport","field_name":"The field name","data_hash":"This is a data hash"}"#
    );
}

#[test]
fn serialize_selfie_kind() {
    let data = PassportElementError {
        message: "retake".to_owned(),
        kind: PassportElementErrorKind::Selfie(PassportElementErrorSelfie {
            element_type: PassportElementErrorSelfieType::DriverLicense,
            file_hash: "hash==".to_owned(),
        }),
    };

    assert_eq!(
        render(&data.to_json()),
        r#"{"message":"retake","source":"snake_case","type":"driver_license","file_hash":"hash=="}"#
    );
}
