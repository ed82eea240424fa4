use botapi::bot::Bot;
use botapi::json::JsonValue;
use botapi::requests::Payload;
use botapi::requests::Request;
use botapi::requests::all::SendVideo;
use botapi::requests::form_builder::{FormBuilder, FormValue, IntoFormValue, Part, PartContent};
use botapi::types::{ChatId, InputFile, ParseMode};

fn bot() -> std::sync::Arc<Bot> {
    Bot::with_client("123:SECRET-REDACTED", reqwest::Client::new())
}

fn part_names(parts: &[Part]) -> Vec<String> {
    parts.iter().map(|p| p.name.clone()).collect()
}

#[test]
fn unset_fields_leave_no_part_behind() {
    // Only the two required fields are set, so the form must hold exactly
    // their two parts: no empty part stands in for an unset optional.
    let request = SendVideo::new(
        bot(),
        ChatId::Id(77),
        InputFile::FileId("abc".to_owned()),
    );
    match request.payload() {
        Payload::Multipart(form) => {
            assert_eq!(part_names(&form.parts), vec!["chat_id", "video"]);
        }
        Payload::Json(body) => panic!("expected a multipart payload, got JSON {:?}", body),
    }
}

#[test]
fn set_fields_appear_in_declaration_order() {
    let request = SendVideo::new(
        bot(),
        ChatId::Id(77),
        InputFile::FileId("abc".to_owned()),
    )
    .caption("hello".to_owned())
    .duration(9)
    .supports_streaming(true);
    match request.payload() {
        Payload::Multipart(form) => {
            assert_eq!(
                part_names(&form.parts),
                vec!["chat_id", "video", "duration", "caption", "supports_streaming"]
            );
            assert_eq!(form.parts[2].content, PartContent::Text("9".to_owned()));
            assert_eq!(form.parts[3].content, PartContent::Text("hello".to_owned()));
            assert_eq!(form.parts[4].content, PartContent::Text("true".to_owned()));
        }
        Payload::Json(body) => panic!("expected a multipart payload, got JSON {:?}", body),
    }
}

#[test]
fn file_by_path_and_by_buffer_make_equivalent_parts() {
    // The same logical field filled from a path and from a buffer yields
    // structurally equivalent parts: same name, a file part either way;
    // only the byte source differs.
    let mut by_path = FormBuilder::new().add(
        "video",
        &InputFile::File("/tmp/clip.mp4".to_owned()),
    );
    let mut by_buffer = FormBuilder::new().add(
        "video",
        &InputFile::Memory { file_name: "clip.mp4".to_owned(), data: vec![1, 2, 3] },
    );
    let path_form = by_path.build().expect("first finalization");
    let buffer_form = by_buffer.build().expect("first finalization");
    assert_eq!(path_form.parts.len(), 1);
    assert_eq!(buffer_form.parts.len(), 1);
    assert_eq!(path_form.parts[0].name, buffer_form.parts[0].name);
    match &path_form.parts[0].content {
        PartContent::FilePath(path) => assert_eq!(path, "/tmp/clip.mp4"),
        other => panic!("expected a file part, got {:?}", other),
    }
    match &buffer_form.parts[0].content {
        PartContent::FileBytes { file_name, data } => {
            assert_eq!(file_name, "clip.mp4");
            assert_eq!(data, &vec![1, 2, 3]);
        }
        other => panic!("expected a file part, got {:?}", other),
    }
}

#[test]
fn refinalizing_is_rejected_and_duplicates_nothing() {
    let mut builder = FormBuilder::new().add("chat_id", &ChatId::Id(5)).add(
        "caption",
        &"text".to_owned(),
    );
    let first = builder.build().expect("first finalization succeeds");
    assert_eq!(part_names(&first.parts), vec!["chat_id", "caption"]);
    // Re-finalizing an already finalized assembly is rejected: it yields
    // nothing and no parts are duplicated.
    assert!(builder.build().is_none());
    assert!(builder.build().is_none());
}

#[test]
fn chat_identifiers_coerce_to_their_exact_text() {
    // Numeric identifiers and handles round-trip through coercion to their
    // exact original textual form.
    assert_eq!(
        ChatId::Id(123).into_form_value(),
        Some(FormValue::Str("123".to_owned()))
    );
    assert_eq!(
        ChatId::Id(-456).into_form_value(),
        Some(FormValue::Str("-456".to_owned()))
    );
    assert_eq!(
        ChatId::Id(i64::MIN).into_form_value(),
        Some(FormValue::Str("-9223372036854775808".to_owned()))
    );
    assert_eq!(
        ChatId::ChannelUsername("@channel".to_owned()).into_form_value(),
        Some(FormValue::Str("@channel".to_owned()))
    );
}

#[test]
fn field_values_coerce_to_their_wire_text() {
    assert_eq!(true.into_form_value(), Some(FormValue::Str("true".to_owned())));
    assert_eq!(false.into_form_value(), Some(FormValue::Str("false".to_owned())));
    assert_eq!(42i64.into_form_value(), Some(FormValue::Str("42".to_owned())));
    assert_eq!((-3i32).into_form_value(), Some(FormValue::Str("-3".to_owned())));
    assert_eq!(7u32.into_form_value(), Some(FormValue::Str("7".to_owned())));
    assert_eq!(
        ParseMode::MarkdownV2.into_form_value(),
        Some(FormValue::Str("MarkdownV2".to_owned()))
    );
    assert_eq!(
        ParseMode::Fanbook.into_form_value(),
        Some(FormValue::Str("Fanbook".to_owned()))
    );
    assert_eq!(
        vec!["a".to_owned(), "b\"c".to_owned()].into_form_value(),
        Some(FormValue::Str("[\"a\",\"b\\\"c\"]".to_owned()))
    );
    let unset: Option<bool> = None;
    assert_eq!(unset.into_form_value(), None);
    let set: Option<i64> = Some(9);
    assert_eq!(set.into_form_value(), Some(FormValue::Str("9".to_owned())));
}

#[test]
fn remote_file_references_coerce_to_plain_text() {
    assert_eq!(
        InputFile::Url("https://example.com/a.png".to_owned()).into_form_value(),
        Some(FormValue::Str("https://example.com/a.png".to_owned()))
    );
    assert_eq!(
        InputFile::FileId("id77".to_owned()).into_form_value(),
        Some(FormValue::Str("id77".to_owned()))
    );
    assert_eq!(
        InputFile::File("/tmp/x".to_owned()).into_form_value(),
        Some(FormValue::File("/tmp/x".to_owned()))
    );
}

#[test]
fn structured_values_coerce_to_their_json_text() {
    let markup = botapi::types::ReplyMarkup::new(JsonValue::Obj(vec![(
        "keyboard".to_owned(),
        JsonValue::Arr(Vec::new()),
    )]));
    assert_eq!(
        markup.into_form_value(),
        Some(FormValue::Str("{\"keyboard\":[]}".to_owned()))
    );
}
