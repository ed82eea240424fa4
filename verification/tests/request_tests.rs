use botapi::RequestError;
use botapi::bot::Bot;
use botapi::json::JsonValue;
use botapi::requests::Payload;
use botapi::requests::form_builder::PartContent;
use botapi::requests::Request;
use botapi::requests::all::{
    AnswerInlineQuery, DeleteMessage, GetGuildCredit, GetGuildMembersCount, GetUpdates,
    GetUserProfilePhotos, KickChatMember, SendMediaGroup, SendMessage, UploadStickerFile,
};
use botapi::types::{AllowedUpdate, ChatId, InlineQueryResult, InputFile, InputMedia, ParseMode};

fn bot() -> std::sync::Arc<Bot> {
    Bot::with_client("123:SECRET-REDACTED", reqwest::Client::new())
}

fn json_body(p: Payload) -> String {
    match p {
        Payload::Json(body) => body,
        Payload::Multipart(form) => panic!("expected a JSON payload, got {:?}", form.parts),
    }
}

#[test]
fn send_message_body_holds_only_set_fields() {
    let request = SendMessage::new(bot(), ChatId::Id(42), "hi".to_owned());
    assert_eq!(request.method_name(), "sendMessage");
    assert_eq!(json_body(request.payload()), "{\"chat_id\":42,\"text\":\"hi\"}");
}

#[test]
fn send_message_body_keeps_declaration_order() {
    let request = SendMessage::new(
        bot(),
        ChatId::ChannelUsername("@chan".to_owned()),
        "hello".to_owned(),
    )
    .ephemeral(Some(true))
    .parse_mode(ParseMode::HTML)
    .reply_to_message_id(5)
    .users(Some(vec!["u1".to_owned(), "u2".to_owned()]));
    assert_eq!(
        json_body(request.payload()),
        "{\"chat_id\":\"@chan\",\"text\":\"hello\",\"parse_mode\":\"HTML\",\
         \"reply_to_message_id\":5,\"ephemeral\":true,\"users\":[\"u1\",\"u2\"]}"
    );
}

#[test]
fn delete_message_round_trip() {
    let request = DeleteMessage::new(bot(), ChatId::Id(9), 1234);
    assert_eq!(request.method_name(), "deleteMessage");
    assert_eq!(json_body(request.payload()), "{\"chat_id\":9,\"message_id\":1234}");
    assert_eq!(request.decode_response("{\"ok\": true, \"result\": true}"), Ok(true));
    assert_eq!(request.decode_response("{\"ok\": true, \"result\": false}"), Ok(false));
    assert_eq!(
        request.decode_response("{\"ok\": true, \"result\": 3}"),
        Err(RequestError::Shape("result is not a boolean".to_owned()))
    );
}

#[test]
fn counts_decode_as_integers() {
    let request = GetGuildMembersCount::new(bot(), 31);
    assert_eq!(json_body(request.payload()), "{\"guild_id\":31}");
    assert_eq!(request.decode_response("{\"ok\": true, \"result\": 250}"), Ok(250));
    assert_eq!(
        request.decode_response("{\"ok\": true, \"result\": \"n\"}"),
        Err(RequestError::Shape("result is not an integer".to_owned()))
    );
}

#[test]
fn credit_lists_keep_every_element() {
    let request = GetGuildCredit::new(bot(), Some(2), None, 7);
    assert_eq!(request.method_name(), "getCredit");
    assert_eq!(json_body(request.payload()), "{\"user_id\":7,\"bot_id\":2}");
    let out = request
        .decode_response("{\"ok\": true, \"result\": [{\"v\": 1}, {\"v\": 2}]}")
        .expect("array result");
    assert_eq!(out.len(), 2);
    assert_eq!(out[1].get("v"), Some(&JsonValue::Int(2)));
    assert_eq!(
        request.decode_response("{\"ok\": true, \"result\": 4}"),
        Err(RequestError::Shape("result is not an array".to_owned()))
    );
}

#[test]
fn kick_chat_member_skips_unset_chat() {
    let request = KickChatMember::new(bot(), Some(8), None, 77).until_date(60);
    assert_eq!(
        json_body(request.payload()),
        "{\"user_id\":77,\"guild_id\":8,\"until_date\":60}"
    );
}

#[test]
fn profile_photo_queries_carry_their_window() {
    let request = GetUserProfilePhotos::new(bot(), 5).offset(10).limit(2);
    assert_eq!(
        json_body(request.payload()),
        "{\"user_id\":5,\"offset\":10,\"limit\":2}"
    );
}

#[test]
fn poll_requests_encode_event_kinds_as_names() {
    let request = GetUpdates::new(bot())
        .offset(-1)
        .limit(50)
        .timeout(30)
        .allowed_updates(vec![AllowedUpdate::Message, AllowedUpdate::CallbackQuery]);
    assert_eq!(request.method_name(), "getUpdates");
    assert_eq!(
        json_body(request.payload()),
        "{\"offset\":-1,\"limit\":50,\"timeout\":30,\
         \"allowed_updates\":[\"message\",\"callback_query\"]}"
    );
}

#[test]
fn inline_query_answers_embed_their_results() {
    let result = InlineQueryResult::new(JsonValue::Obj(vec![
        ("type".to_owned(), JsonValue::Str("audio".to_owned())),
        ("id".to_owned(), JsonValue::Str("r1".to_owned())),
    ]));
    let request = AnswerInlineQuery::new(bot(), "q9".to_owned(), vec![result]).cache_time(3);
    assert_eq!(
        json_body(request.payload()),
        "{\"inline_query_id\":\"q9\",\"results\":[{\"type\":\"audio\",\"id\":\"r1\"}],\
         \"cache_time\":3}"
    );
    assert_eq!(request.decode_response("{\"ok\": true, \"result\": true}"), Ok(true));
}

#[test]
fn sticker_uploads_travel_as_form_parts() {
    // A buffer-backed sticker becomes a named file part carrying its bytes.
    let request = UploadStickerFile::new(
        bot(),
        4,
        InputFile::Memory { file_name: "s.png".to_owned(), data: vec![9, 8, 7] },
    );
    assert_eq!(request.method_name(), "uploadStickerFile");
    match request.payload() {
        Payload::Multipart(form) => {
            let names: Vec<String> = form.parts.iter().map(|p| p.name.clone()).collect();
            assert_eq!(names, vec!["user_id", "png_sticker"]);
            assert_eq!(form.parts[0].content, PartContent::Text("4".to_owned()));
            assert_eq!(
                form.parts[1].content,
                PartContent::FileBytes { file_name: "s.png".to_owned(), data: vec![9, 8, 7] }
            );
        }
        Payload::Json(body) => panic!("expected a multipart payload, got JSON {:?}", body),
    }

    // A path-backed sticker becomes a file part read at dispatch; a
    // URL-backed one travels as plain text.
    let by_path = UploadStickerFile::new(bot(), 5, InputFile::File("/tmp/s.png".to_owned()));
    match by_path.payload() {
        Payload::Multipart(form) => {
            assert_eq!(form.parts[1].content, PartContent::FilePath("/tmp/s.png".to_owned()));
        }
        Payload::Json(body) => panic!("expected a multipart payload, got JSON {:?}", body),
    }
    let by_url = UploadStickerFile::new(bot(), 6, InputFile::Url("https://e/x.png".to_owned()));
    match by_url.payload() {
        Payload::Multipart(form) => {
            assert_eq!(
                form.parts[1].content,
                PartContent::Text("https://e/x.png".to_owned())
            );
        }
        Payload::Json(body) => panic!("expected a multipart payload, got JSON {:?}", body),
    }
}

#[test]
fn media_groups_embed_their_album_as_one_text_part() {
    let media = vec![
        InputMedia::new(JsonValue::Obj(vec![(
            "type".to_owned(),
            JsonValue::Str("photo".to_owned()),
        )])),
        InputMedia::new(JsonValue::Obj(vec![(
            "type".to_owned(),
            JsonValue::Str("video".to_owned()),
        )])),
    ];
    let request = SendMediaGroup::new(bot(), ChatId::Id(3), media).disable_notification(true);
    match request.payload() {
        Payload::Multipart(form) => {
            let names: Vec<String> = form.parts.iter().map(|p| p.name.clone()).collect();
            assert_eq!(names, vec!["chat_id", "media", "disable_notification"]);
            assert_eq!(
                form.parts[1].content,
                PartContent::Text("[{\"type\":\"photo\"},{\"type\":\"video\"}]".to_owned())
            );
        }
        Payload::Json(body) => panic!("expected a multipart payload, got JSON {:?}", body),
    }
}

#[test]
fn api_failures_surface_through_typed_decoders() {
    let request = DeleteMessage::new(bot(), ChatId::Id(9), 1);
    match request.decode_response("{\"ok\": false, \"description\": \"Unauthorized\", \"error_code\": 401}")
    {
        Err(RequestError::Api { description, error_code, .. }) => {
            assert_eq!(description, "Unauthorized");
            assert_eq!(error_code, Some(401));
        }
        other => panic!("expected an API failure, got {:?}", other),
    }
}

#[test]
fn bot_exposes_its_token() {
    let b = bot();
    assert_eq!(b.token(), "123:SECRET-REDACTED");
    let _client: &reqwest::Client = b.client();
}
