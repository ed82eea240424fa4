use botapi::json::JsonValue;
use botapi::jsontext::render;
use botapi::types::chat_or_inline_message::ChatOrInlineMessage;
use botapi::types::circle_comment::CircleComment;
use botapi::types::inline_query_result_cached_audio::InlineQueryResultCachedAudio;
use botapi::types::{ChatId, InlineKeyboardMarkup, ParseMode};

#[test]
fn circle_comments_serialize_with_null_for_missing_content() {
    let with_text = CircleComment::new(1, 2, Some("nice".to_owned()));
    assert_eq!(
        render(&with_text.to_json()),
        "{\"post_id\":1,\"comment_id\":2,\"content\":\"nice\"}"
    );
    let without_text = CircleComment::new(3, 4, None);
    assert_eq!(
        render(&without_text.to_json()),
        "{\"post_id\":3,\"comment_id\":4,\"content\":null}"
    );
}

#[test]
fn message_addresses_serialize_without_a_tag() {
    let chat = ChatOrInlineMessage::Chat { chat_id: ChatId::Id(5), message_id: 10 };
    assert_eq!(render(&chat.to_json()), "{\"chat_id\":5,\"message_id\":10}");
    let named = ChatOrInlineMessage::Chat {
        chat_id: ChatId::ChannelUsername("@c".to_owned()),
        message_id: 11,
    };
    assert_eq!(render(&named.to_json()), "{\"chat_id\":\"@c\",\"message_id\":11}");
    let inline = ChatOrInlineMessage::Inline { inline_message_id: 7 };
    assert_eq!(render(&inline.to_json()), "{\"inline_message_id\":7}");
}

#[test]
fn cached_audio_results_omit_unset_fields() {
    let bare = InlineQueryResultCachedAudio {
        id: "r1".to_owned(),
        audio_file_id: "f1".to_owned(),
        caption: None,
        parse_mode: None,
        reply_markup: None,
        input_message_content: None,
    };
    assert_eq!(
        render(&bare.to_json()),
        "{\"id\":\"r1\",\"audio_file_id\":\"f1\"}"
    );

    let full = InlineQueryResultCachedAudio {
        id: "r2".to_owned(),
        audio_file_id: "f2".to_owned(),
        caption: Some("cap".to_owned()),
        parse_mode: Some(ParseMode::Markdown),
        reply_markup: Some(InlineKeyboardMarkup::new(JsonValue::Obj(vec![(
            "inline_keyboard".to_owned(),
            JsonValue::Arr(Vec::new()),
        )]))),
        input_message_content: None,
    };
    assert_eq!(
        render(&full.to_json()),
        "{\"id\":\"r2\",\"audio_file_id\":\"f2\",\"caption\":\"cap\",\
         \"parse_mode\":\"Markdown\",\"reply_markup\":{\"inline_keyboard\":[]}}"
    );
}
