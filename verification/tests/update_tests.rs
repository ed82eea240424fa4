use botapi::RequestError;
use botapi::bot::Bot;
use botapi::json::JsonValue;
use botapi::jsontext::parse_json;
use botapi::requests::Request;
use botapi::requests::all::GetUpdates;
use botapi::types::update::{Update, decode_update_batch};

fn bot() -> std::sync::Arc<Bot> {
    Bot::with_client("123:SECRET-REDACTED", reqwest::Client::new())
}

#[test]
fn malformed_elements_do_not_discard_the_batch() {
    // Four elements; the first and third are well-formed events, the
    // second and fourth are not.
    let body = "{\"ok\": true, \"result\": [\
        {\"id\": 10, \"kind\": \"message\"}, \
        {\"kind\": \"mystery\"}, \
        {\"id\": 11}, \
        42]}";
    let outcomes = GetUpdates::new(bot()).decode_response(body).expect("array result");
    assert_eq!(outcomes.len(), 4);

    match &outcomes[0] {
        Ok(update) => {
            assert_eq!(update.id, 10);
            assert_eq!(
                update.payload.get("kind"),
                Some(&JsonValue::Str("message".to_owned()))
            );
        }
        other => panic!("expected a decoded event, got {:?}", other),
    }
    match &outcomes[1] {
        Err((raw, reason)) => {
            assert_eq!(raw.get("kind"), Some(&JsonValue::Str("mystery".to_owned())));
            assert!(!reason.is_empty());
        }
        other => panic!("expected a per-element failure, got {:?}", other),
    }
    match &outcomes[2] {
        Ok(update) => assert_eq!(update.id, 11),
        other => panic!("expected a decoded event, got {:?}", other),
    }
    match &outcomes[3] {
        Err((raw, reason)) => {
            assert_eq!(raw, &JsonValue::Int(42));
            assert!(!reason.is_empty());
        }
        other => panic!("expected a per-element failure, got {:?}", other),
    }
}

#[test]
fn empty_batch_decodes_to_no_outcomes() {
    let outcomes = GetUpdates::new(bot())
        .decode_response("{\"ok\": true, \"result\": []}")
        .expect("array result");
    assert_eq!(outcomes.len(), 0);
}

#[test]
fn object_result_is_a_shape_violation_not_an_empty_batch() {
    let out = GetUpdates::new(bot()).decode_response("{\"ok\": true, \"result\": {\"id\": 1}}");
    match out {
        Err(RequestError::Shape(reason)) => assert_eq!(reason, "poll result is not an array"),
        other => panic!("expected a shape violation, got {:?}", other),
    }
}

#[test]
fn envelope_failures_pass_through_the_poll() {
    let out = GetUpdates::new(bot())
        .decode_response("{\"ok\": false, \"description\": \"flood\", \"error_code\": 420}");
    match out {
        Err(RequestError::Api { description, error_code, .. }) => {
            assert_eq!(description, "flood");
            assert_eq!(error_code, Some(420));
        }
        other => panic!("expected an API failure, got {:?}", other),
    }
}

#[test]
fn try_parse_requires_an_integer_id() {
    let good = parse_json("{\"id\": 3}").expect("valid JSON");
    let parsed = Update::try_parse(&good).expect("well-formed event");
    assert_eq!(parsed.id, 3);
    assert_eq!(parsed.payload, good);

    let no_id = parse_json("{\"kind\": \"x\"}").expect("valid JSON");
    assert!(Update::try_parse(&no_id).is_none());
    let bad_id = parse_json("{\"id\": \"three\"}").expect("valid JSON");
    assert!(Update::try_parse(&bad_id).is_none());
    assert!(Update::try_parse(&JsonValue::Int(9)).is_none());
}

#[test]
fn batch_decoding_rejects_non_arrays_directly() {
    match decode_update_batch(&JsonValue::Bool(true)) {
        Err(RequestError::Shape(reason)) => assert_eq!(reason, "poll result is not an array"),
        other => panic!("expected a shape violation, got {:?}", other),
    }
}
