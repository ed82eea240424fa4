use botapi::RequestError;
use botapi::json::JsonValue;
use botapi::net::decode_envelope_text;

#[test]
fn success_envelope_yields_the_result_object() {
    let out = decode_envelope_text("{\"ok\": true, \"result\": {\"id\":1,\"chat\":\"c\"}}");
    let payload = out.expect("success envelope");
    assert_eq!(payload.get("id"), Some(&JsonValue::Int(1)));
    assert_eq!(payload.get("chat"), Some(&JsonValue::Str("c".to_owned())));
}

#[test]
fn failure_envelope_yields_description_and_code() {
    let out = decode_envelope_text(
        "{\"ok\": false, \"description\": \"Unauthorized\", \"error_code\": 401}",
    );
    match out {
        Err(RequestError::Api { description, error_code, retry_after }) => {
            assert_eq!(description, "Unauthorized");
            assert_eq!(error_code, Some(401));
            assert_eq!(retry_after, None);
        }
        other => panic!("expected an API failure, got {:?}", other),
    }
}

#[test]
fn failure_envelope_carries_retry_hint() {
    let out = decode_envelope_text(
        "{\"ok\": false, \"description\": \"Too Many Requests\", \"error_code\": 429, \
         \"parameters\": {\"retry_after\": 17}}",
    );
    match out {
        Err(RequestError::Api { description, error_code, retry_after }) => {
            assert_eq!(description, "Too Many Requests");
            assert_eq!(error_code, Some(429));
            assert_eq!(retry_after, Some(17));
        }
        other => panic!("expected an API failure, got {:?}", other),
    }
}

#[test]
fn failure_envelope_without_description_reports_empty_text() {
    let out = decode_envelope_text("{\"ok\": false}");
    match out {
        Err(RequestError::Api { description, error_code, retry_after }) => {
            assert_eq!(description, "");
            assert_eq!(error_code, None);
            assert_eq!(retry_after, None);
        }
        other => panic!("expected an API failure, got {:?}", other),
    }
}

#[test]
fn bodies_that_violate_the_shape_are_reported() {
    match decode_envelope_text("this is not json") {
        Err(RequestError::Shape(reason)) => assert_eq!(reason, "response body is not JSON"),
        other => panic!("expected a shape violation, got {:?}", other),
    }
    match decode_envelope_text("[1,2,3]") {
        Err(RequestError::Shape(reason)) => assert_eq!(reason, "envelope is not an object"),
        other => panic!("expected a shape violation, got {:?}", other),
    }
    match decode_envelope_text("{\"result\": 3}") {
        Err(RequestError::Shape(reason)) => {
            assert_eq!(reason, "envelope carries no boolean ok field")
        }
        other => panic!("expected a shape violation, got {:?}", other),
    }
    match decode_envelope_text("{\"ok\": 1, \"result\": 3}") {
        Err(RequestError::Shape(reason)) => {
            assert_eq!(reason, "envelope carries no boolean ok field")
        }
        other => panic!("expected a shape violation, got {:?}", other),
    }
    match decode_envelope_text("{\"ok\": true}") {
        Err(RequestError::Shape(reason)) => {
            assert_eq!(reason, "success envelope carries no result")
        }
        other => panic!("expected a shape violation, got {:?}", other),
    }
}

#[test]
fn describe_reports_the_failure_text() {
    let err = RequestError::Api {
        description: "denied".to_owned(),
        error_code: Some(403),
        retry_after: None,
    };
    assert_eq!(err.describe(), "denied");
    assert_eq!(RequestError::Transport("timed out".to_owned()).describe(), "timed out");
    assert_eq!(RequestError::Shape("bad shape".to_owned()).describe(), "bad shape");
}
