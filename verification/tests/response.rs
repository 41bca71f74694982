use rust_moysklad::error::ApiError;
use rust_moysklad::response::{expect_success, is_success, remote_failure, success_body};

#[test]
fn statuses_from_200_to_299_are_success() {
    assert!(is_success(200));
    assert!(is_success(201));
    assert!(is_success(204));
    assert!(is_success(299));
}

#[test]
fn other_statuses_are_failures() {
    assert!(!is_success(0));
    assert!(!is_success(100));
    assert!(!is_success(199));
    assert!(!is_success(300));
    assert!(!is_success(301));
    assert!(!is_success(404));
    assert!(!is_success(500));
    assert!(!is_success(u16::MAX));
}

#[test]
fn success_hands_the_body_back_unread() {
    let body = "{\"name\":\"X\"}".to_string();
    assert_eq!(success_body(200, body.clone()), Ok(body));
}

#[test]
fn success_does_not_look_at_the_body() {
    assert_eq!(success_body(200, "not json".to_string()), Ok("not json".to_string()));
}

#[test]
fn not_found_is_a_remote_error_with_the_payload() {
    let body = "{\"errors\":[{\"error\":\"not found\",\"code\":1021}]}";
    let error = success_body(404, body.to_string()).expect_err("404 must fail");
    match &error {
        ApiError::Remote { status, payload, message } => {
            assert_eq!(*status, 404);
            assert_eq!(payload, body);
            assert!(message.contains("\"errors\""));
            assert!(message.contains("\"not found\""));
            assert!(message.contains("1021"));
            assert!(message.ends_with('\n'));
        }
        other => panic!("unexpected error: {:?}", other),
    }
    assert_eq!(error.message(), match &error {
        ApiError::Remote { message, .. } => message.clone(),
        _ => unreachable!(),
    });
}

#[test]
fn remote_error_message_is_the_printed_document() {
    let error = success_body(400, "{\"a\":true}".to_string()).expect_err("400 must fail");
    assert_eq!(
        error,
        ApiError::Remote {
            status: 400,
            payload: "{\"a\":true}".to_string(),
            message: "Object {\n    \"a\": Bool(true),\n}\n".to_string(),
        }
    );
}

#[test]
fn failing_status_with_a_body_that_is_no_json_is_a_transport_error() {
    let error = success_body(502, "<html>bad gateway</html>".to_string()).expect_err("502 must fail");
    match error {
        ApiError::Transport { message } => assert!(message.contains("expected value")),
        other => panic!("unexpected error: {:?}", other),
    }
}

#[test]
fn failing_status_with_an_empty_body_is_a_transport_error() {
    let error = success_body(500, String::new()).expect_err("500 must fail");
    assert!(matches!(error, ApiError::Transport { .. }));
}

#[test]
fn a_success_body_is_never_parsed_on_failure() {
    let entity = "{\"name\":\"X\"}".to_string();
    assert!(success_body(301, entity.clone()).is_err());
    assert!(success_body(199, entity.clone()).is_err());
    assert!(success_body(300, entity).is_err());
}

#[test]
fn remote_failure_of_a_printed_body() {
    let error = remote_failure(403, "{}".to_string(), Ok("Object {}".to_string()));
    assert_eq!(
        error,
        ApiError::Remote {
            status: 403,
            payload: "{}".to_string(),
            message: "Object {}\n".to_string(),
        }
    );
}

#[test]
fn remote_failure_of_a_refused_body() {
    let error = remote_failure(403, "?".to_string(), Err("expected value".to_string()));
    assert_eq!(error, ApiError::Transport { message: "expected value".to_string() });
}

#[test]
fn expect_success_on_success() {
    assert_eq!(expect_success(200, String::new()), Ok(()));
    assert_eq!(expect_success(204, "ignored".to_string()), Ok(()));
}

#[test]
fn delete_uom_not_found() {
    let body = "{\"errors\":[{\"error\":\"uom not found\"}]}";
    let error = expect_success(404, body.to_string()).expect_err("404 must fail");
    match error {
        ApiError::Remote { status, payload, message } => {
            assert_eq!(status, 404);
            assert_eq!(payload, body);
            assert!(message.contains("uom not found"));
        }
        other => panic!("unexpected error: {:?}", other),
    }
}

#[test]
fn error_messages() {
    assert_eq!(ApiError::transport("no route").message(), "no route");
    assert_eq!(ApiError::configuration("MS_TOKEN is not set").message(), "MS_TOKEN is not set");
    assert_eq!(
        ApiError::transport("no route"),
        ApiError::Transport { message: "no route".to_string() }
    );
    assert_eq!(
        ApiError::configuration("x"),
        ApiError::Configuration { message: "x".to_string() }
    );
}
