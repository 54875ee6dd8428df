use barony_mod_manager::downloader_api::{
    archive_from_body, is_prepared, parse_queue_response, parse_status_response, queue_request,
    status_request, token_from_field, transmit_request, NegotiationError, QueueRequest,
    POLL_DELAY_MILLIS, QUEUE_ENDPOINT, STATUS_ENDPOINT, TRANSMIT_ENDPOINT,
};

#[test]
fn queue_request_has_the_fixed_shape() {
    assert_eq!(
        queue_request(42),
        QueueRequest {
            published_file_id: 42,
            collection_id: 0,
            extract: false,
            hidden: false,
            direct: false,
            autodownload: true,
        }
    );
    assert_eq!(queue_request(u32::MAX).published_file_id, u32::MAX);
}

#[test]
fn status_request_names_one_token() {
    assert_eq!(status_request("abc").uuids, vec!["abc".to_string()]);
}

#[test]
fn transmit_request_names_the_token() {
    assert_eq!(transmit_request("abc").uuid, "abc");
}

#[test]
fn endpoints_and_delay() {
    assert_eq!(
        QUEUE_ENDPOINT,
        "https://backend-02-prd.steamworkshopdownloader.io/api/download/request"
    );
    assert_eq!(
        STATUS_ENDPOINT,
        "https://backend-02-prd.steamworkshopdownloader.io/api/download/status"
    );
    assert_eq!(
        TRANSMIT_ENDPOINT,
        "https://backend-02-prd.steamworkshopdownloader.io/api/download/transmit"
    );
    assert_eq!(POLL_DELAY_MILLIS, 500);
}

#[test]
fn queue_response_yields_token() {
    assert_eq!(parse_queue_response("{\"uuid\":\"abc\"}"), Ok("abc".to_string()));
    assert_eq!(
        parse_queue_response("{ \"other\": 1, \"uuid\": \"0f3a-77\" }"),
        Ok("0f3a-77".to_string())
    );
    assert_eq!(parse_queue_response("{\"uuid\":\"\"}"), Ok(String::new()));
}

#[test]
fn queue_response_without_token_is_a_protocol_error() {
    for body in [
        "{}",
        "{\"uuid\": 5}",
        "{\"uuid\": null}",
        "{\"UUID\": \"abc\"}",
        "[\"uuid\"]",
        "\"uuid\"",
        "null",
        "",
        "not json",
        "{\"uuid\": \"abc\"",
    ] {
        assert!(
            matches!(parse_queue_response(body), Err(NegotiationError::Protocol(_))),
            "{}",
            body
        );
    }
}

#[test]
fn status_response_is_ready_only_when_prepared() {
    assert_eq!(parse_status_response("{\"abc\":{\"status\":\"prepared\"}}", "abc"), Ok(true));
    assert_eq!(
        parse_status_response("{\"abc\":{\"status\":\"prepared\",\"progress\":100}}", "abc"),
        Ok(true)
    );
    for body in [
        "{\"abc\":{\"status\":\"queued\"}}",
        "{\"abc\":{\"status\":\"Prepared\"}}",
        "{\"abc\":{\"status\":\"prepared \"}}",
        "{\"abc\":{\"status\":1}}",
        "{\"abc\":{}}",
        "{\"abc\":\"prepared\"}",
        "{\"xyz\":{\"status\":\"prepared\"}}",
        "{}",
        "[]",
        "null",
    ] {
        assert_eq!(parse_status_response(body, "abc"), Ok(false), "{}", body);
    }
}

#[test]
fn status_response_that_is_no_json_is_a_protocol_error() {
    for body in ["", "<html>", "{\"abc\":"] {
        assert!(
            matches!(parse_status_response(body, "abc"), Err(NegotiationError::Protocol(_))),
            "{}",
            body
        );
    }
}

#[test]
fn token_field_becomes_outcome() {
    assert_eq!(token_from_field(Some("abc".to_string())), Ok("abc".to_string()));
    assert_eq!(
        token_from_field(None),
        Err(NegotiationError::Protocol("the reply holds no uuid".to_string()))
    );
}

#[test]
fn only_the_prepared_status_is_ready() {
    assert!(is_prepared(&Some("prepared".to_string())));
    assert!(!is_prepared(&Some("preparing".to_string())));
    assert!(!is_prepared(&Some(String::new())));
    assert!(!is_prepared(&None));
}

#[test]
fn empty_body_is_no_archive() {
    assert_eq!(archive_from_body(Vec::new()), Err(NegotiationError::Empty));
    assert_eq!(archive_from_body(vec![1, 2, 3]), Ok(vec![1, 2, 3]));
    assert_eq!(archive_from_body(vec![0]), Ok(vec![0]));
}

#[test]
fn negotiation_error_texts() {
    assert_eq!(
        NegotiationError::Network("timed out".to_string()).text(),
        "network error: timed out"
    );
    assert_eq!(
        NegotiationError::Protocol("no uuid".to_string()).text(),
        "unexpected reply: no uuid"
    );
    assert_eq!(NegotiationError::Empty.text(), "the download was empty");
    assert_eq!(NegotiationError::TimedOut.text(), "the download was not prepared in time");
}
