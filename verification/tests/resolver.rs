use gcp_dynamic_ip_updater::resolver::{
    address_from_reply, read_address, status_is_success, LookupReply, ResolveError, ADDRESS_FIELD,
    LOOKUP_URL,
};

fn response(status: u16, body: &str) -> LookupReply {
    LookupReply::Response { status, body: body.as_bytes().to_vec() }
}

#[test]
fn lookup_constants() {
    assert_eq!(LOOKUP_URL, "https://api.ipify.org?format=json");
    assert_eq!(ADDRESS_FIELD, "ip");
}

#[test]
fn success_is_two_hundred_to_two_ninety_nine() {
    assert!(!status_is_success(0));
    assert!(!status_is_success(199));
    assert!(status_is_success(200));
    assert!(status_is_success(204));
    assert!(status_is_success(299));
    assert!(!status_is_success(300));
    assert!(!status_is_success(404));
    assert!(!status_is_success(65535));
}

#[test]
fn address_is_read_from_the_ip_member() {
    assert_eq!(
        address_from_reply(&response(200, r#"{"ip": "203.0.113.5"}"#)),
        Ok("203.0.113.5".to_string())
    );
    assert_eq!(
        address_from_reply(&response(299, r#"{"other": 1, "ip": "198.51.100.1"}"#)),
        Ok("198.51.100.1".to_string())
    );
}

#[test]
fn address_is_not_checked_by_the_resolver() {
    assert_eq!(
        address_from_reply(&response(200, r#"{"ip": "not an address"}"#)),
        Ok("not an address".to_string())
    );
}

#[test]
fn no_response_is_unreachable() {
    assert_eq!(address_from_reply(&LookupReply::Failed), Err(ResolveError::Unreachable));
}

#[test]
fn other_status_is_reported_with_its_code() {
    assert_eq!(
        address_from_reply(&response(500, r#"{"ip": "203.0.113.5"}"#)),
        Err(ResolveError::HttpStatus(500))
    );
    assert_eq!(
        address_from_reply(&response(301, r#"{"ip": "203.0.113.5"}"#)),
        Err(ResolveError::HttpStatus(301))
    );
    assert_eq!(address_from_reply(&response(404, "not json")), Err(ResolveError::HttpStatus(404)));
}

#[test]
fn body_that_is_no_document_is_malformed() {
    assert_eq!(address_from_reply(&response(200, "")), Err(ResolveError::MalformedBody));
    assert_eq!(address_from_reply(&response(200, "203.0.113.5")), Err(ResolveError::MalformedBody));
    assert_eq!(
        address_from_reply(&response(200, r#"{"ip": "203.0.113.5""#)),
        Err(ResolveError::MalformedBody)
    );
    let not_text = LookupReply::Response { status: 200, body: vec![0xff, 0xfe] };
    assert_eq!(address_from_reply(&not_text), Err(ResolveError::MalformedBody));
}

#[test]
fn document_without_a_text_under_ip_has_no_address() {
    assert_eq!(address_from_reply(&response(200, "{}")), Err(ResolveError::MissingAddress));
    assert_eq!(
        address_from_reply(&response(200, r#"{"IP": "203.0.113.5"}"#)),
        Err(ResolveError::MissingAddress)
    );
    assert_eq!(
        address_from_reply(&response(200, r#"{"ip": 5}"#)),
        Err(ResolveError::MissingAddress)
    );
    assert_eq!(
        address_from_reply(&response(200, r#"{"ip": null}"#)),
        Err(ResolveError::MissingAddress)
    );
    assert_eq!(
        address_from_reply(&response(200, r#"["203.0.113.5"]"#)),
        Err(ResolveError::MissingAddress)
    );
    assert_eq!(
        address_from_reply(&response(200, r#""203.0.113.5""#)),
        Err(ResolveError::MissingAddress)
    );
}

#[test]
fn read_address_follows_status_then_member() {
    let text = Some(Some("203.0.113.5".to_string()));
    assert_eq!(read_address(200, text.clone()), Ok("203.0.113.5".to_string()));
    assert_eq!(read_address(404, text.clone()), Err(ResolveError::HttpStatus(404)));
    assert_eq!(read_address(404, None), Err(ResolveError::HttpStatus(404)));
    assert_eq!(read_address(200, None), Err(ResolveError::MalformedBody));
    assert_eq!(read_address(200, Some(None)), Err(ResolveError::MissingAddress));
}
