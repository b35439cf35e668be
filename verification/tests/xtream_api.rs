use iptv::xtream_api::{response_text, ResponseError, XTreamAPI};

#[test]
fn response_text_refuses_empty_body() {
    assert_eq!(response_text(Vec::new()), Err(ResponseError::Empty));
}

#[test]
fn response_text_refuses_blank_body() {
    assert_eq!(response_text(b" \n\t ".to_vec()), Err(ResponseError::Empty));
}

#[test]
fn response_text_refuses_invalid_utf8() {
    assert_eq!(response_text(vec![0xff, 0xfe, 0x41]), Err(ResponseError::NotUtf8));
}

#[test]
fn response_text_keeps_the_text() {
    assert_eq!(response_text(b" [1] ".to_vec()), Ok(" [1] ".to_string()));
}

#[test]
fn base_url_keeps_scheme_host_and_port() {
    assert_eq!(
        XTreamAPI::base_url_from("http://example.com:8080/player_api.php").unwrap(),
        "http://example.com:8080"
    );
}

#[test]
fn json_error_message_shows_the_place() {
    let text = "{\n  \"a\": x\n}";
    assert_eq!(
        iptv::xtream_api::json_error_message(text, 2, 8, "expected value").unwrap(),
        "JSON parsing failed at line 2, column 8 (byte position ~9):\nContext: ...{   \"a\": x }...\nError: expected value"
    );
}

#[test]
fn json_error_message_counts_crlf_lines_as_the_client_does() {
    let text = "ab\r\ncd";
    assert_eq!(
        iptv::xtream_api::json_error_message(text, 2, 1, "e").unwrap(),
        "JSON parsing failed at line 2, column 1 (byte position ~3):\nContext: ...ab  cd...\nError: e"
    );
}

#[test]
fn json_error_message_needs_character_boundaries() {
    let text = format!("{}é{}", "a".repeat(99), "b".repeat(300));
    assert!(iptv::xtream_api::json_error_message(&text, 1, 201, "e").is_none());
    assert!(iptv::xtream_api::json_error_message(&text, 1, 202, "e").is_some());
}

#[test]
fn action_descriptions() {
    assert_eq!(iptv::xtream_api::action_description("get_vod_streams"), "VOD streams");
    assert_eq!(iptv::xtream_api::action_description("get_user_info"), "user info");
    assert_eq!(iptv::xtream_api::action_description("something"), "something");
}

#[test]
fn base_url_without_port_and_invalid_url() {
    assert_eq!(XTreamAPI::base_url_from("https://tv.example.org/player_api.php").unwrap(), "https://tv.example.org");
    assert!(XTreamAPI::base_url_from("not a url").is_err());
    assert_eq!(iptv::xtream_api::ApiError::InvalidServerUrl.message(), "Invalid server URL");
}
