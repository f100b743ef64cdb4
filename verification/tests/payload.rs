use pidgey::payload::{build_send_request, encode_send_request, json_escape};

#[test]
fn escaping_leaves_ordinary_text_alone() {
    assert_eq!(json_escape("plain text, no specials"), "plain text, no specials");
}

#[test]
fn escaping_rewrites_quote_backslash_and_controls() {
    assert_eq!(json_escape("a\"b\\c\nd"), "a\\u0022b\\u005cc\\u000ad");
    assert_eq!(json_escape("\t"), "\\u0009");
    assert_eq!(json_escape("\r"), "\\u000d");
    assert_eq!(json_escape("\u{0}"), "\\u0000");
    assert_eq!(json_escape("\u{1f}"), "\\u001f");
}

#[test]
fn built_request_has_one_recipient_and_two_parts() {
    let req = build_send_request("s@x.co", "r@y.co", "Hi", "t", "<b>h</b>");
    assert_eq!(req.to.len(), 1);
    assert_eq!(req.to[0], "r@y.co");
    assert_eq!(req.content.len(), 2);
    assert_eq!(req.content[0].content_kind, "text/plain");
    assert_eq!(req.content[0].value, "t");
    assert_eq!(req.content[1].content_kind, "text/html");
    assert_eq!(req.content[1].value, "<b>h</b>");
}

#[test]
fn encoder_produces_the_exact_json_body() {
    let req = build_send_request("s@x.co", "r@y.co", "Hi", "t", "<b>h</b>");
    let body = encode_send_request(&req);
    assert_eq!(
        body,
        "{\"personalizations\":{\"to\":[{\"email\":\"r@y.co\"}]},\
         \"from\":{\"email\":\"s@x.co\"},\"subject\":\"Hi\",\
         \"content\":[{\"type\":\"text/plain\",\"value\":\"t\"},\
         {\"type\":\"text/html\",\"value\":\"<b>h</b>\"}]}"
    );
}

#[test]
fn encoded_payload_parses_back_as_json_with_the_fields_intact() {
    let req = build_send_request(
        "sender@example.com",
        "recipient@example.com",
        "Q\"uo\nte",
        "plain \\ text",
        "<p>hi</p>",
    );
    let body = encode_send_request(&req);
    let v: serde_json::Value = serde_json::from_str(&body).unwrap();
    assert_eq!(v["subject"].as_str().unwrap(), "Q\"uo\nte");
    let content = v["content"].as_array().unwrap();
    assert_eq!(content.len(), 2);
    assert_eq!(content[0]["type"].as_str().unwrap(), "text/plain");
    assert_eq!(content[0]["value"].as_str().unwrap(), "plain \\ text");
    assert_eq!(content[1]["type"].as_str().unwrap(), "text/html");
    assert_eq!(content[1]["value"].as_str().unwrap(), "<p>hi</p>");
    let to = v["personalizations"]["to"].as_array().unwrap();
    assert_eq!(to.len(), 1);
    assert_eq!(to[0]["email"].as_str().unwrap(), "recipient@example.com");
    assert_eq!(v["from"]["email"].as_str().unwrap(), "sender@example.com");
}
