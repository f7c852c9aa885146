use teams_webhook::{
    CardAttachment, CardBlock, CardContent, Delivery, Message, Method, Request, SendError, Teams,
};

#[test]
fn new_keeps_the_address() {
    let teams = Teams::new("https://example.org/webhook/abc");
    assert_eq!(teams.webhook_url(), "https://example.org/webhook/abc");
}

#[test]
fn send_text_posts_the_plain_text_payload() {
    let teams = Teams::new("https://example.org/webhook/abc");
    let request = teams.send_text("hello");
    assert_eq!(
        request,
        Request {
            method: Method::Post,
            url: "https://example.org/webhook/abc".to_string(),
            content_type: "application/json".to_string(),
            body: "{\"text\":\"hello\"}".to_string(),
        }
    );
}

#[test]
fn send_message_posts_the_card_payload() {
    let teams = Teams::new("https://example.org/webhook/abc");
    let message = Message::attachment(CardAttachment::content(CardContent::body(vec![
        CardBlock::text("hi"),
    ])));
    let request = teams.send_message(&message);
    assert_eq!(request.method, Method::Post);
    assert_eq!(request.url, "https://example.org/webhook/abc");
    assert_eq!(request.content_type, "application/json");
    assert_eq!(request.body, message.to_text());
    assert_eq!(
        request.body,
        "{\"type\":\"message\",\"attachments\":[{\"contentType\":\"application/vnd.microsoft.card.adaptive\",\"contentUrl\":null,\"content\":{\"$schema\":\"http://adaptivecards.io/schemas/adaptive-card.json\",\"type\":\"AdaptiveCard\",\"version\":\"1.2\",\"body\":[{\"_type\":\"TextBlock\",\"text\":\"hi\"}]}}]}"
    );
}

#[test]
fn a_refused_connection_is_a_transport_failure() {
    let teams = Teams::new("http://127.0.0.1:9/");
    let message = Message::attachment(CardAttachment::content(CardContent::body(vec![
        CardBlock::text("hi"),
    ])));
    let _request = teams.send_message(&message);
    assert_eq!(
        Teams::outcome(Delivery::Failed("connection refused".to_string())),
        Err(SendError::Transport("connection refused".to_string()))
    );
}

#[test]
fn any_response_is_a_success() {
    assert_eq!(Teams::outcome(Delivery::Responded(200)), Ok(()));
    assert_eq!(Teams::outcome(Delivery::Responded(204)), Ok(()));
    assert_eq!(Teams::outcome(Delivery::Responded(400)), Ok(()));
    assert_eq!(Teams::outcome(Delivery::Responded(429)), Ok(()));
    assert_eq!(Teams::outcome(Delivery::Responded(500)), Ok(()));
}

#[test]
fn each_send_is_one_request_of_its_own() {
    let teams = Teams::new("https://example.org/w");
    assert_eq!(teams.send_text("a"), teams.send_text("a"));
    assert_ne!(teams.send_text("a"), teams.send_text("b"));
}
