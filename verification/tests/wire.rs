use teams_webhook::{
    BasicMessage, CardAttachment, CardBlock, CardContent, Color, Json, Member, Message, TextBlock,
};

const PLAIN_CARD: &str = "{\"type\":\"message\",\"attachments\":[{\"contentType\":\"application/vnd.microsoft.card.adaptive\",\"contentUrl\":null,\"content\":{\"$schema\":\"http://adaptivecards.io/schemas/adaptive-card.json\",\"type\":\"AdaptiveCard\",\"version\":\"1.2\",\"body\":[{\"_type\":\"TextBlock\",\"text\":\"hi\"}]}}]}";

fn member(key: &str, value: Json) -> Member {
    Member::new(key, value)
}

fn text(characters: &str) -> Json {
    Json::text(characters)
}

#[test]
fn basic_message_is_one_text_member() {
    assert_eq!(BasicMessage::text("hello").to_text(), "{\"text\":\"hello\"}");
    assert_eq!(
        BasicMessage::text("hello").to_json(),
        Json::Object(vec![member("text", text("hello"))])
    );
    assert_eq!(BasicMessage::text("hello").content(), "hello");
}

#[test]
fn basic_message_of_empty_text() {
    assert_eq!(BasicMessage::text("").to_text(), "{\"text\":\"\"}");
}

#[test]
fn basic_message_escapes_its_text() {
    assert_eq!(
        BasicMessage::text("say \"hi\"\\now\n").to_text(),
        "{\"text\":\"say \\\"hi\\\"\\\\now\\n\"}"
    );
}

#[test]
fn basic_message_text_is_what_serde_json_reads_back() {
    let sent = BasicMessage::text("line one\nline \"two\" \u{1}\u{e9}\u{1f600}").to_text();
    let read: serde_json::Value = serde_json::from_str(&sent).unwrap();
    let object = read.as_object().unwrap();
    assert_eq!(object.len(), 1);
    assert_eq!(
        object.get("text").unwrap().as_str().unwrap(),
        "line one\nline \"two\" \u{1}\u{e9}\u{1f600}"
    );
}

#[test]
fn card_message_with_one_plain_block() {
    let message = Message::attachment(CardAttachment::content(CardContent::body(vec![
        CardBlock::text("hi"),
    ])));
    assert_eq!(message.to_text(), PLAIN_CARD);
}

#[test]
fn card_message_with_one_plain_block_as_a_document() {
    let message = Message::attachment(CardAttachment::content(CardContent::body(vec![
        CardBlock::text("hi"),
    ])));
    let block = Json::Object(vec![member("_type", text("TextBlock")), member("text", text("hi"))]);
    let card = Json::Object(vec![
        member("$schema", text("http://adaptivecards.io/schemas/adaptive-card.json")),
        member("type", text("AdaptiveCard")),
        member("version", text("1.2")),
        member("body", Json::Array(vec![block])),
    ]);
    let attachment = Json::Object(vec![
        member("contentType", text("application/vnd.microsoft.card.adaptive")),
        member("contentUrl", Json::Null),
        member("content", card),
    ]);
    let expected = Json::Object(vec![
        member("type", text("message")),
        member("attachments", Json::Array(vec![attachment])),
    ]);
    assert_eq!(message.to_json(), expected);
}

#[test]
fn plain_block_has_no_optional_key() {
    let message = Message::attachment(CardAttachment::content(CardContent::body(vec![
        CardBlock::text("hi"),
    ])));
    let read: serde_json::Value = serde_json::from_str(&message.to_text()).unwrap();
    let block = read["attachments"][0]["content"]["body"][0].as_object().unwrap();
    assert_eq!(block.len(), 2);
    assert_eq!(block.get("text").unwrap().as_str().unwrap(), "hi");
    assert_eq!(block.get("_type").unwrap().as_str().unwrap(), "TextBlock");
}

#[test]
fn card_with_empty_body_keeps_its_fixed_members() {
    let card = CardContent::body(vec![]);
    assert_eq!(
        card.to_json().to_text(),
        "{\"$schema\":\"http://adaptivecards.io/schemas/adaptive-card.json\",\"type\":\"AdaptiveCard\",\"version\":\"1.2\",\"body\":[]}"
    );
    assert!(card.blocks().is_empty());
}

#[test]
fn card_keeps_the_order_of_its_blocks() {
    let card = CardContent::body(vec![
        CardBlock::text("first"),
        CardBlock::Text(TextBlock::with_text("second").with_color(Color::Good)),
        CardBlock::text("third"),
    ]);
    assert_eq!(
        card.to_json().to_text(),
        "{\"$schema\":\"http://adaptivecards.io/schemas/adaptive-card.json\",\"type\":\"AdaptiveCard\",\"version\":\"1.2\",\"body\":[{\"_type\":\"TextBlock\",\"text\":\"first\"},{\"_type\":\"TextBlock\",\"color\":\"good\",\"text\":\"second\"},{\"_type\":\"TextBlock\",\"text\":\"third\"}]}"
    );
    assert_eq!(card.blocks().len(), 3);
    assert_eq!(card.blocks()[0], CardBlock::text("first"));
    assert_eq!(card.blocks()[2], CardBlock::text("third"));
}

#[test]
fn attachment_stamps_its_content_type() {
    let attachment = CardAttachment::content(CardContent::body(vec![]));
    let json = attachment.to_json();
    assert_eq!(
        json.get("contentType"),
        Some(&text("application/vnd.microsoft.card.adaptive"))
    );
    assert_eq!(json.get("contentUrl"), Some(&Json::Null));
    assert_eq!(json.get("content"), Some(&CardContent::body(vec![]).to_json()));
    assert_eq!(attachment.card(), &CardContent::body(vec![]));
}

#[test]
fn attachment_with_an_address_writes_it() {
    let attachment =
        CardAttachment::content(CardContent::body(vec![])).with_content_url("https://example.org/c");
    assert_eq!(
        attachment.to_json().get("contentUrl"),
        Some(&text("https://example.org/c"))
    );
}

#[test]
fn message_with_one_attachment_holds_it_alone() {
    let one = Message::attachment(CardAttachment::content(CardContent::body(vec![
        CardBlock::text("a"),
    ])));
    let same = Message::attachments(vec![CardAttachment::content(CardContent::body(vec![
        CardBlock::text("a"),
    ]))]);
    assert_eq!(one, same);
    assert_eq!(one.carried().len(), 1);
    assert_eq!(
        one.carried()[0],
        CardAttachment::content(CardContent::body(vec![CardBlock::text("a")]))
    );
}

#[test]
fn message_keeps_the_order_of_its_attachments() {
    let a = || CardAttachment::content(CardContent::body(vec![CardBlock::text("a")]));
    let b = || CardAttachment::content(CardContent::body(vec![CardBlock::text("b")]));
    let message = Message::attachments(vec![a(), b()]);
    assert_eq!(message.carried()[0], a());
    assert_eq!(message.carried()[1], b());
    let json = message.to_json();
    assert_eq!(json.get("type"), Some(&text("message")));
    assert_eq!(
        json.get("attachments"),
        Some(&Json::Array(vec![a().to_json(), b().to_json()]))
    );
    assert_ne!(message, Message::attachments(vec![b(), a()]));
}

#[test]
fn message_without_attachments() {
    assert_eq!(
        Message::attachments(vec![]).to_text(),
        "{\"type\":\"message\",\"attachments\":[]}"
    );
}

#[test]
fn serializing_twice_gives_the_same_text() {
    let message = Message::attachment(CardAttachment::content(CardContent::body(vec![
        CardBlock::Text(
            TextBlock::with_text("twice")
                .with_color(Color::Attention)
                .with_wrap(true)
                .with_max_lines(2),
        ),
    ])));
    let first = message.to_text();
    let second = message.to_text();
    assert_eq!(first.as_bytes(), second.as_bytes());
    assert_eq!(
        BasicMessage::text("twice").to_text(),
        BasicMessage::text("twice").to_text()
    );
}
