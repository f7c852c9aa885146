use teams_webhook::{
    CardBlock, Color, Font, FontSize, FontWeight, HorizontalAlignment, Json, Member, TextBlock,
    TextBlockStyle,
};

fn styled() -> TextBlock {
    TextBlock::with_text("all of it")
        .with_color(Color::Warning)
        .with_font_type(Font::Monospace)
        .with_horizontal_alignment(HorizontalAlignment::Center)
        .with_is_subtle(true)
        .with_max_lines(3)
        .with_size(FontSize::ExtraLarge)
        .with_weight(FontWeight::Darker)
        .with_wrap(false)
        .with_text_block_style(TextBlockStyle::Heading)
}

fn from_serde(value: &serde_json::Value) -> Json {
    match value {
        serde_json::Value::Null => Json::Null,
        serde_json::Value::Bool(flag) => Json::Bool(*flag),
        serde_json::Value::Number(number) => Json::Number(number.as_i64().unwrap()),
        serde_json::Value::String(characters) => Json::Text(characters.clone()),
        serde_json::Value::Array(items) => Json::Array(items.iter().map(from_serde).collect()),
        serde_json::Value::Object(members) => Json::Object(
            members.iter().map(|(key, value)| Member::new(key, from_serde(value))).collect(),
        ),
    }
}

#[test]
fn plain_block_has_only_its_text() {
    let block = TextBlock::with_text("hi");
    assert_eq!(block.to_json(), Json::Object(vec![Member::new("text", Json::text("hi"))]));
    assert_eq!(block.to_json().to_text(), "{\"text\":\"hi\"}");
    assert_eq!(block.text(), "hi");
    assert_eq!(block.color(), None);
    assert_eq!(block.font_type(), None);
    assert_eq!(block.horizontal_alignment(), None);
    assert_eq!(block.is_subtle(), None);
    assert_eq!(block.max_lines(), None);
    assert_eq!(block.size(), None);
    assert_eq!(block.weight(), None);
    assert_eq!(block.wrap(), None);
    assert_eq!(block.text_block_style(), None);
}

#[test]
fn unset_attributes_leave_no_key() {
    let json = TextBlock::with_text("hi").with_wrap(true).to_json();
    for key in [
        "color",
        "fontType",
        "horizontalAlignment",
        "isSubtle",
        "maxLines",
        "size",
        "weight",
        "textBlockStyle",
    ] {
        assert_eq!(json.get(key), None);
    }
    assert_eq!(json.get("wrap"), Some(&Json::Bool(true)));
    assert_eq!(json.get("text"), Some(&Json::text("hi")));
    assert!(!json.to_text().contains("null"));
}

#[test]
fn set_attributes_are_written_under_their_keys() {
    let json = styled().to_json();
    assert_eq!(json.get("text"), Some(&Json::text("all of it")));
    assert_eq!(json.get("color"), Some(&Json::text("warning")));
    assert_eq!(json.get("fontType"), Some(&Json::text("monospace")));
    assert_eq!(json.get("horizontalAlignment"), Some(&Json::text("center")));
    assert_eq!(json.get("isSubtle"), Some(&Json::Bool(true)));
    assert_eq!(json.get("maxLines"), Some(&Json::Number(3)));
    assert_eq!(json.get("size"), Some(&Json::text("extraLarge")));
    assert_eq!(json.get("weight"), Some(&Json::text("darker")));
    assert_eq!(json.get("wrap"), Some(&Json::Bool(false)));
    assert_eq!(json.get("textBlockStyle"), Some(&Json::text("heading")));
}

#[test]
fn styled_block_text() {
    assert_eq!(
        styled().to_json().to_text(),
        "{\"color\":\"warning\",\"fontType\":\"monospace\",\"horizontalAlignment\":\"center\",\"isSubtle\":true,\"maxLines\":3,\"size\":\"extraLarge\",\"text\":\"all of it\",\"textBlockStyle\":\"heading\",\"weight\":\"darker\",\"wrap\":false}"
    );
}

#[test]
fn styled_block_getters() {
    let block = styled();
    assert_eq!(block.text(), "all of it");
    assert_eq!(block.color(), Some(Color::Warning));
    assert_eq!(block.font_type(), Some(Font::Monospace));
    assert_eq!(block.horizontal_alignment(), Some(HorizontalAlignment::Center));
    assert_eq!(block.is_subtle(), Some(true));
    assert_eq!(block.max_lines(), Some(3));
    assert_eq!(block.size(), Some(FontSize::ExtraLarge));
    assert_eq!(block.weight(), Some(FontWeight::Darker));
    assert_eq!(block.wrap(), Some(false));
    assert_eq!(block.text_block_style(), Some(TextBlockStyle::Heading));
}

#[test]
fn a_setter_changes_one_attribute() {
    let before = TextBlock::with_text("t").with_color(Color::Good);
    let after = TextBlock::with_text("t").with_color(Color::Good).with_size(FontSize::Small);
    assert_eq!(after.color(), before.color());
    assert_eq!(after.text(), before.text());
    assert_eq!(after.size(), Some(FontSize::Small));
    assert_eq!(after.weight(), None);
    let again = TextBlock::with_text("t").with_color(Color::Good).with_color(Color::Dark);
    assert_eq!(again.color(), Some(Color::Dark));
}

#[test]
fn negative_and_extreme_counts() {
    assert_eq!(
        TextBlock::with_text("t").with_max_lines(-7).to_json().to_text(),
        "{\"maxLines\":-7,\"text\":\"t\"}"
    );
    assert_eq!(
        TextBlock::with_text("t").with_max_lines(0).to_json().to_text(),
        "{\"maxLines\":0,\"text\":\"t\"}"
    );
    assert_eq!(
        TextBlock::with_text("t").with_max_lines(i32::MAX).to_json().to_text(),
        "{\"maxLines\":2147483647,\"text\":\"t\"}"
    );
    assert_eq!(
        TextBlock::with_text("t").with_max_lines(i32::MIN).to_json().to_text(),
        "{\"maxLines\":-2147483648,\"text\":\"t\"}"
    );
}

#[test]
fn block_is_read_back_from_its_document() {
    assert_eq!(TextBlock::from_json(&styled().to_json()), Some(styled()));
    let plain = TextBlock::with_text("hi");
    assert_eq!(TextBlock::from_json(&plain.to_json()), Some(TextBlock::with_text("hi")));
    let one = TextBlock::with_text("").with_max_lines(i32::MIN);
    assert_eq!(
        TextBlock::from_json(&one.to_json()),
        Some(TextBlock::with_text("").with_max_lines(i32::MIN))
    );
}

#[test]
fn block_is_read_back_from_its_text() {
    let sent = styled().to_json().to_text();
    let parsed: serde_json::Value = serde_json::from_str(&sent).unwrap();
    assert_eq!(TextBlock::from_json(&from_serde(&parsed)), Some(styled()));
    let tricky = TextBlock::with_text("a \"quoted\" \\ line\n\ttab \u{7} \u{e9}")
        .with_color(Color::Accent);
    let parsed: serde_json::Value =
        serde_json::from_str(&tricky.to_json().to_text()).unwrap();
    assert_eq!(
        TextBlock::from_json(&from_serde(&parsed)),
        Some(
            TextBlock::with_text("a \"quoted\" \\ line\n\ttab \u{7} \u{e9}")
                .with_color(Color::Accent)
        )
    );
}

#[test]
fn reading_takes_null_for_absent() {
    let json = Json::Object(vec![
        Member::new("text", Json::text("t")),
        Member::new("color", Json::Null),
        Member::new("wrap", Json::Null),
        Member::new("maxLines", Json::Null),
    ]);
    assert_eq!(TextBlock::from_json(&json), Some(TextBlock::with_text("t")));
}

#[test]
fn reading_passes_over_other_keys() {
    let json = Json::Object(vec![
        Member::new("id", Json::Number(4)),
        Member::new("text", Json::text("t")),
        Member::new("_type", Json::text("TextBlock")),
    ]);
    assert_eq!(TextBlock::from_json(&json), Some(TextBlock::with_text("t")));
}

#[test]
fn reading_refuses_what_is_no_block() {
    assert_eq!(TextBlock::from_json(&Json::Null), None);
    assert_eq!(TextBlock::from_json(&Json::text("t")), None);
    assert_eq!(TextBlock::from_json(&Json::Array(vec![Json::text("t")])), None);
    assert_eq!(TextBlock::from_json(&Json::Object(vec![])), None);
    assert_eq!(
        TextBlock::from_json(&Json::Object(vec![Member::new("text", Json::Number(1))])),
        None
    );
    assert_eq!(
        TextBlock::from_json(&Json::Object(vec![Member::new("text", Json::Null)])),
        None
    );
}

#[test]
fn reading_refuses_an_unknown_spelling() {
    let with = |key: &str, value: Json| {
        Json::Object(vec![Member::new("text", Json::text("t")), Member::new(key, value)])
    };
    assert_eq!(TextBlock::from_json(&with("color", Json::text("Warning"))), None);
    assert_eq!(TextBlock::from_json(&with("color", Json::text("purple"))), None);
    assert_eq!(TextBlock::from_json(&with("color", Json::Bool(true))), None);
    assert_eq!(TextBlock::from_json(&with("fontType", Json::text("serif"))), None);
    assert_eq!(TextBlock::from_json(&with("horizontalAlignment", Json::text("default"))), None);
    assert_eq!(TextBlock::from_json(&with("size", Json::text("extralarge"))), None);
    assert_eq!(TextBlock::from_json(&with("weight", Json::text("bold"))), None);
    assert_eq!(TextBlock::from_json(&with("textBlockStyle", Json::text("Heading"))), None);
    assert_eq!(TextBlock::from_json(&with("isSubtle", Json::text("true"))), None);
    assert_eq!(TextBlock::from_json(&with("wrap", Json::Number(1))), None);
    assert_eq!(TextBlock::from_json(&with("maxLines", Json::text("3"))), None);
    assert_eq!(
        TextBlock::from_json(&with("color", Json::text("warning"))),
        Some(TextBlock::with_text("t").with_color(Color::Warning))
    );
}

#[test]
fn reading_refuses_a_count_that_does_not_fit() {
    let with = |count: i64| {
        Json::Object(vec![
            Member::new("text", Json::text("t")),
            Member::new("maxLines", Json::Number(count)),
        ])
    };
    assert_eq!(TextBlock::from_json(&with(2147483648)), None);
    assert_eq!(TextBlock::from_json(&with(-2147483649)), None);
    assert_eq!(TextBlock::from_json(&with(i64::MAX)), None);
    assert_eq!(
        TextBlock::from_json(&with(2147483647)),
        Some(TextBlock::with_text("t").with_max_lines(2147483647))
    );
    assert_eq!(
        TextBlock::from_json(&with(-2147483648)),
        Some(TextBlock::with_text("t").with_max_lines(-2147483648))
    );
}

#[test]
fn reading_takes_the_first_of_two_members_with_one_key() {
    let json = Json::Object(vec![
        Member::new("text", Json::text("first")),
        Member::new("text", Json::text("second")),
    ]);
    assert_eq!(TextBlock::from_json(&json), Some(TextBlock::with_text("first")));
}

#[test]
fn card_block_names_its_kind() {
    let block = CardBlock::text("hi");
    assert_eq!(block.get_type_name(), "TextBlock");
    assert_eq!(block.block_type(), teams_webhook::BlockType::TextBlock);
    assert_eq!(
        block.to_json(),
        Json::Object(vec![
            Member::new("_type", Json::text("TextBlock")),
            Member::new("text", Json::text("hi")),
        ])
    );
    assert_eq!(block, CardBlock::Text(TextBlock::with_text("hi")));
}

#[test]
fn card_block_keeps_the_members_of_its_block() {
    let json = CardBlock::Text(styled()).to_json();
    assert_eq!(json.get("_type"), Some(&Json::text("TextBlock")));
    for key in [
        "color",
        "fontType",
        "horizontalAlignment",
        "isSubtle",
        "maxLines",
        "size",
        "text",
        "textBlockStyle",
        "weight",
        "wrap",
    ] {
        assert_eq!(json.get(key), styled().to_json().get(key));
        assert!(json.get(key).is_some());
    }
    assert_eq!(
        json.to_text(),
        "{\"_type\":\"TextBlock\",\"color\":\"warning\",\"fontType\":\"monospace\",\"horizontalAlignment\":\"center\",\"isSubtle\":true,\"maxLines\":3,\"size\":\"extraLarge\",\"text\":\"all of it\",\"textBlockStyle\":\"heading\",\"weight\":\"darker\",\"wrap\":false}"
    );
}

#[test]
fn card_block_is_read_back_from_its_document() {
    assert_eq!(
        CardBlock::from_json(&CardBlock::Text(styled()).to_json()),
        Some(CardBlock::Text(styled()))
    );
    assert_eq!(CardBlock::from_json(&CardBlock::text("hi").to_json()), Some(CardBlock::text("hi")));
}

#[test]
fn card_block_without_a_known_kind_is_refused() {
    assert_eq!(CardBlock::from_json(&TextBlock::with_text("hi").to_json()), None);
    let image = Json::Object(vec![
        Member::new("_type", Json::text("Image")),
        Member::new("text", Json::text("hi")),
    ]);
    assert_eq!(CardBlock::from_json(&image), None);
    let untyped = Json::Object(vec![
        Member::new("_type", Json::Number(1)),
        Member::new("text", Json::text("hi")),
    ]);
    assert_eq!(CardBlock::from_json(&untyped), None);
    let no_text = Json::Object(vec![Member::new("_type", Json::text("TextBlock"))]);
    assert_eq!(CardBlock::from_json(&no_text), None);
}

#[test]
fn block_members_stand_as_serde_json_orders_them() {
    let read: serde_json::Value =
        serde_json::from_str(&CardBlock::Text(styled()).to_json().to_text()).unwrap();
    assert_eq!(
        serde_json::to_string(&read).unwrap(),
        CardBlock::Text(styled()).to_json().to_text()
    );
}
