//! The card schema around the text block: the block of a card's body, the
//! card, the attachment that carries a card, the message that carries
//! attachments, the plain-text message, and the JSON object that each of
//! them is on the wire.
//!
//! The wire form is fixed as follows. A block names its kind under `_type`,
//! before its own members. A card writes `$schema`, `type`, `version` and
//! `body`, in this order; an attachment `contentType`, `contentUrl` and
//! `content`; a message `type` and `attachments`. An attachment without an
//! address writes `null` under `contentUrl`.

use crate::json::{
    item_values, lemma_escaped_plain, lemma_lookup_concat, lemma_single_member_text, lookup,
    member_values, quoted, Json, JsonValue, Member, MemberValue,
};
use crate::style::Spelling;
use crate::text_block::{
    lemma_text_block_json, lemma_text_block_keys, lemma_text_block_round_trip, TextBlock,
    TextBlockView,
};
use vstd::prelude::*;

verus! {

/// The kinds of block that a card's body can hold.
#[derive(Clone, Copy, Debug, PartialEq, Eq, Structural)]
pub enum BlockType {
    TextBlock,
}

impl Spelling for BlockType {
    open spec fn spelling(self) -> Seq<char> {
        match self {
            BlockType::TextBlock => "TextBlock"@,
        }
    }

    open spec fn parse(name: Seq<char>) -> Option<BlockType> {
        if name == "TextBlock"@ {
            Some(BlockType::TextBlock)
        } else {
            None
        }
    }

    fn as_str(&self) -> (name: &'static str) {
        match self {
            BlockType::TextBlock => "TextBlock",
        }
    }

    fn from_name(name: &str) -> (found: Option<BlockType>) {
        if *name == *"TextBlock" {
            Some(BlockType::TextBlock)
        } else {
            None
        }
    }

    proof fn lemma_spelling_round_trip(self, name: Seq<char>) {
    }
}

/// One element of a card's body.
#[derive(Debug, PartialEq, Eq)]
pub enum CardBlock {
    Text(TextBlock),
}

/// A card block as a mathematical value.
pub enum CardBlockView {
    Text(TextBlockView),
}

impl View for CardBlock {
    type V = CardBlockView;

    open spec fn view(&self) -> CardBlockView {
        match self {
            CardBlock::Text(block) => CardBlockView::Text(block@),
        }
    }
}

impl CardBlockView {
    /// The kind of the block.
    pub open spec fn block_type(self) -> BlockType {
        match self {
            CardBlockView::Text(_) => BlockType::TextBlock,
        }
    }

    /// The members of the block itself, without the one that names its kind.
    pub open spec fn own_members(self) -> Seq<MemberValue> {
        match self {
            CardBlockView::Text(block) => block.members(),
        }
    }

    /// The block's JSON object: the name of its kind under `_type`, then the
    /// block's own members.
    pub open spec fn json(self) -> JsonValue {
        JsonValue::Object(
            seq![
                MemberValue { key: "_type"@, value: JsonValue::Text(self.block_type().spelling()) },
            ] + self.own_members(),
        )
    }

    /// Reads a block back from a JSON document: the string under `_type`
    /// must name a kind of block, and the document must read as a block of
    /// that kind. `None` where the document is refused.
    pub open spec fn read(json: JsonValue) -> Option<CardBlockView> {
        match json.get("_type"@) {
            Some(JsonValue::Text(name)) => match BlockType::parse(name) {
                Some(BlockType::TextBlock) => match TextBlockView::read(json) {
                    Some(block) => Some(CardBlockView::Text(block)),
                    None => None,
                },
                None => None,
            },
            _ => None,
        }
    }
}

impl CardBlock {
    /// The text block with the given text and no styling attribute.
    pub fn text(text: &str) -> (block: CardBlock)
        ensures
            block@ == CardBlockView::Text(TextBlockView::plain(text@)),
    {
        CardBlock::Text(TextBlock::with_text(text))
    }

    /// The kind of the block.
    pub fn block_type(&self) -> (kind: BlockType)
        ensures
            kind == self@.block_type(),
    {
        match self {
            CardBlock::Text(_) => BlockType::TextBlock,
        }
    }

    /// The name of the block's kind, as it is written under `_type`.
    pub fn get_type_name(&self) -> (name: String)
        ensures
            name@ == self@.block_type().spelling(),
    {
        self.block_type().as_str().to_owned()
    }

    /// The block's JSON object: the block's own members and, before them,
    /// the name of its kind under `_type`.
    pub fn to_json(&self) -> (json: Json)
        ensures
            json@ == self@.json(),
    {
        let mut members = match self {
            CardBlock::Text(block) => block.members(),
        };
        let ghost own = member_values(members@);
        let name = self.get_type_name();
        members.insert(0, Member::new("_type", Json::text(name.as_str())));
        assert(member_values(members@) =~= seq![
            MemberValue { key: "_type"@, value: JsonValue::Text(self@.block_type().spelling()) },
        ] + own);
        Json::object(members)
    }

    /// Reads a block back from a JSON document; `None` where the document is
    /// refused.
    pub fn from_json(json: &Json) -> (block: Option<CardBlock>)
        ensures
            match block {
                Some(block) => CardBlockView::read(json@) == Some(block@),
                None => CardBlockView::read(json@) is None,
            },
    {
        match json.get("_type") {
            Some(Json::Text(name)) => match BlockType::from_name(name.as_str()) {
                Some(BlockType::TextBlock) => match TextBlock::from_json(json) {
                    Some(block) => Some(CardBlock::Text(block)),
                    None => None,
                },
                None => None,
            },
            _ => None,
        }
    }
}

/// A card block's JSON object names the block's kind under `_type`, and
/// holds under every other key what the block's own members hold there.
pub proof fn lemma_card_block_json(block: CardBlockView)
    ensures
        block.json().get("_type"@) == Some(JsonValue::Text(block.block_type().spelling())),
        forall|key: Seq<char>|
            key != "_type"@ ==> #[trigger] block.json().get(key) == lookup(
                block.own_members(),
                key,
            ),
{
    let kind = seq![
        MemberValue { key: "_type"@, value: JsonValue::Text(block.block_type().spelling()) },
    ];
    reveal_with_fuel(lookup, 2);
    lemma_lookup_concat(kind, block.own_members(), "_type"@);
    assert forall|key: Seq<char>| key != "_type"@ implies #[trigger] block.json().get(key)
        == lookup(block.own_members(), key) by {
        lemma_lookup_concat(kind, block.own_members(), key);
    }
}

/// Reading a card block's JSON object gives the block back.
pub proof fn lemma_card_block_round_trip(block: CardBlockView)
    ensures
        CardBlockView::read(block.json()) == Some(block),
{
    reveal_strlit("_type");
    lemma_text_block_keys();
    lemma_card_block_json(block);
    match block {
        CardBlockView::Text(inner) => {
            lemma_text_block_json(inner);
            lemma_text_block_round_trip(inner);
            assert("_type"@.len() == 5 && "_type"@[0] == '_');
            assert(inner.json().get("text"@) == block.json().get("text"@));
            assert(TextBlockView::read(block.json()) == TextBlockView::read(inner.json()));
        },
    }
}

/// The address of the schema that every card names under `$schema`.
pub open spec fn schema_url() -> Seq<char> {
    "http://adaptivecards.io/schemas/adaptive-card.json"@
}

/// The tag that every card carries under `type`.
pub open spec fn card_type() -> Seq<char> {
    "AdaptiveCard"@
}

/// The version of the schema that every card names under `version`.
pub open spec fn schema_version() -> Seq<char> {
    "1.2"@
}

/// One adaptive card: the blocks of its body, in the order in which they are
/// shown.
#[derive(Debug, PartialEq, Eq)]
pub struct CardContent {
    body: Vec<CardBlock>,
}

/// A card as a mathematical value.
pub struct CardContentView {
    pub body: Seq<CardBlockView>,
}

impl View for CardContent {
    type V = CardContentView;

    closed spec fn view(&self) -> CardContentView {
        CardContentView { body: self.body@.map_values(|block: CardBlock| block@) }
    }
}

impl CardContentView {
    /// The card's JSON object: the schema's address, the card's tag and the
    /// schema's version, which are the same for every card, and the blocks
    /// of the body, each as its JSON object, in their order.
    pub open spec fn json(self) -> JsonValue {
        JsonValue::Object(
            seq![
                MemberValue { key: "$schema"@, value: JsonValue::Text(schema_url()) },
                MemberValue { key: "type"@, value: JsonValue::Text(card_type()) },
                MemberValue { key: "version"@, value: JsonValue::Text(schema_version()) },
                MemberValue {
                    key: "body"@,
                    value: JsonValue::Array(
                        self.body.map_values(|block: CardBlockView| block.json()),
                    ),
                },
            ],
        )
    }
}

impl CardContent {
    /// The card whose body holds the given blocks, in the given order.
    pub fn body(body: Vec<CardBlock>) -> (card: CardContent)
        ensures
            card@.body == body@.map_values(|block: CardBlock| block@),
    {
        CardContent { body }
    }

    /// The blocks of the card's body, in their order.
    pub fn blocks(&self) -> (blocks: &Vec<CardBlock>)
        ensures
            blocks@.map_values(|block: CardBlock| block@) == self@.body,
    {
        &self.body
    }

    /// The card's JSON object.
    pub fn to_json(&self) -> (json: Json)
        ensures
            json@ == self@.json(),
    {
        let mut blocks: Vec<Json> = Vec::new();
        let mut i: usize = 0;
        while i < self.body.len()
            invariant
                i <= self.body.len(),
                blocks.len() == i,
                forall|k: int| 0 <= k < i ==> blocks[k]@ == self.body[k]@.json(),
            decreases self.body.len() - i,
        {
            blocks.push(self.body[i].to_json());
            i += 1;
        }
        assert(item_values(blocks@) =~= self@.body.map_values(
            |block: CardBlockView| block.json(),
        ));
        let mut members: Vec<Member> = Vec::new();
        members.push(
            Member::new("$schema", Json::text("http://adaptivecards.io/schemas/adaptive-card.json")),
        );
        members.push(Member::new("type", Json::text("AdaptiveCard")));
        members.push(Member::new("version", Json::text("1.2")));
        members.push(Member::new("body", Json::array(blocks)));
        assert(member_values(members@) =~= self@.json()->Object_0);
        Json::object(members)
    }
}

/// Whatever its body holds, a card's JSON object names the schema under
/// `$schema`, carries the tag `AdaptiveCard` under `type` and the version
/// `1.2` under `version`, and holds under `body` an array with one item for
/// each block, the blocks' JSON objects in the order of the blocks.
pub proof fn lemma_card_content_json(card: CardContentView)
    ensures
        card.json().get("$schema"@) == Some(JsonValue::Text(schema_url())),
        card.json().get("type"@) == Some(JsonValue::Text(card_type())),
        card.json().get("version"@) == Some(JsonValue::Text(schema_version())),
        card.json().get("body"@) matches Some(JsonValue::Array(items)) && items.len()
            == card.body.len() && forall|i: int|
            0 <= i < card.body.len() ==> #[trigger] items[i] == card.body[i].json(),
{
    reveal_strlit("$schema");
    reveal_strlit("type");
    reveal_strlit("version");
    reveal_strlit("body");
    reveal_with_fuel(lookup, 5);
    assert("$schema"@.len() == 7 && "$schema"@[0] == '$');
    assert("type"@.len() == 4 && "type"@[0] == 't');
    assert("version"@.len() == 7 && "version"@[0] == 'v');
    assert("body"@.len() == 4 && "body"@[0] == 'b');
    let members = card.json()->Object_0;
    assert(members.drop_first()[0] == members[1]);
    assert(members.drop_first().drop_first()[0] == members[2]);
    assert(members.drop_first().drop_first().drop_first()[0] == members[3]);
}

/// The content type that every attachment carries under `contentType`.
pub open spec fn card_content_type() -> Seq<char> {
    "application/vnd.microsoft.card.adaptive"@
}

/// The envelope that carries one card under its content type.
#[derive(Debug, PartialEq, Eq)]
pub struct CardAttachment {
    content_url: Option<String>,
    content: CardContent,
}

/// An attachment as a mathematical value.
pub struct CardAttachmentView {
    pub content_url: Option<Seq<char>>,
    pub content: CardContentView,
}

impl View for CardAttachment {
    type V = CardAttachmentView;

    closed spec fn view(&self) -> CardAttachmentView {
        CardAttachmentView {
            content_url: match self.content_url {
                Some(url) => Some(url@),
                None => None,
            },
            content: self.content@,
        }
    }
}

impl CardAttachmentView {
    /// The attachment's JSON object: the content type, which is the same for
    /// every attachment; the content's address, `null` where there is none;
    /// and the card.
    pub open spec fn json(self) -> JsonValue {
        JsonValue::Object(
            seq![
                MemberValue { key: "contentType"@, value: JsonValue::Text(card_content_type()) },
                MemberValue {
                    key: "contentUrl"@,
                    value: match self.content_url {
                        Some(url) => JsonValue::Text(url),
                        None => JsonValue::Null,
                    },
                },
                MemberValue { key: "content"@, value: self.content.json() },
            ],
        )
    }
}

impl CardAttachment {
    /// The attachment that carries the given card, with no address.
    pub fn content(content: CardContent) -> (attachment: CardAttachment)
        ensures
            attachment@ == (CardAttachmentView { content_url: None, content: content@ }),
    {
        CardAttachment { content_url: None, content }
    }

    /// The same attachment with the content's address set to the given one.
    pub fn with_content_url(self, url: &str) -> (attachment: CardAttachment)
        ensures
            attachment@ == (CardAttachmentView { content_url: Some(url@), ..self@ }),
    {
        let mut attachment = self;
        attachment.content_url = Some(url.to_owned());
        attachment
    }

    /// The address of the content, where the attachment has one.
    pub fn content_url(&self) -> (url: Option<&str>)
        ensures
            match url {
                Some(url) => self@.content_url == Some(url@),
                None => self@.content_url is None,
            },
    {
        match &self.content_url {
            Some(url) => Some(url.as_str()),
            None => None,
        }
    }

    /// The card that the attachment carries.
    pub fn card(&self) -> (card: &CardContent)
        ensures
            card@ == self@.content,
    {
        &self.content
    }

    /// The attachment's JSON object.
    pub fn to_json(&self) -> (json: Json)
        ensures
            json@ == self@.json(),
    {
        let url = match &self.content_url {
            Some(url) => Json::text(url.as_str()),
            None => Json::Null,
        };
        let mut members: Vec<Member> = Vec::new();
        members.push(
            Member::new("contentType", Json::text("application/vnd.microsoft.card.adaptive")),
        );
        members.push(Member::new("contentUrl", url));
        members.push(Member::new("content", self.content.to_json()));
        assert(member_values(members@) =~= self@.json()->Object_0);
        Json::object(members)
    }
}

/// An attachment's JSON object carries the content type of adaptive cards
/// under `contentType`, the content's address under `contentUrl` (`null`
/// where it has none), and the card's JSON object under `content`.
pub proof fn lemma_card_attachment_json(attachment: CardAttachmentView)
    ensures
        attachment.json().get("contentType"@) == Some(JsonValue::Text(card_content_type())),
        attachment.json().get("contentUrl"@) == Some(
            match attachment.content_url {
                Some(url) => JsonValue::Text(url),
                None => JsonValue::Null,
            },
        ),
        attachment.json().get("content"@) == Some(attachment.content.json()),
{
    reveal_strlit("contentType");
    reveal_strlit("contentUrl");
    reveal_strlit("content");
    reveal_with_fuel(lookup, 4);
    assert("contentType"@.len() == 11);
    assert("contentUrl"@.len() == 10);
    assert("content"@.len() == 7);
    let members = attachment.json()->Object_0;
    assert(members.drop_first()[0] == members[1]);
    assert(members.drop_first().drop_first()[0] == members[2]);
}

/// The tag that every message carries under `type`.
pub open spec fn message_type() -> Seq<char> {
    "message"@
}

/// The payload that carries cards to the webhook.
#[derive(Debug, PartialEq, Eq)]
pub struct Message {
    attachments: Vec<CardAttachment>,
}

/// A message as a mathematical value.
pub struct MessageView {
    pub attachments: Seq<CardAttachmentView>,
}

impl View for Message {
    type V = MessageView;

    closed spec fn view(&self) -> MessageView {
        MessageView {
            attachments: self.attachments@.map_values(|attachment: CardAttachment| attachment@),
        }
    }
}

impl MessageView {
    /// The message's JSON object: the tag, which is the same for every
    /// message, and the attachments, each as its JSON object, in their order.
    pub open spec fn json(self) -> JsonValue {
        JsonValue::Object(
            seq![
                MemberValue { key: "type"@, value: JsonValue::Text(message_type()) },
                MemberValue {
                    key: "attachments"@,
                    value: JsonValue::Array(
                        self.attachments.map_values(
                            |attachment: CardAttachmentView| attachment.json(),
                        ),
                    ),
                },
            ],
        )
    }

    /// The message's compact JSON text, as it is sent.
    pub open spec fn text(self) -> Seq<char> {
        self.json().text()
    }
}

impl Message {
    /// The message that carries the given attachments, in the given order.
    pub fn attachments(attachments: Vec<CardAttachment>) -> (message: Message)
        ensures
            message@.attachments == attachments@.map_values(
                |attachment: CardAttachment| attachment@,
            ),
    {
        Message { attachments }
    }

    /// The message that carries the given attachment and no other.
    pub fn attachment(attachment: CardAttachment) -> (message: Message)
        ensures
            message@.attachments == seq![attachment@],
    {
        let mut attachments: Vec<CardAttachment> = Vec::new();
        attachments.push(attachment);
        let message = Message::attachments(attachments);
        assert(message@.attachments =~= seq![attachment@]);
        message
    }

    /// The attachments that the message carries, in their order.
    pub fn carried(&self) -> (attachments: &Vec<CardAttachment>)
        ensures
            attachments@.map_values(|attachment: CardAttachment| attachment@)
                == self@.attachments,
    {
        &self.attachments
    }

    /// The message's JSON object.
    pub fn to_json(&self) -> (json: Json)
        ensures
            json@ == self@.json(),
    {
        let mut items: Vec<Json> = Vec::new();
        let mut i: usize = 0;
        while i < self.attachments.len()
            invariant
                i <= self.attachments.len(),
                items.len() == i,
                forall|k: int| 0 <= k < i ==> items[k]@ == self.attachments[k]@.json(),
            decreases self.attachments.len() - i,
        {
            items.push(self.attachments[i].to_json());
            i += 1;
        }
        assert(item_values(items@) =~= self@.attachments.map_values(
            |attachment: CardAttachmentView| attachment.json(),
        ));
        let mut members: Vec<Member> = Vec::new();
        members.push(Member::new("type", Json::text("message")));
        members.push(Member::new("attachments", Json::array(items)));
        assert(member_values(members@) =~= self@.json()->Object_0);
        Json::object(members)
    }

    /// The message's compact JSON text, as it is sent.
    pub fn to_text(&self) -> (text: String)
        ensures
            text@ == self@.text(),
    {
        self.to_json().to_text()
    }
}

/// A message's JSON object carries the tag `message` under `type`, and holds
/// under `attachments` an array with one item for each attachment, the
/// attachments' JSON objects in the order of the attachments.
pub proof fn lemma_message_json(message: MessageView)
    ensures
        message.json().get("type"@) == Some(JsonValue::Text(message_type())),
        message.json().get("attachments"@) matches Some(JsonValue::Array(items)) && items.len()
            == message.attachments.len() && forall|i: int|
            0 <= i < message.attachments.len() ==> #[trigger] items[i]
                == message.attachments[i].json(),
{
    reveal_strlit("type");
    reveal_strlit("attachments");
    reveal_with_fuel(lookup, 3);
    assert("type"@.len() == 4);
    assert("attachments"@.len() == 11);
    let members = message.json()->Object_0;
    assert(members.drop_first()[0] == members[1]);
}

/// What is sent is determined by the value alone: two messages that stand
/// for the same value have the same JSON document and the same text, so
/// serializing a value again gives the same characters.
pub proof fn lemma_same_message_same_text(first: Message, second: Message)
    requires
        first@ == second@,
    ensures
        first@.json() == second@.json(),
        first@.text() == second@.text(),
{
}

/// The payload that carries plain text to the webhook, without a card.
#[derive(Debug, PartialEq, Eq)]
pub struct BasicMessage {
    text: String,
}

/// A plain-text message as a mathematical value.
pub struct BasicMessageView {
    pub text: Seq<char>,
}

impl View for BasicMessage {
    type V = BasicMessageView;

    closed spec fn view(&self) -> BasicMessageView {
        BasicMessageView { text: self.text@ }
    }
}

impl BasicMessageView {
    /// The message's JSON object: the text under `text`, and nothing else.
    pub open spec fn json(self) -> JsonValue {
        JsonValue::Object(seq![MemberValue { key: "text"@, value: JsonValue::Text(self.text) }])
    }

    /// The message's compact JSON text, as it is sent.
    pub open spec fn text(self) -> Seq<char> {
        self.json().text()
    }
}

impl BasicMessage {
    /// The message with the given text.
    pub fn text(text: &str) -> (message: BasicMessage)
        ensures
            message@ == (BasicMessageView { text: text@ }),
    {
        BasicMessage { text: text.to_owned() }
    }

    /// The message's text.
    pub fn content(&self) -> (text: &str)
        ensures
            text@ == self@.text,
    {
        self.text.as_str()
    }

    /// The message's JSON object.
    pub fn to_json(&self) -> (json: Json)
        ensures
            json@ == self@.json(),
    {
        let mut members: Vec<Member> = Vec::new();
        members.push(Member::new("text", Json::text(self.text.as_str())));
        assert(member_values(members@) =~= self@.json()->Object_0);
        Json::object(members)
    }

    /// The message's compact JSON text, as it is sent.
    pub fn to_text(&self) -> (text: String)
        ensures
            text@ == self@.text(),
    {
        self.to_json().to_text()
    }
}

/// Two plain-text messages with the same text have the same JSON document
/// and the same text on the wire.
pub proof fn lemma_same_plain_text_same_text(first: BasicMessage, second: BasicMessage)
    requires
        first@ == second@,
    ensures
        first@.json() == second@.json(),
        first@.text() == second@.text(),
{
}

/// A plain-text message is sent as `{"text":` followed by the text as a
/// JSON string and `}`: one member, under `text`, and none under any other
/// key.
pub proof fn lemma_basic_message_text(message: BasicMessageView)
    ensures
        message.text() == "{\"text\":"@ + quoted(message.text) + "}"@,
        message.json().get("text"@) == Some(JsonValue::Text(message.text)),
        forall|key: Seq<char>| key != "text"@ ==> !#[trigger] message.json().has_key(key),
{
    reveal_strlit("text");
    reveal_strlit("{\"text\":");
    reveal_strlit("}");
    reveal_with_fuel(lookup, 2);
    lemma_single_member_text("text"@, JsonValue::Text(message.text));
    lemma_escaped_plain("text"@);
    assert(quoted("text"@) =~= seq!['"', 't', 'e', 'x', 't', '"']);
    assert(seq!['{'] + quoted("text"@) + seq![':'] =~= "{\"text\":"@);
    assert(message.text() =~= "{\"text\":"@ + quoted(message.text) + "}"@);
}

} // verus!
