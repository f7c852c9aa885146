//! The text block: one line or paragraph of styled text, its JSON object, and
//! how it is read back from one.
//!
//! On the wire a block is an object that always holds `text`. Each styling
//! attribute is written under its key only where it is set: an attribute
//! that is unset leaves no member behind, not even one that holds `null`.
//! The members stand in the order of their keys.

use crate::json::{
    lemma_lookup_concat, lookup, member_values, Json, JsonValue, Member, MemberValue,
};
use crate::style::{Color, Font, FontSize, FontWeight, HorizontalAlignment, Spelling, TextBlockStyle};
use vstd::prelude::*;

verus! {

/// The member under the given key, where there is a value to put there, and
/// no member where there is none.
pub open spec fn optional_member(key: Seq<char>, value: Option<JsonValue>) -> Seq<MemberValue> {
    match value {
        Some(value) => seq![MemberValue { key, value }],
        None => Seq::empty(),
    }
}

/// An optional styling option as the JSON string of its spelling.
pub open spec fn spelled<T: Spelling>(option: Option<T>) -> Option<JsonValue> {
    match option {
        Some(variant) => Some(JsonValue::Text(variant.spelling())),
        None => None,
    }
}

/// An optional flag as a JSON boolean.
pub open spec fn flagged(option: Option<bool>) -> Option<JsonValue> {
    match option {
        Some(flag) => Some(JsonValue::Bool(flag)),
        None => None,
    }
}

/// An optional count as a JSON number.
pub open spec fn counted(option: Option<i32>) -> Option<JsonValue> {
    match option {
        Some(count) => Some(JsonValue::Number(count as int)),
        None => None,
    }
}

/// Reads an optional styling option from what an object holds under its
/// key: no member or `null` is an absent option, a string that spells a
/// variant is that variant, and anything else is refused (the outer `None`).
pub open spec fn read_spelling<T: Spelling>(found: Option<JsonValue>) -> Option<Option<T>> {
    match found {
        None => Some(None),
        Some(JsonValue::Null) => Some(None),
        Some(JsonValue::Text(name)) => match T::parse(name) {
            Some(variant) => Some(Some(variant)),
            None => None,
        },
        Some(_) => None,
    }
}

/// Reads an optional flag: no member or `null` is an absent flag, a boolean
/// is that flag, and anything else is refused (the outer `None`).
pub open spec fn read_flag(found: Option<JsonValue>) -> Option<Option<bool>> {
    match found {
        None => Some(None),
        Some(JsonValue::Null) => Some(None),
        Some(JsonValue::Bool(flag)) => Some(Some(flag)),
        Some(_) => None,
    }
}

/// Reads an optional count: no member or `null` is an absent count, a number
/// that fits in 32 bits is that count, and anything else is refused (the
/// outer `None`).
pub open spec fn read_count(found: Option<JsonValue>) -> Option<Option<i32>> {
    match found {
        None => Some(None),
        Some(JsonValue::Null) => Some(None),
        Some(JsonValue::Number(n)) => if i32::MIN <= n <= i32::MAX {
            Some(Some(n as i32))
        } else {
            None
        },
        Some(_) => None,
    }
}

/// One line or paragraph of styled text.
#[derive(Debug, PartialEq, Eq)]
pub struct TextBlock {
    text: String,
    color: Option<Color>,
    font_type: Option<Font>,
    horizontal_alignment: Option<HorizontalAlignment>,
    is_subtle: Option<bool>,
    max_lines: Option<i32>,
    size: Option<FontSize>,
    weight: Option<FontWeight>,
    wrap: Option<bool>,
    text_block_style: Option<TextBlockStyle>,
}

/// A text block as a mathematical value: its text, and each styling
/// attribute as present or absent.
pub struct TextBlockView {
    pub text: Seq<char>,
    pub color: Option<Color>,
    pub font_type: Option<Font>,
    pub horizontal_alignment: Option<HorizontalAlignment>,
    pub is_subtle: Option<bool>,
    pub max_lines: Option<i32>,
    pub size: Option<FontSize>,
    pub weight: Option<FontWeight>,
    pub wrap: Option<bool>,
    pub text_block_style: Option<TextBlockStyle>,
}

impl TextBlockView {
    /// The block with the given text and no styling attribute.
    pub open spec fn plain(text: Seq<char>) -> TextBlockView {
        TextBlockView {
            text,
            color: None,
            font_type: None,
            horizontal_alignment: None,
            is_subtle: None,
            max_lines: None,
            size: None,
            weight: None,
            wrap: None,
            text_block_style: None,
        }
    }

    /// The members of the block's JSON object: `text` always, every other
    /// attribute only where it is present, in the order of their keys.
    pub open spec fn members(self) -> Seq<MemberValue> {
        optional_member("color"@, spelled(self.color)) + optional_member(
            "fontType"@,
            spelled(self.font_type),
        ) + optional_member("horizontalAlignment"@, spelled(self.horizontal_alignment))
            + optional_member("isSubtle"@, flagged(self.is_subtle)) + optional_member(
            "maxLines"@,
            counted(self.max_lines),
        ) + optional_member("size"@, spelled(self.size)) + seq![
            MemberValue { key: "text"@, value: JsonValue::Text(self.text) },
        ] + optional_member("textBlockStyle"@, spelled(self.text_block_style)) + optional_member(
            "weight"@,
            spelled(self.weight),
        ) + optional_member("wrap"@, flagged(self.wrap))
    }

    /// The block's JSON object.
    pub open spec fn json(self) -> JsonValue {
        JsonValue::Object(self.members())
    }

    /// Reads a block back from a JSON document. The document must be an
    /// object that holds a string under `text`; each styling attribute is
    /// read from the member under its key; members under other keys are
    /// passed over. `None` where the document is refused.
    pub open spec fn read(json: JsonValue) -> Option<TextBlockView> {
        match json.get("text"@) {
            Some(JsonValue::Text(text)) => {
                let color = read_spelling::<Color>(json.get("color"@));
                let font_type = read_spelling::<Font>(json.get("fontType"@));
                let horizontal_alignment = read_spelling::<HorizontalAlignment>(
                    json.get("horizontalAlignment"@),
                );
                let is_subtle = read_flag(json.get("isSubtle"@));
                let max_lines = read_count(json.get("maxLines"@));
                let size = read_spelling::<FontSize>(json.get("size"@));
                let weight = read_spelling::<FontWeight>(json.get("weight"@));
                let wrap = read_flag(json.get("wrap"@));
                let text_block_style = read_spelling::<TextBlockStyle>(
                    json.get("textBlockStyle"@),
                );
                if color is Some && font_type is Some && horizontal_alignment is Some
                    && is_subtle is Some && max_lines is Some && size is Some && weight is Some
                    && wrap is Some && text_block_style is Some {
                    Some(
                        TextBlockView {
                            text,
                            color: color->0,
                            font_type: font_type->0,
                            horizontal_alignment: horizontal_alignment->0,
                            is_subtle: is_subtle->0,
                            max_lines: max_lines->0,
                            size: size->0,
                            weight: weight->0,
                            wrap: wrap->0,
                            text_block_style: text_block_style->0,
                        },
                    )
                } else {
                    None
                }
            },
            _ => None,
        }
    }
}

impl View for TextBlock {
    type V = TextBlockView;

    closed spec fn view(&self) -> TextBlockView {
        TextBlockView {
            text: self.text@,
            color: self.color,
            font_type: self.font_type,
            horizontal_alignment: self.horizontal_alignment,
            is_subtle: self.is_subtle,
            max_lines: self.max_lines,
            size: self.size,
            weight: self.weight,
            wrap: self.wrap,
            text_block_style: self.text_block_style,
        }
    }
}

impl TextBlock {
    /// The block with the given text and no styling attribute.
    pub fn with_text(text: &str) -> (block: TextBlock)
        ensures
            block@ == TextBlockView::plain(text@),
    {
        TextBlock {
            text: text.to_owned(),
            color: None,
            font_type: None,
            horizontal_alignment: None,
            is_subtle: None,
            max_lines: None,
            size: None,
            weight: None,
            wrap: None,
            text_block_style: None,
        }
    }

    /// The members of the block's JSON object.
    pub(crate) fn members(&self) -> (members: Vec<Member>)
        ensures
            member_values(members@) == self@.members(),
    {
        let mut members: Vec<Member> = Vec::new();
        assert(member_values(members@) =~= Seq::empty());
        push_spelled(&mut members, "color", &self.color);
        push_spelled(&mut members, "fontType", &self.font_type);
        push_spelled(&mut members, "horizontalAlignment", &self.horizontal_alignment);
        push_flagged(&mut members, "isSubtle", self.is_subtle);
        push_counted(&mut members, "maxLines", self.max_lines);
        push_spelled(&mut members, "size", &self.size);
        push_optional(&mut members, "text", Some(Json::text(self.text.as_str())));
        push_spelled(&mut members, "textBlockStyle", &self.text_block_style);
        push_spelled(&mut members, "weight", &self.weight);
        push_flagged(&mut members, "wrap", self.wrap);
        assert(member_values(members@) =~= self@.members());
        members
    }

    /// The block's JSON object: `text` always, every other attribute only
    /// where it is present.
    pub fn to_json(&self) -> (json: Json)
        ensures
            json@ == self@.json(),
    {
        Json::object(self.members())
    }

    /// Reads a block back from a JSON document; `None` where the document is
    /// refused.
    pub fn from_json(json: &Json) -> (block: Option<TextBlock>)
        ensures
            match block {
                Some(block) => TextBlockView::read(json@) == Some(block@),
                None => TextBlockView::read(json@) is None,
            },
    {
        let text = match json.get("text") {
            Some(Json::Text(text)) => text.clone(),
            _ => { return None; },
        };
        let color = take_spelling::<Color>(json.get("color"));
        let font_type = take_spelling::<Font>(json.get("fontType"));
        let horizontal_alignment = take_spelling::<HorizontalAlignment>(
            json.get("horizontalAlignment"),
        );
        let is_subtle = take_flag(json.get("isSubtle"));
        let max_lines = take_count(json.get("maxLines"));
        let size = take_spelling::<FontSize>(json.get("size"));
        let weight = take_spelling::<FontWeight>(json.get("weight"));
        let wrap = take_flag(json.get("wrap"));
        let text_block_style = take_spelling::<TextBlockStyle>(json.get("textBlockStyle"));
        match (
            color,
            font_type,
            horizontal_alignment,
            is_subtle,
            max_lines,
            size,
            weight,
            wrap,
            text_block_style,
        ) {
            (
                Some(color),
                Some(font_type),
                Some(horizontal_alignment),
                Some(is_subtle),
                Some(max_lines),
                Some(size),
                Some(weight),
                Some(wrap),
                Some(text_block_style),
            ) => Some(
                TextBlock {
                    text,
                    color,
                    font_type,
                    horizontal_alignment,
                    is_subtle,
                    max_lines,
                    size,
                    weight,
                    wrap,
                    text_block_style,
                },
            ),
            _ => None,
        }
    }

    /// The block's text.
    pub fn text(&self) -> (text: &str)
        ensures
            text@ == self@.text,
    {
        self.text.as_str()
    }

    /// The block's colour, where it is set.
    pub fn color(&self) -> (value: Option<Color>)
        ensures
            value == self@.color,
    {
        self.color
    }

    /// The same block with the colour set to the given value.
    pub fn with_color(self, color: Color) -> (block: TextBlock)
        ensures
            block@ == (TextBlockView { color: Some(color), ..self@ }),
    {
        let mut block = self;
        block.color = Some(color);
        block
    }

    /// The block's typeface, where it is set.
    pub fn font_type(&self) -> (value: Option<Font>)
        ensures
            value == self@.font_type,
    {
        self.font_type
    }

    /// The same block with the typeface set to the given value.
    pub fn with_font_type(self, font: Font) -> (block: TextBlock)
        ensures
            block@ == (TextBlockView { font_type: Some(font), ..self@ }),
    {
        let mut block = self;
        block.font_type = Some(font);
        block
    }

    /// The block's alignment, where it is set.
    pub fn horizontal_alignment(&self) -> (value: Option<HorizontalAlignment>)
        ensures
            value == self@.horizontal_alignment,
    {
        self.horizontal_alignment
    }

    /// The same block with the alignment set to the given value.
    pub fn with_horizontal_alignment(self, alignment: HorizontalAlignment) -> (block: TextBlock)
        ensures
            block@ == (TextBlockView { horizontal_alignment: Some(alignment), ..self@ }),
    {
        let mut block = self;
        block.horizontal_alignment = Some(alignment);
        block
    }

    /// The block's subtle flag, where it is set.
    pub fn is_subtle(&self) -> (value: Option<bool>)
        ensures
            value == self@.is_subtle,
    {
        self.is_subtle
    }

    /// The same block with the subtle flag set to the given value.
    pub fn with_is_subtle(self, is_subtle: bool) -> (block: TextBlock)
        ensures
            block@ == (TextBlockView { is_subtle: Some(is_subtle), ..self@ }),
    {
        let mut block = self;
        block.is_subtle = Some(is_subtle);
        block
    }

    /// The block's greatest number of lines, where it is set.
    pub fn max_lines(&self) -> (value: Option<i32>)
        ensures
            value == self@.max_lines,
    {
        self.max_lines
    }

    /// The same block with the greatest number of lines set to the given value.
    pub fn with_max_lines(self, max_lines: i32) -> (block: TextBlock)
        ensures
            block@ == (TextBlockView { max_lines: Some(max_lines), ..self@ }),
    {
        let mut block = self;
        block.max_lines = Some(max_lines);
        block
    }

    /// The block's size, where it is set.
    pub fn size(&self) -> (value: Option<FontSize>)
        ensures
            value == self@.size,
    {
        self.size
    }

    /// The same block with the size set to the given value.
    pub fn with_size(self, size: FontSize) -> (block: TextBlock)
        ensures
            block@ == (TextBlockView { size: Some(size), ..self@ }),
    {
        let mut block = self;
        block.size = Some(size);
        block
    }

    /// The block's weight, where it is set.
    pub fn weight(&self) -> (value: Option<FontWeight>)
        ensures
            value == self@.weight,
    {
        self.weight
    }

    /// The same block with the weight set to the given value.
    pub fn with_weight(self, weight: FontWeight) -> (block: TextBlock)
        ensures
            block@ == (TextBlockView { weight: Some(weight), ..self@ }),
    {
        let mut block = self;
        block.weight = Some(weight);
        block
    }

    /// The block's wrap flag, where it is set.
    pub fn wrap(&self) -> (value: Option<bool>)
        ensures
            value == self@.wrap,
    {
        self.wrap
    }

    /// The same block with the wrap flag set to the given value.
    pub fn with_wrap(self, wrap: bool) -> (block: TextBlock)
        ensures
            block@ == (TextBlockView { wrap: Some(wrap), ..self@ }),
    {
        let mut block = self;
        block.wrap = Some(wrap);
        block
    }

    /// The block's style, where it is set.
    pub fn text_block_style(&self) -> (value: Option<TextBlockStyle>)
        ensures
            value == self@.text_block_style,
    {
        self.text_block_style
    }

    /// The same block with the style set to the given value.
    pub fn with_text_block_style(self, text_block_style: TextBlockStyle) -> (block: TextBlock)
        ensures
            block@ == (TextBlockView { text_block_style: Some(text_block_style), ..self@ }),
    {
        let mut block = self;
        block.text_block_style = Some(text_block_style);
        block
    }
}

/// Appends the member under the given key where a value is given, and
/// nothing where none is.
fn push_optional(members: &mut Vec<Member>, key: &str, value: Option<Json>)
    ensures
        member_values(final(members)@) == member_values(old(members)@) + optional_member(
            key@,
            match value {
                Some(json) => Some(json@),
                None => None,
            },
        ),
{
    match value {
        Some(json) => {
            members.push(Member::new(key, json));
            assert(member_values(members@) =~= member_values(old(members)@) + optional_member(
                key@,
                Some(json@),
            ));
        },
        None => {
            assert(member_values(members@) =~= member_values(old(members)@) + optional_member(
                key@,
                None,
            ));
        },
    }
}

/// Appends a styling option under the given key, where it is present.
fn push_spelled<T: Spelling>(members: &mut Vec<Member>, key: &str, option: &Option<T>)
    ensures
        member_values(final(members)@) == member_values(old(members)@) + optional_member(
            key@,
            spelled(*option),
        ),
{
    let value = match option {
        Some(variant) => Some(Json::text(variant.as_str())),
        None => None,
    };
    push_optional(members, key, value);
}

/// Appends a flag under the given key, where it is present.
fn push_flagged(members: &mut Vec<Member>, key: &str, option: Option<bool>)
    ensures
        member_values(final(members)@) == member_values(old(members)@) + optional_member(
            key@,
            flagged(option),
        ),
{
    let value = match option {
        Some(flag) => Some(Json::Bool(flag)),
        None => None,
    };
    push_optional(members, key, value);
}

/// Appends a count under the given key, where it is present.
fn push_counted(members: &mut Vec<Member>, key: &str, option: Option<i32>)
    ensures
        member_values(final(members)@) == member_values(old(members)@) + optional_member(
            key@,
            counted(option),
        ),
{
    let value = match option {
        Some(count) => Some(Json::Number(count as i64)),
        None => None,
    };
    push_optional(members, key, value);
}

/// Reads an optional styling option from what an object holds under its key.
fn take_spelling<T: Spelling>(found: Option<&Json>) -> (read: Option<Option<T>>)
    ensures
        read == read_spelling::<T>(
            match found {
                Some(json) => Some(json@),
                None => None,
            },
        ),
{
    match found {
        None => Some(None),
        Some(Json::Null) => Some(None),
        Some(Json::Text(name)) => match T::from_name(name.as_str()) {
            Some(variant) => Some(Some(variant)),
            None => None,
        },
        Some(_) => None,
    }
}

/// Reads an optional flag from what an object holds under its key.
fn take_flag(found: Option<&Json>) -> (read: Option<Option<bool>>)
    ensures
        read == read_flag(
            match found {
                Some(json) => Some(json@),
                None => None,
            },
        ),
{
    match found {
        None => Some(None),
        Some(Json::Null) => Some(None),
        Some(Json::Bool(flag)) => Some(Some(*flag)),
        Some(_) => None,
    }
}

/// Reads an optional count from what an object holds under its key.
fn take_count(found: Option<&Json>) -> (read: Option<Option<i32>>)
    ensures
        read == read_count(
            match found {
                Some(json) => Some(json@),
                None => None,
            },
        ),
{
    match found {
        None => Some(None),
        Some(Json::Null) => Some(None),
        Some(Json::Number(n)) => if -2147483648 <= *n && *n <= 2147483647 {
            Some(Some(*n as i32))
        } else {
            None
        },
        Some(_) => None,
    }
}

/// What is found under a key in an optional member: its value where the
/// keys agree, nothing where they differ.
pub proof fn lemma_lookup_optional(key: Seq<char>, value: Option<JsonValue>, wanted: Seq<char>)
    ensures
        lookup(optional_member(key, value), wanted) == if key == wanted {
            value
        } else {
            None
        },
{
    reveal_with_fuel(lookup, 2);
}

/// The lengths of the ten keys of a text block's JSON object and, where two
/// are as long as one another, their first characters: by these the keys
/// differ from one another.
pub proof fn lemma_text_block_keys()
    ensures
        "color"@.len() == 5 && "color"@[0] == 'c',
        "fontType"@.len() == 8 && "fontType"@[0] == 'f',
        "horizontalAlignment"@.len() == 19,
        "isSubtle"@.len() == 8 && "isSubtle"@[0] == 'i',
        "maxLines"@.len() == 8 && "maxLines"@[0] == 'm',
        "size"@.len() == 4 && "size"@[0] == 's',
        "text"@.len() == 4 && "text"@[0] == 't',
        "textBlockStyle"@.len() == 14,
        "weight"@.len() == 6,
        "wrap"@.len() == 4 && "wrap"@[0] == 'w',
{
    reveal_strlit("color");
    reveal_strlit("fontType");
    reveal_strlit("horizontalAlignment");
    reveal_strlit("isSubtle");
    reveal_strlit("maxLines");
    reveal_strlit("size");
    reveal_strlit("text");
    reveal_strlit("textBlockStyle");
    reveal_strlit("weight");
    reveal_strlit("wrap");
}

/// What a text block's members hold under any key: under each of the ten
/// keys of the schema the attribute, where it is present, and nothing under
/// any other key.
pub proof fn lemma_text_block_lookup(block: TextBlockView, key: Seq<char>)
    ensures
        lookup(block.members(), key) == if key == "color"@ {
            spelled(block.color)
        } else if key == "fontType"@ {
            spelled(block.font_type)
        } else if key == "horizontalAlignment"@ {
            spelled(block.horizontal_alignment)
        } else if key == "isSubtle"@ {
            flagged(block.is_subtle)
        } else if key == "maxLines"@ {
            counted(block.max_lines)
        } else if key == "size"@ {
            spelled(block.size)
        } else if key == "text"@ {
            Some(JsonValue::Text(block.text))
        } else if key == "textBlockStyle"@ {
            spelled(block.text_block_style)
        } else if key == "weight"@ {
            spelled(block.weight)
        } else if key == "wrap"@ {
            flagged(block.wrap)
        } else {
            None
        },
{
    lemma_text_block_keys();
    let m0 = optional_member("color"@, spelled(block.color));
    let m1 = optional_member("fontType"@, spelled(block.font_type));
    let m2 = optional_member("horizontalAlignment"@, spelled(block.horizontal_alignment));
    let m3 = optional_member("isSubtle"@, flagged(block.is_subtle));
    let m4 = optional_member("maxLines"@, counted(block.max_lines));
    let m5 = optional_member("size"@, spelled(block.size));
    let m6 = optional_member("text"@, Some(JsonValue::Text(block.text)));
    let m7 = optional_member("textBlockStyle"@, spelled(block.text_block_style));
    let m8 = optional_member("weight"@, spelled(block.weight));
    let m9 = optional_member("wrap"@, flagged(block.wrap));
    lemma_lookup_optional("color"@, spelled(block.color), key);
    lemma_lookup_optional("fontType"@, spelled(block.font_type), key);
    lemma_lookup_optional("horizontalAlignment"@, spelled(block.horizontal_alignment), key);
    lemma_lookup_optional("isSubtle"@, flagged(block.is_subtle), key);
    lemma_lookup_optional("maxLines"@, counted(block.max_lines), key);
    lemma_lookup_optional("size"@, spelled(block.size), key);
    lemma_lookup_optional("text"@, Some(JsonValue::Text(block.text)), key);
    lemma_lookup_optional("textBlockStyle"@, spelled(block.text_block_style), key);
    lemma_lookup_optional("weight"@, spelled(block.weight), key);
    lemma_lookup_optional("wrap"@, flagged(block.wrap), key);
    lemma_lookup_concat(m0, m1, key);
    lemma_lookup_concat(m0 + m1, m2, key);
    lemma_lookup_concat(m0 + m1 + m2, m3, key);
    lemma_lookup_concat(m0 + m1 + m2 + m3, m4, key);
    lemma_lookup_concat(m0 + m1 + m2 + m3 + m4, m5, key);
    lemma_lookup_concat(m0 + m1 + m2 + m3 + m4 + m5, m6, key);
    lemma_lookup_concat(m0 + m1 + m2 + m3 + m4 + m5 + m6, m7, key);
    lemma_lookup_concat(m0 + m1 + m2 + m3 + m4 + m5 + m6 + m7, m8, key);
    lemma_lookup_concat(m0 + m1 + m2 + m3 + m4 + m5 + m6 + m7 + m8, m9, key);
    assert(block.members() == m0 + m1 + m2 + m3 + m4 + m5 + m6 + m7 + m8 + m9);
}

/// A text block's JSON object holds its text under `text`, each styling
/// attribute that is present under its key (an option under its spelling),
/// no member for an attribute that is absent, and no member under any other
/// key.
pub proof fn lemma_text_block_json(block: TextBlockView)
    ensures
        block.json().get("text"@) == Some(JsonValue::Text(block.text)),
        block.json().get("color"@) == spelled(block.color),
        block.json().get("fontType"@) == spelled(block.font_type),
        block.json().get("horizontalAlignment"@) == spelled(block.horizontal_alignment),
        block.json().get("isSubtle"@) == flagged(block.is_subtle),
        block.json().get("maxLines"@) == counted(block.max_lines),
        block.json().get("size"@) == spelled(block.size),
        block.json().get("weight"@) == spelled(block.weight),
        block.json().get("wrap"@) == flagged(block.wrap),
        block.json().get("textBlockStyle"@) == spelled(block.text_block_style),
        forall|key: Seq<char>|
            key != "text"@ && key != "color"@ && key != "fontType"@ && key
                != "horizontalAlignment"@ && key != "isSubtle"@ && key != "maxLines"@ && key
                != "size"@ && key != "weight"@ && key != "wrap"@ && key != "textBlockStyle"@
                ==> !#[trigger] block.json().has_key(key),
{
    lemma_text_block_keys();
    lemma_text_block_lookup(block, "text"@);
    lemma_text_block_lookup(block, "color"@);
    lemma_text_block_lookup(block, "fontType"@);
    lemma_text_block_lookup(block, "horizontalAlignment"@);
    lemma_text_block_lookup(block, "isSubtle"@);
    lemma_text_block_lookup(block, "maxLines"@);
    lemma_text_block_lookup(block, "size"@);
    lemma_text_block_lookup(block, "weight"@);
    lemma_text_block_lookup(block, "wrap"@);
    lemma_text_block_lookup(block, "textBlockStyle"@);
    assert forall|key: Seq<char>|
        key != "text"@ && key != "color"@ && key != "fontType"@ && key != "horizontalAlignment"@
            && key != "isSubtle"@ && key != "maxLines"@ && key != "size"@ && key != "weight"@
            && key != "wrap"@ && key != "textBlockStyle"@ implies !#[trigger] block.json().has_key(
        key,
    ) by {
        lemma_text_block_lookup(block, key);
    }
}

/// An attribute that is unset leaves no trace in the block's JSON object:
/// there is no member under its key, not even one that holds `null`.
pub proof fn lemma_unset_attribute_is_absent(block: TextBlockView)
    ensures
        block.color is None ==> !block.json().has_key("color"@),
        block.font_type is None ==> !block.json().has_key("fontType"@),
        block.horizontal_alignment is None ==> !block.json().has_key("horizontalAlignment"@),
        block.is_subtle is None ==> !block.json().has_key("isSubtle"@),
        block.max_lines is None ==> !block.json().has_key("maxLines"@),
        block.size is None ==> !block.json().has_key("size"@),
        block.weight is None ==> !block.json().has_key("weight"@),
        block.wrap is None ==> !block.json().has_key("wrap"@),
        block.text_block_style is None ==> !block.json().has_key("textBlockStyle"@),
{
    lemma_text_block_json(block);
}

/// A styling option that was written under its spelling is read back as
/// itself, and an absent one as absent.
pub proof fn lemma_read_spelled<T: Spelling>(option: Option<T>)
    ensures
        read_spelling::<T>(spelled(option)) == Some(option),
{
    match option {
        Some(variant) => {
            variant.lemma_spelling_round_trip(variant.spelling());
        },
        None => {},
    }
}

/// Reading a text block's JSON object gives the block back.
pub proof fn lemma_text_block_round_trip(block: TextBlockView)
    ensures
        TextBlockView::read(block.json()) == Some(block),
{
    lemma_text_block_json(block);
    lemma_read_spelled(block.color);
    lemma_read_spelled(block.font_type);
    lemma_read_spelled(block.horizontal_alignment);
    lemma_read_spelled(block.size);
    lemma_read_spelled(block.weight);
    lemma_read_spelled(block.text_block_style);
}

} // verus!
