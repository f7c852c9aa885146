//! The closed sets of styling options of a text block, each with its fixed
//! spelling on the wire.

use vstd::prelude::*;

verus! {

/// A closed enumeration whose variants are written on the wire under fixed
/// names.
pub trait Spelling: Sized {
    /// The name under which the variant is written.
    spec fn spelling(self) -> Seq<char>;

    /// The variant that is written under the given name, if there is one.
    spec fn parse(name: Seq<char>) -> Option<Self>;

    /// The name under which the variant is written.
    fn as_str(&self) -> (name: &'static str)
        ensures
            name@ == self.spelling(),
    ;

    /// Reads a variant back from its name; any other text is refused.
    fn from_name(name: &str) -> (found: Option<Self>)
        ensures
            found == Self::parse(name@),
    ;

    /// Every variant is read back from its own name, and a name is read as
    /// no variant but the one that is written under it.
    proof fn lemma_spelling_round_trip(self, name: Seq<char>)
        ensures
            Self::parse(self.spelling()) == Some(self),
            Self::parse(name) == Some(self) ==> name == self.spelling(),
    ;
}

/// The colour of a text block's text.
#[derive(Clone, Copy, Debug, PartialEq, Eq, Structural)]
pub enum Color {
    Default,
    Dark,
    Light,
    Accent,
    Good,
    Warning,
    Attention,
}

impl Spelling for Color {
    open spec fn spelling(self) -> Seq<char> {
        match self {
            Color::Default => "default"@,
            Color::Dark => "dark"@,
            Color::Light => "light"@,
            Color::Accent => "accent"@,
            Color::Good => "good"@,
            Color::Warning => "warning"@,
            Color::Attention => "attention"@,
        }
    }

    open spec fn parse(name: Seq<char>) -> Option<Color> {
        if name == "default"@ {
            Some(Color::Default)
        } else if name == "dark"@ {
            Some(Color::Dark)
        } else if name == "light"@ {
            Some(Color::Light)
        } else if name == "accent"@ {
            Some(Color::Accent)
        } else if name == "good"@ {
            Some(Color::Good)
        } else if name == "warning"@ {
            Some(Color::Warning)
        } else if name == "attention"@ {
            Some(Color::Attention)
        } else {
            None
        }
    }

    fn as_str(&self) -> (name: &'static str) {
        match self {
            Color::Default => "default",
            Color::Dark => "dark",
            Color::Light => "light",
            Color::Accent => "accent",
            Color::Good => "good",
            Color::Warning => "warning",
            Color::Attention => "attention",
        }
    }

    fn from_name(name: &str) -> (found: Option<Color>) {
        if *name == *"default" {
            Some(Color::Default)
        } else if *name == *"dark" {
            Some(Color::Dark)
        } else if *name == *"light" {
            Some(Color::Light)
        } else if *name == *"accent" {
            Some(Color::Accent)
        } else if *name == *"good" {
            Some(Color::Good)
        } else if *name == *"warning" {
            Some(Color::Warning)
        } else if *name == *"attention" {
            Some(Color::Attention)
        } else {
            None
        }
    }

    proof fn lemma_spelling_round_trip(self, name: Seq<char>) {
        reveal_strlit("default");
        reveal_strlit("dark");
        reveal_strlit("light");
        reveal_strlit("accent");
        reveal_strlit("good");
        reveal_strlit("warning");
        reveal_strlit("attention");
        assert("default"@.len() == 7 && "default"@[0] == 'd');
        assert("dark"@.len() == 4 && "dark"@[0] == 'd');
        assert("light"@.len() == 5 && "light"@[0] == 'l');
        assert("accent"@.len() == 6 && "accent"@[0] == 'a');
        assert("good"@.len() == 4 && "good"@[0] == 'g');
        assert("warning"@.len() == 7 && "warning"@[0] == 'w');
        assert("attention"@.len() == 9 && "attention"@[0] == 'a');
    }
}

impl Default for Color {
    /// The colour of a block that names none.
    fn default() -> (value: Color)
        ensures
            value == Color::Default,
    {
        Color::Default
    }
}

/// The size of a text block's text.
#[derive(Clone, Copy, Debug, PartialEq, Eq, Structural)]
pub enum FontSize {
    Default,
    Small,
    Medium,
    ExtraLarge,
}

impl Spelling for FontSize {
    open spec fn spelling(self) -> Seq<char> {
        match self {
            FontSize::Default => "default"@,
            FontSize::Small => "small"@,
            FontSize::Medium => "medium"@,
            FontSize::ExtraLarge => "extraLarge"@,
        }
    }

    open spec fn parse(name: Seq<char>) -> Option<FontSize> {
        if name == "default"@ {
            Some(FontSize::Default)
        } else if name == "small"@ {
            Some(FontSize::Small)
        } else if name == "medium"@ {
            Some(FontSize::Medium)
        } else if name == "extraLarge"@ {
            Some(FontSize::ExtraLarge)
        } else {
            None
        }
    }

    fn as_str(&self) -> (name: &'static str) {
        match self {
            FontSize::Default => "default",
            FontSize::Small => "small",
            FontSize::Medium => "medium",
            FontSize::ExtraLarge => "extraLarge",
        }
    }

    fn from_name(name: &str) -> (found: Option<FontSize>) {
        if *name == *"default" {
            Some(FontSize::Default)
        } else if *name == *"small" {
            Some(FontSize::Small)
        } else if *name == *"medium" {
            Some(FontSize::Medium)
        } else if *name == *"extraLarge" {
            Some(FontSize::ExtraLarge)
        } else {
            None
        }
    }

    proof fn lemma_spelling_round_trip(self, name: Seq<char>) {
        reveal_strlit("default");
        reveal_strlit("small");
        reveal_strlit("medium");
        reveal_strlit("extraLarge");
        assert("default"@.len() == 7 && "default"@[0] == 'd');
        assert("small"@.len() == 5 && "small"@[0] == 's');
        assert("medium"@.len() == 6 && "medium"@[0] == 'm');
        assert("extraLarge"@.len() == 10 && "extraLarge"@[0] == 'e');
    }
}

impl Default for FontSize {
    /// The size of a block that names none.
    fn default() -> (value: FontSize)
        ensures
            value == FontSize::Default,
    {
        FontSize::Default
    }
}

/// The weight of a text block's text.
#[derive(Clone, Copy, Debug, PartialEq, Eq, Structural)]
pub enum FontWeight {
    Default,
    Lighter,
    Darker,
}

impl Spelling for FontWeight {
    open spec fn spelling(self) -> Seq<char> {
        match self {
            FontWeight::Default => "default"@,
            FontWeight::Lighter => "lighter"@,
            FontWeight::Darker => "darker"@,
        }
    }

    open spec fn parse(name: Seq<char>) -> Option<FontWeight> {
        if name == "default"@ {
            Some(FontWeight::Default)
        } else if name == "lighter"@ {
            Some(FontWeight::Lighter)
        } else if name == "darker"@ {
            Some(FontWeight::Darker)
        } else {
            None
        }
    }

    fn as_str(&self) -> (name: &'static str) {
        match self {
            FontWeight::Default => "default",
            FontWeight::Lighter => "lighter",
            FontWeight::Darker => "darker",
        }
    }

    fn from_name(name: &str) -> (found: Option<FontWeight>) {
        if *name == *"default" {
            Some(FontWeight::Default)
        } else if *name == *"lighter" {
            Some(FontWeight::Lighter)
        } else if *name == *"darker" {
            Some(FontWeight::Darker)
        } else {
            None
        }
    }

    proof fn lemma_spelling_round_trip(self, name: Seq<char>) {
        reveal_strlit("default");
        reveal_strlit("lighter");
        reveal_strlit("darker");
        assert("default"@.len() == 7 && "default"@[0] == 'd');
        assert("lighter"@.len() == 7 && "lighter"@[0] == 'l');
        assert("darker"@.len() == 6 && "darker"@[0] == 'd');
    }
}

impl Default for FontWeight {
    /// The weight of a block that names none.
    fn default() -> (value: FontWeight)
        ensures
            value == FontWeight::Default,
    {
        FontWeight::Default
    }
}

/// The typeface of a text block's text.
#[derive(Clone, Copy, Debug, PartialEq, Eq, Structural)]
pub enum Font {
    Default,
    Monospace,
}

impl Spelling for Font {
    open spec fn spelling(self) -> Seq<char> {
        match self {
            Font::Default => "default"@,
            Font::Monospace => "monospace"@,
        }
    }

    open spec fn parse(name: Seq<char>) -> Option<Font> {
        if name == "default"@ {
            Some(Font::Default)
        } else if name == "monospace"@ {
            Some(Font::Monospace)
        } else {
            None
        }
    }

    fn as_str(&self) -> (name: &'static str) {
        match self {
            Font::Default => "default",
            Font::Monospace => "monospace",
        }
    }

    fn from_name(name: &str) -> (found: Option<Font>) {
        if *name == *"default" {
            Some(Font::Default)
        } else if *name == *"monospace" {
            Some(Font::Monospace)
        } else {
            None
        }
    }

    proof fn lemma_spelling_round_trip(self, name: Seq<char>) {
        reveal_strlit("default");
        reveal_strlit("monospace");
        assert("default"@.len() == 7 && "default"@[0] == 'd');
        assert("monospace"@.len() == 9 && "monospace"@[0] == 'm');
    }
}

impl Default for Font {
    /// The typeface of a block that names none.
    fn default() -> (value: Font)
        ensures
            value == Font::Default,
    {
        Font::Default
    }
}

/// Whether a text block is a paragraph or a heading.
#[derive(Clone, Copy, Debug, PartialEq, Eq, Structural)]
pub enum TextBlockStyle {
    Default,
    Heading,
}

impl Spelling for TextBlockStyle {
    open spec fn spelling(self) -> Seq<char> {
        match self {
            TextBlockStyle::Default => "default"@,
            TextBlockStyle::Heading => "heading"@,
        }
    }

    open spec fn parse(name: Seq<char>) -> Option<TextBlockStyle> {
        if name == "default"@ {
            Some(TextBlockStyle::Default)
        } else if name == "heading"@ {
            Some(TextBlockStyle::Heading)
        } else {
            None
        }
    }

    fn as_str(&self) -> (name: &'static str) {
        match self {
            TextBlockStyle::Default => "default",
            TextBlockStyle::Heading => "heading",
        }
    }

    fn from_name(name: &str) -> (found: Option<TextBlockStyle>) {
        if *name == *"default" {
            Some(TextBlockStyle::Default)
        } else if *name == *"heading" {
            Some(TextBlockStyle::Heading)
        } else {
            None
        }
    }

    proof fn lemma_spelling_round_trip(self, name: Seq<char>) {
        reveal_strlit("default");
        reveal_strlit("heading");
        assert("default"@.len() == 7 && "default"@[0] == 'd');
        assert("heading"@.len() == 7 && "heading"@[0] == 'h');
    }
}

impl Default for TextBlockStyle {
    /// The style of a block that names none.
    fn default() -> (value: TextBlockStyle)
        ensures
            value == TextBlockStyle::Default,
    {
        TextBlockStyle::Default
    }
}

/// Where a text block stands between the card's sides.
#[derive(Clone, Copy, Debug, PartialEq, Eq, Structural)]
pub enum HorizontalAlignment {
    Left,
    Center,
    Right,
}

impl Spelling for HorizontalAlignment {
    open spec fn spelling(self) -> Seq<char> {
        match self {
            HorizontalAlignment::Left => "left"@,
            HorizontalAlignment::Center => "center"@,
            HorizontalAlignment::Right => "right"@,
        }
    }

    open spec fn parse(name: Seq<char>) -> Option<HorizontalAlignment> {
        if name == "left"@ {
            Some(HorizontalAlignment::Left)
        } else if name == "center"@ {
            Some(HorizontalAlignment::Center)
        } else if name == "right"@ {
            Some(HorizontalAlignment::Right)
        } else {
            None
        }
    }

    fn as_str(&self) -> (name: &'static str) {
        match self {
            HorizontalAlignment::Left => "left",
            HorizontalAlignment::Center => "center",
            HorizontalAlignment::Right => "right",
        }
    }

    fn from_name(name: &str) -> (found: Option<HorizontalAlignment>) {
        if *name == *"left" {
            Some(HorizontalAlignment::Left)
        } else if *name == *"center" {
            Some(HorizontalAlignment::Center)
        } else if *name == *"right" {
            Some(HorizontalAlignment::Right)
        } else {
            None
        }
    }

    proof fn lemma_spelling_round_trip(self, name: Seq<char>) {
        reveal_strlit("left");
        reveal_strlit("center");
        reveal_strlit("right");
        assert("left"@.len() == 4 && "left"@[0] == 'l');
        assert("center"@.len() == 6 && "center"@[0] == 'c');
        assert("right"@.len() == 5 && "right"@[0] == 'r');
    }
}

impl Default for HorizontalAlignment {
    /// The alignment of a block that names none.
    fn default() -> (value: HorizontalAlignment)
        ensures
            value == HorizontalAlignment::Left,
    {
        HorizontalAlignment::Left
    }
}

} // verus!
