//! JSON documents: the mathematical model, the value that holds one, and its
//! compact text.

use vstd::prelude::*;
use vstd::string::StringExecFns;

verus! {

/// A JSON document as a mathematical value. An object keeps its members in
/// the order in which they are written.
pub enum JsonValue {
    Null,
    Bool(bool),
    Number(int),
    Text(Seq<char>),
    Array(Seq<JsonValue>),
    Object(Seq<MemberValue>),
}

/// One member of a JSON object as a mathematical value.
pub struct MemberValue {
    pub key: Seq<char>,
    pub value: JsonValue,
}

/// A JSON document. Numbers are whole and fit in 64 bits.
#[derive(Debug, PartialEq, Eq)]
pub enum Json {
    Null,
    Bool(bool),
    Number(i64),
    Text(String),
    Array(Vec<Json>),
    Object(Vec<Member>),
}

/// One member of a JSON object: a key and the value under it.
#[derive(Debug, PartialEq, Eq)]
pub struct Member {
    pub key: String,
    pub value: Json,
}

impl View for Json {
    type V = JsonValue;

    open spec fn view(&self) -> JsonValue
        decreases self,
    {
        match self {
            Json::Null => JsonValue::Null,
            Json::Bool(b) => JsonValue::Bool(*b),
            Json::Number(n) => JsonValue::Number(*n as int),
            Json::Text(s) => JsonValue::Text(s@),
            Json::Array(items) => JsonValue::Array(
                Seq::new(
                    items.len() as nat,
                    |i: int|
                        if 0 <= i < items.len() {
                            items[i].view()
                        } else {
                            JsonValue::Null
                        },
                ),
            ),
            Json::Object(members) => JsonValue::Object(
                Seq::new(
                    members.len() as nat,
                    |i: int|
                        if 0 <= i < members.len() {
                            MemberValue { key: members[i].key@, value: members[i].value.view() }
                        } else {
                            MemberValue { key: Seq::empty(), value: JsonValue::Null }
                        },
                ),
            ),
        }
    }
}

/// The members of an object as mathematical values, in their order.
pub open spec fn member_values(members: Seq<Member>) -> Seq<MemberValue> {
    Seq::new(
        members.len(),
        |i: int| MemberValue { key: members[i].key@, value: members[i].value@ },
    )
}

/// The items of an array as mathematical values, in their order.
pub open spec fn item_values(items: Seq<Json>) -> Seq<JsonValue> {
    Seq::new(items.len(), |i: int| items[i]@)
}

/// The value of the first member under the given key, if there is one.
pub open spec fn lookup(members: Seq<MemberValue>, key: Seq<char>) -> Option<JsonValue>
    decreases members.len(),
{
    if members.len() == 0 {
        None
    } else if members[0].key == key {
        Some(members[0].value)
    } else {
        lookup(members.drop_first(), key)
    }
}

/// The sixteen digits with which a control character's code is written.
pub open spec fn hex_digit(n: int) -> char
    recommends
        0 <= n < 16,
{
    "0123456789abcdef"@[n]
}

/// How one character stands inside a JSON string: the quotation mark, the
/// backslash and the characters below U+0020 are written as escapes, every
/// other character as itself.
pub open spec fn escape_char(c: char) -> Seq<char> {
    if c == '"' {
        seq!['\\', '"']
    } else if c == '\\' {
        seq!['\\', '\\']
    } else if c == '\u{08}' {
        seq!['\\', 'b']
    } else if c == '\u{09}' {
        seq!['\\', 't']
    } else if c == '\u{0A}' {
        seq!['\\', 'n']
    } else if c == '\u{0C}' {
        seq!['\\', 'f']
    } else if c == '\u{0D}' {
        seq!['\\', 'r']
    } else if (c as int) < 0x20 {
        seq!['\\', 'u', '0', '0', hex_digit((c as int) / 16), hex_digit((c as int) % 16)]
    } else {
        seq![c]
    }
}

/// The characters of a string, each as it stands inside a JSON string.
pub open spec fn escaped(s: Seq<char>) -> Seq<char>
    decreases s.len(),
{
    if s.len() == 0 {
        Seq::empty()
    } else {
        escaped(s.drop_last()) + escape_char(s.last())
    }
}

/// A string as a JSON string: escaped, between quotation marks.
pub open spec fn quoted(s: Seq<char>) -> Seq<char> {
    seq!['"'] + escaped(s) + seq!['"']
}

/// Whether a character stands for itself inside a JSON string.
pub open spec fn is_plain(c: char) -> bool {
    c != '"' && c != '\\' && (c as int) >= 0x20
}

/// A natural number in decimal, without leading zeros.
pub open spec fn digits(n: nat) -> Seq<char>
    decreases n,
{
    if n < 10 {
        seq!["0123456789"@[n as int]]
    } else {
        digits(n / 10).push("0123456789"@[(n % 10) as int])
    }
}

/// A whole number in decimal, with a minus sign where it is negative.
pub open spec fn decimal(n: int) -> Seq<char> {
    if n < 0 {
        seq!['-'] + digits((-n) as nat)
    } else {
        digits(n as nat)
    }
}

/// The given pieces in order, with a comma between neighbours.
pub open spec fn join(parts: Seq<Seq<char>>) -> Seq<char>
    decreases parts.len(),
{
    if parts.len() == 0 {
        Seq::empty()
    } else if parts.len() == 1 {
        parts[0]
    } else {
        join(parts.drop_last()) + seq![','] + parts.last()
    }
}

impl JsonValue {
    /// The texts of an array's items, or of an object's members (each the
    /// quoted key, a colon and the value), in their order.
    pub open spec fn pieces(self) -> Seq<Seq<char>>
        decreases self, 0nat,
    {
        match self {
            JsonValue::Array(items) => Seq::new(
                items.len(),
                |i: int|
                    if 0 <= i < items.len() {
                        items[i].text()
                    } else {
                        Seq::empty()
                    },
            ),
            JsonValue::Object(members) => Seq::new(
                members.len(),
                |i: int|
                    if 0 <= i < members.len() {
                        quoted(members[i].key) + seq![':'] + members[i].value.text()
                    } else {
                        Seq::empty()
                    },
            ),
            _ => Seq::empty(),
        }
    }

    /// The compact text of the document: no white space, array items and
    /// object members in their order.
    pub open spec fn text(self) -> Seq<char>
        decreases self, 1nat,
    {
        match self {
            JsonValue::Null => seq!['n', 'u', 'l', 'l'],
            JsonValue::Bool(b) => if b {
                seq!['t', 'r', 'u', 'e']
            } else {
                seq!['f', 'a', 'l', 's', 'e']
            },
            JsonValue::Number(n) => decimal(n),
            JsonValue::Text(s) => quoted(s),
            JsonValue::Array(_) => seq!['['] + join(self.pieces()) + seq![']'],
            JsonValue::Object(_) => seq!['{'] + join(self.pieces()) + seq!['}'],
        }
    }

    /// The value under the given key, where this is an object that holds it.
    pub open spec fn get(self, key: Seq<char>) -> Option<JsonValue> {
        match self {
            JsonValue::Object(members) => lookup(members, key),
            _ => None,
        }
    }

    /// Whether this is an object with a member under the given key.
    pub open spec fn has_key(self, key: Seq<char>) -> bool {
        self.get(key) is Some
    }
}

/// `str`'s `==`: two strings are equal exactly when they hold the same
/// characters.
pub assume_specification[ <str as PartialEq>::eq ](a: &str, b: &str) -> (same: bool)
    ensures
        same == (a@ == b@),
;

/// Calls the `Display` impl of `serde_json::Value` on a string value, which
/// writes it as a JSON string: a quotation mark, the characters, and a
/// quotation mark. Of the characters, `"` and `\` are written with a `\`
/// before them; those below U+0020 as `\b`, `\t`, `\n`, `\f` or `\r` where
/// they have such a name, else as `\u00` and two lower-case hex digits; and
/// every other character as it is.
#[verifier::external_body]
fn quote(s: &str) -> (out: String)
    ensures
        out@ == quoted(s@),
{
    serde_json::Value::String(s.to_owned()).to_string()
}

/// Calls the `Display` impl of `serde_json::Number` on a whole number, which
/// writes it in decimal, with a leading minus sign where it is negative.
#[verifier::external_body]
fn number_text(n: i64) -> (out: String)
    ensures
        out@ == decimal(n as int),
{
    serde_json::Number::from(n).to_string()
}

impl Member {
    /// The member that puts the given value under the given key.
    pub fn new(key: &str, value: Json) -> (member: Member)
        ensures
            member.key@ == key@,
            member.value == value,
    {
        Member { key: key.to_owned(), value }
    }
}

impl Json {
    /// The object with the given members, in their order.
    pub fn object(members: Vec<Member>) -> (json: Json)
        ensures
            json@ == JsonValue::Object(member_values(members@)),
    {
        let json = Json::Object(members);
        assert(json@->Object_0 =~= member_values(members@));
        json
    }

    /// The array with the given items, in their order.
    pub fn array(items: Vec<Json>) -> (json: Json)
        ensures
            json@ == JsonValue::Array(item_values(items@)),
    {
        let json = Json::Array(items);
        assert(json@->Array_0 =~= item_values(items@));
        json
    }

    /// The JSON string with the given characters.
    pub fn text(characters: &str) -> (json: Json)
        ensures
            json@ == JsonValue::Text(characters@),
    {
        Json::Text(characters.to_owned())
    }

    /// The value under the given key, where this is an object that holds it;
    /// of several members with that key, the first.
    pub fn get(&self, key: &str) -> (found: Option<&Json>)
        ensures
            match found {
                Some(value) => self@.get(key@) == Some(value@),
                None => self@.get(key@) is None,
            },
    {
        match self {
            Json::Object(members) => {
                let ghost model = self@->Object_0;
                let mut i: usize = 0;
                assert(model.skip(0) =~= model);
                while i < members.len()
                    invariant
                        i <= members.len(),
                        self@ == JsonValue::Object(model),
                        model.len() == members.len(),
                        forall|k: int|
                            0 <= k < members.len() ==> model[k].key == members[k].key@
                                && model[k].value == members[k].value@,
                        lookup(model, key@) == lookup(model.skip(i as int), key@),
                    decreases members.len() - i,
                {
                    assert(model.skip(i as int).drop_first() =~= model.skip(i as int + 1));
                    assert(model.skip(i as int)[0] == model[i as int]);
                    if *members[i].key.as_str() == *key {
                        return Some(&members[i].value);
                    }
                    i += 1;
                }
                None
            },
            _ => None,
        }
    }

    /// Writes the document as compact JSON text.
    pub fn to_text(&self) -> (out: String)
        ensures
            out@ == self@.text(),
        decreases self,
    {
        match self {
            Json::Null => {
                proof {
                    reveal_strlit("null");
                    assert("null"@ =~= seq!['n', 'u', 'l', 'l']);
                }
                "null".to_owned()
            },
            Json::Bool(b) => {
                proof {
                    reveal_strlit("true");
                    reveal_strlit("false");
                    assert("true"@ =~= seq!['t', 'r', 'u', 'e']);
                    assert("false"@ =~= seq!['f', 'a', 'l', 's', 'e']);
                }
                if *b {
                    "true".to_owned()
                } else {
                    "false".to_owned()
                }
            },
            Json::Number(n) => number_text(*n),
            Json::Text(s) => quote(s.as_str()),
            Json::Array(items) => {
                let ghost pieces = Seq::new(
                    items.len() as nat,
                    |i: int|
                        if 0 <= i < items.len() {
                            items[i]@.text()
                        } else {
                            Seq::empty()
                        },
                );
                let mut out = "[".to_owned();
                let mut i: usize = 0;
                proof {
                    reveal_strlit("[");
                    reveal_strlit("]");
                    reveal_strlit(",");
                    assert(pieces.take(0) =~= Seq::empty());
                    assert(out@ =~= seq!['['] + join(pieces.take(0)));
                }
                while i < items.len()
                    invariant
                        i <= items.len(),
                        pieces.len() == items.len(),
                        forall|k: int| 0 <= k < items.len() ==> pieces[k] == items[k]@.text(),
                        out@ == seq!['['] + join(pieces.take(i as int)),
                        ","@ == seq![','],
                        forall|k: int|
                            0 <= k < items.len() ==> #[trigger] decreases_to!(self => items[k]),
                    decreases items.len() - i,
                {
                    if i > 0 {
                        out.append(",");
                    }
                    let piece = items[i].to_text();
                    out.append(piece.as_str());
                    proof {
                        lemma_join_push(pieces.take(i as int), pieces[i as int]);
                        assert(pieces.take(i as int).push(pieces[i as int]) =~= pieces.take(
                            i as int + 1,
                        ));
                        assert(out@ =~= seq!['['] + join(pieces.take(i as int + 1)));
                    }
                    i += 1;
                }
                out.append("]");
                proof {
                    assert(pieces.take(i as int) =~= pieces);
                    assert(self@.pieces() =~= pieces);
                    assert(out@ =~= seq!['['] + join(pieces) + seq![']']);
                }
                out
            },
            Json::Object(members) => {
                let ghost pieces = Seq::new(
                    members.len() as nat,
                    |i: int|
                        if 0 <= i < members.len() {
                            quoted(members[i].key@) + seq![':'] + members[i].value@.text()
                        } else {
                            Seq::empty()
                        },
                );
                let mut out = "{".to_owned();
                let mut i: usize = 0;
                proof {
                    reveal_strlit("{");
                    reveal_strlit("}");
                    reveal_strlit(",");
                    reveal_strlit(":");
                    assert(pieces.take(0) =~= Seq::empty());
                    assert(out@ =~= seq!['{'] + join(pieces.take(0)));
                }
                while i < members.len()
                    invariant
                        i <= members.len(),
                        pieces.len() == members.len(),
                        forall|k: int|
                            0 <= k < members.len() ==> pieces[k] == quoted(members[k].key@) + seq![
                                ':',
                            ] + members[k].value@.text(),
                        out@ == seq!['{'] + join(pieces.take(i as int)),
                        ","@ == seq![','],
                        ":"@ == seq![':'],
                        forall|k: int|
                            0 <= k < members.len() ==> #[trigger] decreases_to!(self => members[k]),
                    decreases members.len() - i,
                {
                    if i > 0 {
                        out.append(",");
                    }
                    let key = quote(members[i].key.as_str());
                    out.append(key.as_str());
                    out.append(":");
                    let piece = members[i].value.to_text();
                    out.append(piece.as_str());
                    proof {
                        lemma_join_push(pieces.take(i as int), pieces[i as int]);
                        assert(pieces.take(i as int).push(pieces[i as int]) =~= pieces.take(
                            i as int + 1,
                        ));
                        assert(out@ =~= seq!['{'] + join(pieces.take(i as int + 1)));
                    }
                    i += 1;
                }
                out.append("}");
                proof {
                    assert(pieces.take(i as int) =~= pieces);
                    assert(self@.pieces() =~= pieces);
                    assert(out@ =~= seq!['{'] + join(pieces) + seq!['}']);
                }
                out
            },
        }
    }
}

impl Clone for Member {
    /// A copy with the same key and a value that stands for the same document.
    fn clone(&self) -> (copy: Member)
        ensures
            copy.key@ == self.key@,
            copy.value@ == self.value@,
    {
        Member { key: self.key.clone(), value: self.value.clone() }
    }
}

impl Clone for Json {
    /// A copy that stands for the same document.
    fn clone(&self) -> (copy: Json)
        ensures
            copy@ == self@,
        decreases self,
    {
        match self {
            Json::Null => Json::Null,
            Json::Bool(b) => Json::Bool(*b),
            Json::Number(n) => Json::Number(*n),
            Json::Text(s) => Json::Text(s.clone()),
            Json::Array(items) => {
                let mut copies: Vec<Json> = Vec::new();
                let mut i: usize = 0;
                while i < items.len()
                    invariant
                        i <= items.len(),
                        copies.len() == i,
                        forall|k: int| 0 <= k < i ==> copies[k]@ == items[k]@,
                        forall|k: int|
                            0 <= k < items.len() ==> #[trigger] decreases_to!(self => items[k]),
                    decreases items.len() - i,
                {
                    copies.push(items[i].clone());
                    i += 1;
                }
                let copy = Json::Array(copies);
                assert(copy@->Array_0 =~= self@->Array_0);
                copy
            },
            Json::Object(members) => {
                let mut copies: Vec<Member> = Vec::new();
                let mut i: usize = 0;
                while i < members.len()
                    invariant
                        i <= members.len(),
                        copies.len() == i,
                        forall|k: int|
                            0 <= k < i ==> copies[k].key@ == members[k].key@ && copies[k].value@
                                == members[k].value@,
                        forall|k: int|
                            0 <= k < members.len() ==> #[trigger] decreases_to!(self => members[k]),
                    decreases members.len() - i,
                {
                    copies.push(
                        Member { key: members[i].key.clone(), value: members[i].value.clone() },
                    );
                    i += 1;
                }
                let copy = Json::Object(copies);
                assert(copy@->Object_0 =~= self@->Object_0);
                copy
            },
        }
    }
}

/// Appending one more piece to a joined sequence adds a comma before it,
/// unless it is the first.
pub proof fn lemma_join_push(parts: Seq<Seq<char>>, piece: Seq<char>)
    ensures
        join(parts.push(piece)) == if parts.len() == 0 {
            piece
        } else {
            join(parts) + seq![','] + piece
        },
{
    assert(parts.push(piece).drop_last() =~= parts);
}

/// Looking a key up in two runs of members written one after the other: the
/// first run answers where it holds the key, the second where it does not.
pub proof fn lemma_lookup_concat(a: Seq<MemberValue>, b: Seq<MemberValue>, key: Seq<char>)
    ensures
        lookup(a + b, key) == if lookup(a, key) is Some {
            lookup(a, key)
        } else {
            lookup(b, key)
        },
    decreases a.len(),
{
    if a.len() == 0 {
        assert(a + b =~= b);
    } else {
        assert((a + b).drop_first() =~= a.drop_first() + b);
        lemma_lookup_concat(a.drop_first(), b, key);
    }
}

/// A string of plain characters is written inside a JSON string as it is.
pub proof fn lemma_escaped_plain(s: Seq<char>)
    requires
        forall|i: int| 0 <= i < s.len() ==> is_plain(#[trigger] s[i]),
    ensures
        escaped(s) == s,
    decreases s.len(),
{
    if s.len() > 0 {
        lemma_escaped_plain(s.drop_last());
        assert(escape_char(s.last()) == seq![s.last()]);
        assert(s.drop_last() + seq![s.last()] =~= s);
    }
}

/// The text of an object with one member: the quoted key, a colon and the
/// value's text, between braces.
pub proof fn lemma_single_member_text(key: Seq<char>, value: JsonValue)
    ensures
        JsonValue::Object(seq![MemberValue { key, value }]).text() == seq!['{'] + quoted(key)
            + seq![':'] + value.text() + seq!['}'],
{
    let object = JsonValue::Object(seq![MemberValue { key, value }]);
    assert(object.pieces() =~= seq![quoted(key) + seq![':'] + value.text()]);
    assert(object.text() =~= seq!['{'] + quoted(key) + seq![':'] + value.text() + seq!['}']);
}

} // verus!
