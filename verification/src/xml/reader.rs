//! Lexing of an XML text into a flat list of tokens.
//!
//! The lexing itself is done by `quick_xml`: it reads the events of the
//! text, the attributes of a tag and the character that a reference
//! names, one per call. The loops that walk the text and collect what was
//! read are verified here.

use crate::text::{char_is_space, chars_of, first_space_from, push_char, slice_text};
use quick_xml::events::attributes::Attributes;
use quick_xml::events::{BytesRef, Event};
use quick_xml::{Reader, XmlVersion};
use vstd::prelude::*;
use vstd::utf8::encode_utf8;

verus! {

/// The kinds of events that `quick_xml` reads from a text.
#[derive(Clone, Copy, Debug, PartialEq, Eq, Structural)]
pub enum EventKind {
    /// A start tag `<name attributes>`.
    Start,
    /// An end tag `</name>`.
    End,
    /// An empty element tag `<name attributes/>`.
    Empty,
    /// Character data between tags.
    Text,
    /// A `<![CDATA[...]]>` section.
    CData,
    /// A reference `&name;` or `&#number;`.
    Reference,
    /// A comment, a declaration, a processing instruction or a document type.
    Other,
    /// The end of the text.
    Eof,
}

/// A tag that opens an element.
#[derive(Clone, Debug, PartialEq, Eq)]
pub struct Tag {
    /// The name of the element, with its prefix.
    pub name: String,
    /// The attributes of the element, each with its key and its value, in
    /// the order of the text; `None` where they are malformed.
    pub attributes: Option<Vec<(String, String)>>,
}

/// One token of an XML text.
#[derive(Clone, Debug, PartialEq, Eq)]
pub enum XmlToken {
    /// A start tag `<name attributes>`.
    Start(Tag),
    /// An empty element tag `<name attributes/>`.
    Empty(Tag),
    /// An end tag `</name>`, with the name.
    End(String),
    /// Character data, between tags or in a `<![CDATA[...]]>` section.
    Text(String),
    /// A reference `&name;`, with the text it stands for where it stands
    /// for any.
    Reference { name: String, text: Option<String> },
    /// A comment, a declaration, a processing instruction or a document type.
    Other,
}

/// The mathematical value of a [`Tag`].
pub ghost struct TagView {
    pub name: Seq<char>,
    pub attributes: Option<Seq<(Seq<char>, Seq<char>)>>,
}

/// The mathematical value of an [`XmlToken`].
pub ghost enum TokenView {
    Start(TagView),
    Empty(TagView),
    End(Seq<char>),
    Text(Seq<char>),
    Reference { name: Seq<char>, text: Option<Seq<char>> },
    Other,
}

/// The values of a list of attributes.
pub open spec fn pair_views(pairs: Seq<(String, String)>) -> Seq<(Seq<char>, Seq<char>)> {
    pairs.map_values(|pair: (String, String)| (pair.0@, pair.1@))
}

impl View for Tag {
    type V = TagView;

    open spec fn view(&self) -> TagView {
        TagView {
            name: self.name@,
            attributes: match self.attributes {
                Some(pairs) => Some(pair_views(pairs@)),
                None => None,
            },
        }
    }
}

impl View for XmlToken {
    type V = TokenView;

    open spec fn view(&self) -> TokenView {
        match self {
            XmlToken::Start(tag) => TokenView::Start(tag@),
            XmlToken::Empty(tag) => TokenView::Empty(tag@),
            XmlToken::End(name) => TokenView::End(name@),
            XmlToken::Text(text) => TokenView::Text(text@),
            XmlToken::Reference { name, text } => TokenView::Reference {
                name: name@,
                text: match text {
                    Some(text) => Some(text@),
                    None => None,
                },
            },
            XmlToken::Other => TokenView::Other,
        }
    }
}

/// The values of a list of tokens.
pub open spec fn token_views(tokens: Seq<XmlToken>) -> Seq<TokenView> {
    tokens.map_values(|t: XmlToken| t@)
}

/// The event that `quick_xml` reads from `input` at byte offset `at`: its
/// kind, the number of bytes it takes up, and its content. `None` where
/// `at` is no character boundary of `input` or the reader fails.
pub uninterp spec fn xml_event(input: Seq<char>, at: int) -> Option<(EventKind, int, Seq<char>)>;

/// The attribute number `index` that `quick_xml` reads from the
/// attributes `attributes` of a tag, with its value normalized as XML 1.0
/// asks: `None` where the attributes up to this one are malformed or name
/// a key twice, `Some(None)` where they end before it.
pub uninterp spec fn xml_attribute(attributes: Seq<char>, index: int) -> Option<
    Option<(Seq<char>, Seq<char>)>,
>;

/// The character that `quick_xml` resolves the character reference `name`
/// to (`#` and a decimal number, or `#x` and a hexadecimal one), or `None`
/// where `name` is no character reference or names no character.
pub uninterp spec fn xml_char_reference(name: Seq<char>) -> Option<char>;

/// Reads one event with `quick_xml::Reader::read_event` from the part of
/// `input` that starts at byte `at`, with a reader that accepts an end tag
/// without its start tag.
///
/// Trusted: the kind of the event read, the reader's position after it and
/// what the event dereferences to depend on `input` and `at` alone.
#[verifier::external_body]
fn read_event(input: &str, at: usize) -> (r: Option<(EventKind, usize, String)>)
    ensures
        match r {
            Some((kind, used, text)) => xml_event(input@, at as int) == Some(
                (kind, used as int, text@),
            ),
            None => xml_event(input@, at as int) is None,
        },
{
    let mut reader = Reader::from_str(input.get(at..)?);
    reader.config_mut().allow_unmatched_ends = true;
    let event = reader.read_event().ok()?;
    let kind = match event {
        Event::Start(_) => EventKind::Start,
        Event::End(_) => EventKind::End,
        Event::Empty(_) => EventKind::Empty,
        Event::Text(_) => EventKind::Text,
        Event::CData(_) => EventKind::CData,
        Event::GeneralRef(_) => EventKind::Reference,
        Event::Comment(_) | Event::Decl(_) | Event::PI(_) | Event::DocType(_) => EventKind::Other,
        Event::Eof => EventKind::Eof,
    };
    Some((kind, reader.buffer_position() as usize, String::from(&*event)))
}

/// Reads the attribute number `index` of a tag with the iterator
/// `quick_xml::events::attributes::Attributes`, and normalizes its value
/// with `Attribute::normalized_value`, as XML 1.0 asks.
///
/// Trusted: the result depends on `attributes` and `index` alone; an error
/// of the iterator or of the normalization is reported as `None`.
#[verifier::external_body]
fn read_attribute(attributes: &str, index: usize) -> (r: Option<Option<(String, String)>>)
    ensures
        match r {
            Some(Some(pair)) => xml_attribute(attributes@, index as int) == Some(
                Some((pair.0@, pair.1@)),
            ),
            Some(None) => xml_attribute(attributes@, index as int) == Some(
                None::<(Seq<char>, Seq<char>)>,
            ),
            None => xml_attribute(attributes@, index as int) is None,
        },
{
    match Attributes::new(attributes, 0).nth(index) {
        Some(Ok(attribute)) => match attribute.normalized_value(XmlVersion::Implicit1_0) {
            Ok(value) => Some(Some((String::from(attribute.key.0), value.into_owned()))),
            Err(_) => None,
        },
        Some(Err(_)) => None,
        None => Some(None),
    }
}

/// Resolves a character reference with
/// `quick_xml::events::BytesRef::resolve_char_ref`.
///
/// Trusted: the result depends on `name` alone; an error of the function
/// is reported as `None`.
#[verifier::external_body]
fn resolve_char_reference(name: &str) -> (r: Option<char>)
    ensures
        r == xml_char_reference(name@),
{
    match BytesRef::new(name).resolve_char_ref() {
        Ok(found) => found,
        Err(_) => None,
    }
}

/// Resolves a predefined entity with `quick_xml::escape::resolve_xml_entity`.
///
/// Trusted: the function knows `lt`, `gt`, `amp`, `apos` and `quot`, maps
/// them to `<`, `>`, `&`, `'` and `"`, and knows no other name.
#[verifier::external_body]
fn resolve_entity(name: &str) -> (r: Option<&'static str>)
    ensures
        match r {
            Some(text) => predefined_entity(name@) == Some(text@),
            None => predefined_entity(name@) is None,
        },
{
    quick_xml::escape::resolve_xml_entity(name)
}

/// The predefined entities of XML.
pub open spec fn predefined_entity(name: Seq<char>) -> Option<Seq<char>> {
    if name == seq!['l', 't'] {
        Some(seq!['<'])
    } else if name == seq!['g', 't'] {
        Some(seq!['>'])
    } else if name == seq!['a', 'm', 'p'] {
        Some(seq!['&'])
    } else if name == seq!['a', 'p', 'o', 's'] {
        Some(seq!['\''])
    } else if name == seq!['q', 'u', 'o', 't'] {
        Some(seq!['"'])
    } else {
        None
    }
}

/// The text that the reference `&name;` stands for, where it stands for
/// any: a character reference, or one of the predefined entities.
pub open spec fn resolved_reference(name: Seq<char>) -> Option<Seq<char>> {
    match xml_char_reference(name) {
        Some(c) => Some(seq![c]),
        None => predefined_entity(name),
    }
}

/// The name that a tag with the content `text` gives its element: the
/// content up to the first whitespace.
pub open spec fn tag_name(text: Seq<char>) -> Seq<char> {
    text.take(first_space_from(text, 0))
}

/// What follows the name in the content `text` of a tag: its attributes,
/// as they are written.
pub open spec fn tag_attributes(text: Seq<char>) -> Seq<char> {
    text.skip(first_space_from(text, 0))
}

/// The attributes that are written in `written`, from number `index` on,
/// or `None` where they are malformed. More attributes than `written` has
/// characters count as malformed.
pub open spec fn attributes_from(written: Seq<char>, index: int) -> Option<
    Seq<(Seq<char>, Seq<char>)>,
>
    decreases written.len() - index,
{
    match xml_attribute(written, index) {
        None => None,
        Some(None) => Some(Seq::empty()),
        Some(Some(pair)) => if index >= written.len() {
            None
        } else {
            match attributes_from(written, index + 1) {
                Some(rest) => Some(seq![pair] + rest),
                None => None,
            }
        },
    }
}

/// The tag with the content `text`.
pub open spec fn tag_of(text: Seq<char>) -> TagView {
    TagView { name: tag_name(text), attributes: attributes_from(tag_attributes(text), 0) }
}

/// The token that an event of the kind `kind` with the content `text`
/// makes.
pub open spec fn token_of(kind: EventKind, text: Seq<char>) -> TokenView {
    match kind {
        EventKind::Start => TokenView::Start(tag_of(text)),
        EventKind::Empty => TokenView::Empty(tag_of(text)),
        EventKind::End => TokenView::End(text),
        EventKind::Text => TokenView::Text(text),
        EventKind::CData => TokenView::Text(text),
        EventKind::Reference => TokenView::Reference {
            name: text,
            text: resolved_reference(text),
        },
        EventKind::Other => TokenView::Other,
        EventKind::Eof => TokenView::Other,
    }
}

/// The number of bytes that `input` takes up in UTF-8.
pub open spec fn byte_len(input: Seq<char>) -> int {
    encode_utf8(input).len() as int
}

/// The bytes of a byte order mark in UTF-8.
pub open spec fn mark_bytes() -> Seq<u8> {
    seq![0xefu8, 0xbbu8, 0xbfu8]
}

/// The character that a byte order mark is.
pub open spec fn mark_text() -> Seq<char> {
    seq!['\u{feff}']
}

/// Whether the bytes `bytes` hold a byte order mark at offset `at`.
pub open spec fn mark_at(bytes: Seq<u8>, at: int) -> bool {
    0 <= at && at + 3 <= bytes.len() && bytes.subrange(at, at + 3) == mark_bytes()
}

/// The tokens of `input` from byte offset `at` to its end, or `None` where
/// some part of it cannot be lexed.
///
/// A byte order mark is not put before the reader, which would pass over
/// it without counting its bytes: at the start of the text it is passed
/// over here, and elsewhere it is character data of its own. An event
/// that takes up no bytes, or more bytes than are left, counts as one
/// that cannot be lexed.
pub open spec fn tokens_from(input: Seq<char>, at: int) -> Option<Seq<TokenView>>
    decreases byte_len(input) - at,
{
    if mark_at(encode_utf8(input), at) {
        match tokens_from(input, at + 3) {
            Some(rest) => Some(
                if at == 0 {
                    rest
                } else {
                    seq![TokenView::Text(mark_text())] + rest
                },
            ),
            None => None,
        }
    } else {
        match xml_event(input, at) {
            None => None,
            Some((kind, used, text)) => if kind == EventKind::Eof {
                Some(Seq::empty())
            } else if used <= 0 || at + used > byte_len(input) {
                None
            } else {
                match tokens_from(input, at + used) {
                    Some(rest) => Some(seq![token_of(kind, text)] + rest),
                    None => None,
                }
            },
        }
    }
}

/// The tokens of the whole of `input`.
pub open spec fn tokens_of(input: Seq<char>) -> Option<Seq<TokenView>> {
    tokens_from(input, 0)
}

/// The text that the reference `&name;` stands for.
pub fn resolve_reference(name: &str) -> (r: Option<String>)
    ensures
        match r {
            Some(text) => resolved_reference(name@) == Some(text@),
            None => resolved_reference(name@) is None,
        },
{
    match resolve_char_reference(name) {
        Some(c) => {
            let mut out = String::new();
            push_char(&mut out, c);
            assert(out@ =~= seq![c]);
            Some(out)
        },
        None => match resolve_entity(name) {
            Some(text) => Some(String::from_str(text)),
            None => None,
        },
    }
}

/// Reads the attributes that are written in `written`.
pub fn read_attributes(written: &str) -> (r: Option<Vec<(String, String)>>)
    ensures
        match r {
            Some(pairs) => attributes_from(written@, 0) == Some(pair_views(pairs@)),
            None => attributes_from(written@, 0) is None,
        },
{
    let limit = chars_of(written).len();
    let mut pairs: Vec<(String, String)> = Vec::new();
    let mut index: usize = 0;
    assert(pair_views(pairs@) =~= Seq::<(Seq<char>, Seq<char>)>::empty());
    loop
        invariant
            limit == written@.len(),
            index <= limit,
            attributes_from(written@, 0) == match attributes_from(written@, index as int) {
                Some(rest) => Some(pair_views(pairs@) + rest),
                None => None,
            },
        decreases limit - index,
    {
        match read_attribute(written, index) {
            None => {
                return None;
            },
            Some(None) => {
                assert(pair_views(pairs@) + Seq::<(Seq<char>, Seq<char>)>::empty() =~= pair_views(
                    pairs@,
                ));
                return Some(pairs);
            },
            Some(Some(pair)) => {
                if index >= limit {
                    return None;
                }
                let ghost before = pair_views(pairs@);
                let ghost here = seq![(pair.0@, pair.1@)];
                pairs.push(pair);
                proof {
                    assert(pair_views(pairs@) =~= before + here);
                    match attributes_from(written@, index + 1) {
                        Some(rest) => {
                            assert(before + (here + rest) =~= (before + here) + rest);
                        },
                        None => {},
                    }
                }
                index = index + 1;
            },
        }
    }
}

/// Reads the tag with the content `text`.
pub fn read_tag(text: &str) -> (r: Tag)
    ensures
        r@ == tag_of(text@),
{
    let chars = chars_of(text);
    let n = chars.len();
    let mut i: usize = 0;
    while i < n && !char_is_space(chars[i])
        invariant
            n == chars@.len(),
            i <= n,
            first_space_from(chars@, 0) == first_space_from(chars@, i as int),
        decreases n - i,
    {
        i = i + 1;
    }
    assert(chars@.take(i as int) =~= chars@.subrange(0, i as int));
    assert(chars@.skip(i as int) =~= chars@.subrange(i as int, n as int));
    let name = slice_text(&chars, 0, i);
    let written = slice_text(&chars, i, n);
    Tag { name, attributes: read_attributes(written.as_str()) }
}

/// Makes the token of an event of the kind `kind` with the content
/// `text`.
pub fn read_token(kind: EventKind, text: String) -> (r: XmlToken)
    ensures
        r@ == token_of(kind, text@),
{
    match kind {
        EventKind::Start => XmlToken::Start(read_tag(text.as_str())),
        EventKind::Empty => XmlToken::Empty(read_tag(text.as_str())),
        EventKind::End => XmlToken::End(text),
        EventKind::Text => XmlToken::Text(text),
        EventKind::CData => XmlToken::Text(text),
        EventKind::Reference => {
            let resolved = resolve_reference(text.as_str());
            XmlToken::Reference { name: text, text: resolved }
        },
        EventKind::Other => XmlToken::Other,
        EventKind::Eof => XmlToken::Other,
    }
}

/// Whether the bytes `bytes` hold a byte order mark at offset `at`.
pub fn has_mark(bytes: &[u8], at: usize) -> (r: bool)
    ensures
        r == mark_at(bytes@, at as int),
{
    let n = bytes.len();
    if at > n || n - at < 3 {
        return false;
    }
    let found = bytes[at] == 0xef && bytes[at + 1] == 0xbb && bytes[at + 2] == 0xbf;
    proof {
        let part = bytes@.subrange(at as int, at + 3);
        assert(part.len() == 3);
        assert(part[0] == bytes@[at as int]);
        assert(part[1] == bytes@[at + 1]);
        assert(part[2] == bytes@[at + 2]);
        if found {
            assert(part =~= mark_bytes());
        }
    }
    found
}

/// Lexes `input` into its tokens.
pub fn tokenize(input: &str) -> (r: Option<Vec<XmlToken>>)
    ensures
        match r {
            Some(tokens) => tokens_of(input@) == Some(token_views(tokens@)),
            None => tokens_of(input@) is None,
        },
{
    let bytes = input.as_bytes();
    let len = bytes.len();
    let mut tokens: Vec<XmlToken> = Vec::new();
    let mut at: usize = 0;
    assert(token_views(tokens@) =~= Seq::<TokenView>::empty());
    loop
        invariant
            bytes@ == encode_utf8(input@),
            len == byte_len(input@),
            at <= len,
            tokens_of(input@) == match tokens_from(input@, at as int) {
                Some(rest) => Some(token_views(tokens@) + rest),
                None => None,
            },
        decreases len - at,
    {
        let ghost before = token_views(tokens@);
        if has_mark(bytes, at) {
            if at != 0 {
                let mut mark = String::new();
                push_char(&mut mark, '\u{feff}');
                assert(mark@ =~= mark_text());
                let token = XmlToken::Text(mark);
                let ghost here = seq![token@];
                tokens.push(token);
                proof {
                    assert(token_views(tokens@) =~= before + here);
                    match tokens_from(input@, at + 3) {
                        Some(rest) => {
                            assert(before + (here + rest) =~= (before + here) + rest);
                        },
                        None => {},
                    }
                }
            }
            at = at + 3;
        } else {
            let (kind, used, text) = match read_event(input, at) {
                Some(event) => event,
                None => {
                    return None;
                },
            };
            if kind == EventKind::Eof {
                assert(before + Seq::<TokenView>::empty() =~= before);
                return Some(tokens);
            }
            if used == 0 || used > len - at {
                return None;
            }
            let token = read_token(kind, text);
            let ghost here = seq![token@];
            tokens.push(token);
            proof {
                assert(token_views(tokens@) =~= before + here);
                match tokens_from(input@, at + used) {
                    Some(rest) => {
                        assert(before + (here + rest) =~= (before + here) + rest);
                    },
                    None => {},
                }
            }
            at = at + used;
        }
    }
}

} // verus!
