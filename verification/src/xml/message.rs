//! What the control messages of both services have in common: the envelope
//! around the action, the fields of an action, and the failures of decoding.

use crate::text::{parse_number, parsed_number, same_text, trim, trimmed};
use crate::xml::document::{
    attribute, children, content, element_name, named, top_elements, well_formed, Document,
};
use crate::xml::reader::TokenView;
use vstd::prelude::*;

verus! {

/// The ways in which decoding a control message fails.
#[derive(Clone, Copy, Debug, PartialEq, Eq, Structural)]
pub enum FailureKind {
    /// The text is no well-formed XML document, or no envelope with one
    /// body that holds one action.
    Malformed,
    /// The action is none that the service decodes.
    UnknownAction,
    /// The action lacks a field.
    MissingField,
    /// The action has a field more than once.
    DuplicateField,
    /// A field holds a value outside its domain.
    InvalidValue,
}

/// A failure of decoding: its kind, and the name of the action or field
/// that it is about (empty for a malformed message).
#[derive(Clone, Debug, PartialEq, Eq)]
pub struct ParseFailure {
    pub kind: FailureKind,
    pub subject: String,
}

/// The mathematical value of a [`ParseFailure`].
pub ghost struct FailureValue {
    pub kind: FailureKind,
    pub subject: Seq<char>,
}

impl View for ParseFailure {
    type V = FailureValue;

    open spec fn view(&self) -> FailureValue {
        FailureValue { kind: self.kind, subject: self.subject@ }
    }
}

/// The failure of a malformed message.
pub open spec fn malformed() -> FailureValue {
    FailureValue { kind: FailureKind::Malformed, subject: Seq::empty() }
}

/// The failure of kind `kind` about `subject`.
pub open spec fn failure_about(kind: FailureKind, subject: Seq<char>) -> FailureValue {
    FailureValue { kind, subject }
}

/// The cause of a failure in words.
pub open spec fn failure_message(failure: FailureValue) -> Seq<char> {
    match failure.kind {
        FailureKind::Malformed => "malformed control message"@,
        FailureKind::UnknownAction => "action not recognized: "@ + failure.subject,
        FailureKind::MissingField => "missing field: "@ + failure.subject,
        FailureKind::DuplicateField => "duplicate field: "@ + failure.subject,
        FailureKind::InvalidValue => "invalid value of field: "@ + failure.subject,
    }
}

impl ParseFailure {
    /// The failure of a malformed message.
    pub fn malformed() -> (r: ParseFailure)
        ensures
            r@ == malformed(),
    {
        ParseFailure { kind: FailureKind::Malformed, subject: String::new() }
    }

    /// The failure of kind `kind` about `subject`.
    pub fn about(kind: FailureKind, subject: &str) -> (r: ParseFailure)
        ensures
            r@ == failure_about(kind, subject@),
    {
        ParseFailure { kind, subject: String::from_str(subject) }
    }

    /// The cause of the failure in words.
    pub fn message(&self) -> (r: String)
        ensures
            r@ == failure_message(self@),
    {
        let mut out = match self.kind {
            FailureKind::Malformed => String::from_str("malformed control message"),
            FailureKind::UnknownAction => String::from_str("action not recognized: "),
            FailureKind::MissingField => String::from_str("missing field: "),
            FailureKind::DuplicateField => String::from_str("duplicate field: "),
            FailureKind::InvalidValue => String::from_str("invalid value of field: "),
        };
        match self.kind {
            FailureKind::Malformed => {},
            _ => {
                out.append(self.subject.as_str());
            },
        }
        out
    }
}

/// The value of what was decoded, or of the failure to decode it.
pub open spec fn viewed<T: View, E: View>(r: Result<T, E>) -> Result<T::V, E::V> {
    match r {
        Ok(value) => Ok(value@),
        Err(failure) => Err(failure@),
    }
}

/// The index of the token that opens the action of a control message: the
/// only child of the only `Body` among the children of the only outermost
/// element. `None` where the tokens are not those of a well-formed
/// document, or where one of the three is not the only one.
pub open spec fn action_position(tokens: Seq<TokenView>) -> Option<int> {
    let roots = top_elements(tokens);
    if !well_formed(tokens) || roots.len() != 1 {
        None
    } else {
        let bodies = named(tokens, children(tokens, roots[0]), "Body"@);
        if bodies.len() != 1 {
            None
        } else {
            let actions = children(tokens, bodies[0]);
            if actions.len() != 1 {
                None
            } else {
                Some(actions[0])
            }
        }
    }
}

/// The name of the action that token `action` opens, without its prefix.
pub open spec fn action_name(tokens: Seq<TokenView>, action: int) -> Seq<char> {
    element_name(tokens, action)
}

/// The value of the attribute `key` of the element that token `at` opens,
/// empty where it has none.
pub open spec fn attribute_text(tokens: Seq<TokenView>, at: int, key: Seq<char>) -> Seq<char> {
    match attribute(tokens, at, key) {
        Some(value) => value,
        None => Seq::empty(),
    }
}

/// The namespace that the action declares for the prefix `u`: the value of
/// its attribute `xmlns:u`.
pub open spec fn namespace(tokens: Seq<TokenView>, action: int) -> Seq<char> {
    attribute_text(tokens, action, "xmlns:u"@)
}

/// The index of the token that opens the envelope of a control message:
/// the outermost element of a message that holds an action.
pub open spec fn envelope_position(tokens: Seq<TokenView>) -> Option<int> {
    if action_position(tokens) is Some {
        Some(top_elements(tokens)[0])
    } else {
        None
    }
}

/// The text of the field `name` of the action: the content of the only
/// child of that name, without the whitespace around it.
pub open spec fn field_text(tokens: Seq<TokenView>, action: int, name: Seq<char>) -> Result<
    Seq<char>,
    FailureValue,
> {
    let found = named(tokens, children(tokens, action), name);
    if found.len() == 0 {
        Err(failure_about(FailureKind::MissingField, name))
    } else if found.len() > 1 {
        Err(failure_about(FailureKind::DuplicateField, name))
    } else {
        match content(tokens, found[0]) {
            Some(text) => Ok(trimmed(text)),
            None => Err(failure_about(FailureKind::InvalidValue, name)),
        }
    }
}

/// The number in the field `name` of the action, which may be at most
/// `max`.
pub open spec fn field_number(
    tokens: Seq<TokenView>,
    action: int,
    name: Seq<char>,
    max: u32,
) -> Result<u32, FailureValue> {
    match field_text(tokens, action, name) {
        Ok(text) => match parsed_number(text, max as int) {
            Some(n) => Ok(n as u32),
            None => Err(failure_about(FailureKind::InvalidValue, name)),
        },
        Err(failure) => Err(failure),
    }
}

/// The truth value that a text writes: `true` or `1`, `false` or `0`.
pub open spec fn parsed_flag(text: Seq<char>) -> Option<bool> {
    if text == "true"@ || text == "1"@ {
        Some(true)
    } else if text == "false"@ || text == "0"@ {
        Some(false)
    } else {
        None
    }
}

/// The truth value in the field `name` of the action.
pub open spec fn field_flag(tokens: Seq<TokenView>, action: int, name: Seq<char>) -> Result<
    bool,
    FailureValue,
> {
    match field_text(tokens, action, name) {
        Ok(text) => match parsed_flag(text) {
            Some(b) => Ok(b),
            None => Err(failure_about(FailureKind::InvalidValue, name)),
        },
        Err(failure) => Err(failure),
    }
}

/// Finds the action of a control message.
pub fn locate_action(document: &Document) -> (r: Option<usize>)
    ensures
        match r {
            Some(at) => at < document@.len() && action_position(document@) == Some(at as int),
            None => action_position(document@) is None,
        },
{
    if document.len() == 0 {
        return None;
    }
    let roots = document.top();
    if roots.len() != 1 {
        return None;
    }
    let inside = document.children_of(roots[0]);
    let bodies = document.named_among(&inside, "Body");
    if bodies.len() != 1 {
        return None;
    }
    let actions = document.children_of(bodies[0]);
    if actions.len() != 1 {
        return None;
    }
    Some(actions[0])
}

/// The name of the action that token `action` opens, without its prefix.
pub fn read_action_name(document: &Document, action: usize) -> (r: String)
    requires
        action < document@.len(),
    ensures
        r@ == action_name(document@, action as int),
{
    document.local_name_at(action)
}

/// Finds the envelope of a control message.
pub fn locate_envelope(document: &Document) -> (r: Option<usize>)
    ensures
        match r {
            Some(at) => at < document@.len() && envelope_position(document@) == Some(at as int),
            None => envelope_position(document@) is None,
        },
{
    match locate_action(document) {
        Some(_) => {
            let roots = document.top();
            Some(roots[0])
        },
        None => None,
    }
}

/// Reads the value of the attribute `key` of the element that token `at`
/// opens.
pub fn read_attribute(document: &Document, at: usize, key: &str) -> (r: String)
    requires
        at < document@.len(),
    ensures
        r@ == attribute_text(document@, at as int, key@),
{
    match document.attribute_of(at, key) {
        Some(value) => value,
        None => String::new(),
    }
}

/// Reads the namespace that the action declares for the prefix `u`.
pub fn read_namespace(document: &Document, action: usize) -> (r: String)
    requires
        action < document@.len(),
    ensures
        r@ == namespace(document@, action as int),
{
    read_attribute(document, action, "xmlns:u")
}

/// Reads the text of the field `name` of the action.
pub fn read_text(document: &Document, action: usize, name: &str) -> (r: Result<
    String,
    ParseFailure,
>)
    requires
        action < document@.len(),
    ensures
        viewed(r) == field_text(document@, action as int, name@),
{
    let fields = document.children_of(action);
    let found = document.named_among(&fields, name);
    if found.len() == 0 {
        Err(ParseFailure::about(FailureKind::MissingField, name))
    } else if found.len() > 1 {
        Err(ParseFailure::about(FailureKind::DuplicateField, name))
    } else {
        match document.content_of(found[0]) {
            Some(text) => Ok(trim(text.as_str())),
            None => Err(ParseFailure::about(FailureKind::InvalidValue, name)),
        }
    }
}

/// Reads the number in the field `name` of the action, which may be at
/// most `max`.
pub fn read_number(document: &Document, action: usize, name: &str, max: u32) -> (r: Result<
    u32,
    ParseFailure,
>)
    requires
        action < document@.len(),
    ensures
        viewed(r) == field_number(document@, action as int, name@, max),
{
    match read_text(document, action, name) {
        Ok(text) => match parse_number(text.as_str(), max) {
            Some(n) => Ok(n),
            None => Err(ParseFailure::about(FailureKind::InvalidValue, name)),
        },
        Err(failure) => Err(failure),
    }
}

/// Reads the truth value in the field `name` of the action.
pub fn read_flag(document: &Document, action: usize, name: &str) -> (r: Result<bool, ParseFailure>)
    requires
        action < document@.len(),
    ensures
        viewed(r) == field_flag(document@, action as int, name@),
{
    match read_text(document, action, name) {
        Ok(text) => {
            if same_text(text.as_str(), "true") || same_text(text.as_str(), "1") {
                Ok(true)
            } else if same_text(text.as_str(), "false") || same_text(text.as_str(), "0") {
                Ok(false)
            } else {
                Err(ParseFailure::about(FailureKind::InvalidValue, name))
            }
        },
        Err(failure) => Err(failure),
    }
}

} // verus!
