//! The actions of the `AVTransport` service and their decoding from a
//! control message.

use crate::text::same_text;
use crate::xml::document::Document;
use crate::xml::message::{
    action_name, action_position, attribute_text, envelope_position, failure_about, field_number,
    field_text, locate_action, locate_envelope, malformed, namespace, read_action_name,
    read_attribute, read_namespace, read_number, read_text, viewed, FailureKind, FailureValue,
    ParseFailure,
};
use crate::xml::reader::{token_views, tokenize, tokens_of, TokenView, XmlToken};
use vstd::prelude::*;

verus! {

/// The speeds at which a resource can be played. Only normal speed is
/// supported.
#[derive(Clone, Copy, Debug, PartialEq, Eq, Structural)]
pub enum PlaySpeed {
    /// Normal speed, written `1`.
    One,
}

/// The units in which the target of a seek is given.
#[derive(Clone, Copy, Debug, PartialEq, Eq, Structural)]
pub enum SeekUnit {
    /// An absolute count, written `ABS_COUNT`.
    AbsCount,
    /// A track number, written `TRACK_NR`.
    TrackNr,
    /// A relative time, written `REL_TIME`.
    RelTime,
}

/// How a play speed is written.
pub open spec fn speed_text(speed: PlaySpeed) -> Seq<char> {
    match speed {
        PlaySpeed::One => "1"@,
    }
}

/// The play speed that a text writes.
pub open spec fn parsed_speed(text: Seq<char>) -> Option<PlaySpeed> {
    if text == "1"@ {
        Some(PlaySpeed::One)
    } else {
        None
    }
}

/// How a seek unit is written.
pub open spec fn unit_text(unit: SeekUnit) -> Seq<char> {
    match unit {
        SeekUnit::AbsCount => "ABS_COUNT"@,
        SeekUnit::TrackNr => "TRACK_NR"@,
        SeekUnit::RelTime => "REL_TIME"@,
    }
}

/// The seek unit that a text writes.
pub open spec fn parsed_unit(text: Seq<char>) -> Option<SeekUnit> {
    if text == "ABS_COUNT"@ {
        Some(SeekUnit::AbsCount)
    } else if text == "TRACK_NR"@ {
        Some(SeekUnit::TrackNr)
    } else if text == "REL_TIME"@ {
        Some(SeekUnit::RelTime)
    } else {
        None
    }
}

impl PlaySpeed {
    /// How the speed is written.
    pub fn as_str(&self) -> (r: &'static str)
        ensures
            r@ == speed_text(*self),
    {
        match self {
            PlaySpeed::One => "1",
        }
    }

    /// The speed that `text` writes.
    pub fn from_text(text: &str) -> (r: Option<PlaySpeed>)
        ensures
            r == parsed_speed(text@),
    {
        if same_text(text, "1") {
            Some(PlaySpeed::One)
        } else {
            None
        }
    }
}

impl SeekUnit {
    /// How the unit is written.
    pub fn as_str(&self) -> (r: &'static str)
        ensures
            r@ == unit_text(*self),
    {
        match self {
            SeekUnit::AbsCount => "ABS_COUNT",
            SeekUnit::TrackNr => "TRACK_NR",
            SeekUnit::RelTime => "REL_TIME",
        }
    }

    /// The unit that `text` writes.
    pub fn from_text(text: &str) -> (r: Option<SeekUnit>)
        ensures
            r == parsed_unit(text@),
    {
        if same_text(text, "ABS_COUNT") {
            Some(SeekUnit::AbsCount)
        } else if same_text(text, "TRACK_NR") {
            Some(SeekUnit::TrackNr)
        } else if same_text(text, "REL_TIME") {
            Some(SeekUnit::RelTime)
        } else {
            None
        }
    }
}

/// Every play speed is read back from the way it is written.
pub proof fn lemma_speed_round_trip(speed: PlaySpeed)
    ensures
        parsed_speed(speed_text(speed)) == Some(speed),
{
}

/// Every seek unit is read back from the way it is written.
pub proof fn lemma_unit_round_trip(unit: SeekUnit)
    ensures
        parsed_unit(unit_text(unit)) == Some(unit),
{
    reveal_strlit("ABS_COUNT");
    reveal_strlit("TRACK_NR");
    reveal_strlit("REL_TIME");
    assert("ABS_COUNT"@.len() == 9);
    assert("TRACK_NR"@.len() == 8);
    assert("REL_TIME"@[0] == 'R');
    assert("TRACK_NR"@[0] == 'T');
}

/// The argument of the actions that name an instance and nothing else.
#[derive(Clone, Debug, PartialEq, Eq)]
pub struct Simple {
    /// The namespace of the service, as the action declares it.
    pub xmlns_u: String,
    /// The instance that the action applies to.
    pub instance_id: u32,
}

/// The arguments of [`AVTransport::SetAVTransportURI`].
#[derive(Clone, Debug, PartialEq, Eq)]
pub struct SetAVTransportURI {
    /// The namespace of the service, as the action declares it.
    pub xmlns_u: String,
    /// The instance that the action applies to.
    pub instance_id: u32,
    /// The URI of the resource.
    pub current_uri: String,
    /// The metadata of the resource, a DIDL-Lite fragment.
    pub current_uri_meta_data: String,
}

/// The arguments of [`AVTransport::SetNextAVTransportURI`].
#[derive(Clone, Debug, PartialEq, Eq)]
pub struct SetNextAVTransportURI {
    /// The namespace of the service, as the action declares it.
    pub xmlns_u: String,
    /// The instance that the action applies to.
    pub instance_id: u32,
    /// The URI of the resource.
    pub next_uri: String,
    /// The metadata of the resource, a DIDL-Lite fragment.
    pub next_uri_meta_data: String,
}

/// The arguments of [`AVTransport::Play`].
#[derive(Clone, Debug, PartialEq, Eq)]
pub struct Play {
    /// The namespace of the service, as the action declares it.
    pub xmlns_u: String,
    /// The speed at which to play.
    pub speed: PlaySpeed,
    /// The instance that the action applies to.
    pub instance_id: u32,
}

/// The arguments of [`AVTransport::Seek`].
#[derive(Clone, Debug, PartialEq, Eq)]
pub struct Seek {
    /// The namespace of the service, as the action declares it.
    pub xmlns_u: String,
    /// The position to seek to, in the unit of `unit`.
    pub target: String,
    /// The unit of `target`.
    pub unit: SeekUnit,
    /// The instance that the action applies to.
    pub instance_id: u32,
}

/// The mathematical value of a [`Simple`].
pub ghost struct SimpleView {
    pub xmlns_u: Seq<char>,
    pub instance_id: u32,
}

/// The mathematical value of a [`SetAVTransportURI`].
pub ghost struct SetAVTransportURIView {
    pub xmlns_u: Seq<char>,
    pub instance_id: u32,
    pub current_uri: Seq<char>,
    pub current_uri_meta_data: Seq<char>,
}

/// The mathematical value of a [`SetNextAVTransportURI`].
pub ghost struct SetNextAVTransportURIView {
    pub xmlns_u: Seq<char>,
    pub instance_id: u32,
    pub next_uri: Seq<char>,
    pub next_uri_meta_data: Seq<char>,
}

/// The mathematical value of a [`Play`].
pub ghost struct PlayView {
    pub xmlns_u: Seq<char>,
    pub speed: PlaySpeed,
    pub instance_id: u32,
}

/// The mathematical value of a [`Seek`].
pub ghost struct SeekView {
    pub xmlns_u: Seq<char>,
    pub target: Seq<char>,
    pub unit: SeekUnit,
    pub instance_id: u32,
}

impl View for Simple {
    type V = SimpleView;

    open spec fn view(&self) -> SimpleView {
        SimpleView { xmlns_u: self.xmlns_u@, instance_id: self.instance_id }
    }
}

impl View for SetAVTransportURI {
    type V = SetAVTransportURIView;

    open spec fn view(&self) -> SetAVTransportURIView {
        SetAVTransportURIView {
            xmlns_u: self.xmlns_u@,
            instance_id: self.instance_id,
            current_uri: self.current_uri@,
            current_uri_meta_data: self.current_uri_meta_data@,
        }
    }
}

impl View for SetNextAVTransportURI {
    type V = SetNextAVTransportURIView;

    open spec fn view(&self) -> SetNextAVTransportURIView {
        SetNextAVTransportURIView {
            xmlns_u: self.xmlns_u@,
            instance_id: self.instance_id,
            next_uri: self.next_uri@,
            next_uri_meta_data: self.next_uri_meta_data@,
        }
    }
}

impl View for Play {
    type V = PlayView;

    open spec fn view(&self) -> PlayView {
        PlayView { xmlns_u: self.xmlns_u@, speed: self.speed, instance_id: self.instance_id }
    }
}

impl View for Seek {
    type V = SeekView;

    open spec fn view(&self) -> SeekView {
        SeekView {
            xmlns_u: self.xmlns_u@,
            target: self.target@,
            unit: self.unit,
            instance_id: self.instance_id,
        }
    }
}

/// The actions of the `AVTransport` service that the renderer decodes.
#[derive(Clone, Debug, PartialEq, Eq)]
pub enum AVTransport {
    /// Sets the URI of the resource that the instance controls.
    SetAVTransportURI(SetAVTransportURI),
    /// Sets the URI of the resource to play when the current one finishes.
    SetNextAVTransportURI(SetNextAVTransportURI),
    /// Asks for information on the current media.
    GetMediaInfo(Simple),
    /// Asks for information on the current transport state.
    GetTransportInfo(Simple),
    /// Asks for information on the current position.
    GetPositionInfo(Simple),
    /// Asks for the capabilities of the device.
    GetDeviceCapabilities(Simple),
    /// Asks for the settings of the instance.
    GetTransportSettings(Simple),
    /// Stops the current resource.
    Stop(Simple),
    /// Starts playing the current resource at the given speed.
    Play(Play),
    /// Halts the current resource while it plays.
    Pause(Simple),
    /// Seeks to the given target position.
    Seek(Seek),
    /// Advances to the next track.
    Next(Simple),
    /// Goes back to the previous track.
    Previous(Simple),
    /// Asks for the actions that are possible now.
    GetCurrentTransportActions(Simple),
}

/// The mathematical value of an [`AVTransport`].
pub ghost enum AVTransportView {
    SetAVTransportURI(SetAVTransportURIView),
    SetNextAVTransportURI(SetNextAVTransportURIView),
    GetMediaInfo(SimpleView),
    GetTransportInfo(SimpleView),
    GetPositionInfo(SimpleView),
    GetDeviceCapabilities(SimpleView),
    GetTransportSettings(SimpleView),
    Stop(SimpleView),
    Play(PlayView),
    Pause(SimpleView),
    Seek(SeekView),
    Next(SimpleView),
    Previous(SimpleView),
    GetCurrentTransportActions(SimpleView),
}

impl View for AVTransport {
    type V = AVTransportView;

    open spec fn view(&self) -> AVTransportView {
        match self {
            AVTransport::SetAVTransportURI(a) => AVTransportView::SetAVTransportURI(a@),
            AVTransport::SetNextAVTransportURI(a) => AVTransportView::SetNextAVTransportURI(a@),
            AVTransport::GetMediaInfo(a) => AVTransportView::GetMediaInfo(a@),
            AVTransport::GetTransportInfo(a) => AVTransportView::GetTransportInfo(a@),
            AVTransport::GetPositionInfo(a) => AVTransportView::GetPositionInfo(a@),
            AVTransport::GetDeviceCapabilities(a) => AVTransportView::GetDeviceCapabilities(a@),
            AVTransport::GetTransportSettings(a) => AVTransportView::GetTransportSettings(a@),
            AVTransport::Stop(a) => AVTransportView::Stop(a@),
            AVTransport::Play(a) => AVTransportView::Play(a@),
            AVTransport::Pause(a) => AVTransportView::Pause(a@),
            AVTransport::Seek(a) => AVTransportView::Seek(a@),
            AVTransport::Next(a) => AVTransportView::Next(a@),
            AVTransport::Previous(a) => AVTransportView::Previous(a@),
            AVTransport::GetCurrentTransportActions(a) => {
                AVTransportView::GetCurrentTransportActions(a@)
            },
        }
    }
}

/// The argument of an action that names an instance and nothing else.
pub open spec fn simple_of(tokens: Seq<TokenView>, action: int) -> Result<
    SimpleView,
    FailureValue,
> {
    match field_number(tokens, action, "InstanceID"@, u32::MAX) {
        Err(failure) => Err(failure),
        Ok(instance_id) => Ok(SimpleView { xmlns_u: namespace(tokens, action), instance_id }),
    }
}

/// The arguments of a `SetAVTransportURI` action.
pub open spec fn set_uri_of(tokens: Seq<TokenView>, action: int) -> Result<
    SetAVTransportURIView,
    FailureValue,
> {
    match simple_of(tokens, action) {
        Err(failure) => Err(failure),
        Ok(simple) => match field_text(tokens, action, "CurrentURI"@) {
            Err(failure) => Err(failure),
            Ok(current_uri) => match field_text(tokens, action, "CurrentURIMetaData"@) {
                Err(failure) => Err(failure),
                Ok(current_uri_meta_data) => Ok(
                    SetAVTransportURIView {
                        xmlns_u: simple.xmlns_u,
                        instance_id: simple.instance_id,
                        current_uri,
                        current_uri_meta_data,
                    },
                ),
            },
        },
    }
}

/// The arguments of a `SetNextAVTransportURI` action.
pub open spec fn set_next_uri_of(tokens: Seq<TokenView>, action: int) -> Result<
    SetNextAVTransportURIView,
    FailureValue,
> {
    match simple_of(tokens, action) {
        Err(failure) => Err(failure),
        Ok(simple) => match field_text(tokens, action, "NextURI"@) {
            Err(failure) => Err(failure),
            Ok(next_uri) => match field_text(tokens, action, "NextURIMetaData"@) {
                Err(failure) => Err(failure),
                Ok(next_uri_meta_data) => Ok(
                    SetNextAVTransportURIView {
                        xmlns_u: simple.xmlns_u,
                        instance_id: simple.instance_id,
                        next_uri,
                        next_uri_meta_data,
                    },
                ),
            },
        },
    }
}

/// The play speed in the field `Speed` of the action.
pub open spec fn field_speed(tokens: Seq<TokenView>, action: int) -> Result<
    PlaySpeed,
    FailureValue,
> {
    match field_text(tokens, action, "Speed"@) {
        Err(failure) => Err(failure),
        Ok(text) => match parsed_speed(text) {
            Some(speed) => Ok(speed),
            None => Err(failure_about(FailureKind::InvalidValue, "Speed"@)),
        },
    }
}

/// The seek unit in the field `Unit` of the action.
pub open spec fn field_unit(tokens: Seq<TokenView>, action: int) -> Result<SeekUnit, FailureValue> {
    match field_text(tokens, action, "Unit"@) {
        Err(failure) => Err(failure),
        Ok(text) => match parsed_unit(text) {
            Some(unit) => Ok(unit),
            None => Err(failure_about(FailureKind::InvalidValue, "Unit"@)),
        },
    }
}

/// The arguments of a `Play` action.
pub open spec fn play_of(tokens: Seq<TokenView>, action: int) -> Result<PlayView, FailureValue> {
    match simple_of(tokens, action) {
        Err(failure) => Err(failure),
        Ok(simple) => match field_speed(tokens, action) {
            Err(failure) => Err(failure),
            Ok(speed) => Ok(
                PlayView { xmlns_u: simple.xmlns_u, speed, instance_id: simple.instance_id },
            ),
        },
    }
}

/// The arguments of a `Seek` action.
pub open spec fn seek_of(tokens: Seq<TokenView>, action: int) -> Result<SeekView, FailureValue> {
    match simple_of(tokens, action) {
        Err(failure) => Err(failure),
        Ok(simple) => match field_unit(tokens, action) {
            Err(failure) => Err(failure),
            Ok(unit) => match field_text(tokens, action, "Target"@) {
                Err(failure) => Err(failure),
                Ok(target) => Ok(
                    SeekView {
                        xmlns_u: simple.xmlns_u,
                        target,
                        unit,
                        instance_id: simple.instance_id,
                    },
                ),
            },
        },
    }
}

/// The argument of an action that names an instance and nothing else,
/// as the action that `wrap` makes of it.
pub open spec fn simple_action(
    tokens: Seq<TokenView>,
    action: int,
    wrap: spec_fn(SimpleView) -> AVTransportView,
) -> Result<AVTransportView, FailureValue> {
    match simple_of(tokens, action) {
        Ok(simple) => Ok(wrap(simple)),
        Err(failure) => Err(failure),
    }
}

/// The action that token `action` opens: its name without prefix selects
/// the kind of action, its child elements give the arguments. A name that
/// is none of the service's decoded actions is not recognized.
pub open spec fn av_transport_action(tokens: Seq<TokenView>, action: int) -> Result<
    AVTransportView,
    FailureValue,
> {
    let name = action_name(tokens, action);
    if name == "SetAVTransportURI"@ {
        match set_uri_of(tokens, action) {
            Ok(arguments) => Ok(AVTransportView::SetAVTransportURI(arguments)),
            Err(failure) => Err(failure),
        }
    } else if name == "SetNextAVTransportURI"@ {
        match set_next_uri_of(tokens, action) {
            Ok(arguments) => Ok(AVTransportView::SetNextAVTransportURI(arguments)),
            Err(failure) => Err(failure),
        }
    } else if name == "Play"@ {
        match play_of(tokens, action) {
            Ok(arguments) => Ok(AVTransportView::Play(arguments)),
            Err(failure) => Err(failure),
        }
    } else if name == "Seek"@ {
        match seek_of(tokens, action) {
            Ok(arguments) => Ok(AVTransportView::Seek(arguments)),
            Err(failure) => Err(failure),
        }
    } else if name == "GetMediaInfo"@ {
        simple_action(tokens, action, |a: SimpleView| AVTransportView::GetMediaInfo(a))
    } else if name == "GetTransportInfo"@ {
        simple_action(tokens, action, |a: SimpleView| AVTransportView::GetTransportInfo(a))
    } else if name == "GetPositionInfo"@ {
        simple_action(tokens, action, |a: SimpleView| AVTransportView::GetPositionInfo(a))
    } else if name == "GetDeviceCapabilities"@ {
        simple_action(tokens, action, |a: SimpleView| AVTransportView::GetDeviceCapabilities(a))
    } else if name == "GetTransportSettings"@ {
        simple_action(tokens, action, |a: SimpleView| AVTransportView::GetTransportSettings(a))
    } else if name == "Stop"@ {
        simple_action(tokens, action, |a: SimpleView| AVTransportView::Stop(a))
    } else if name == "Pause"@ {
        simple_action(tokens, action, |a: SimpleView| AVTransportView::Pause(a))
    } else if name == "Next"@ {
        simple_action(tokens, action, |a: SimpleView| AVTransportView::Next(a))
    } else if name == "Previous"@ {
        simple_action(tokens, action, |a: SimpleView| AVTransportView::Previous(a))
    } else if name == "GetCurrentTransportActions"@ {
        simple_action(
            tokens,
            action,
            |a: SimpleView| AVTransportView::GetCurrentTransportActions(a),
        )
    } else {
        Err(failure_about(FailureKind::UnknownAction, name))
    }
}

/// The action that a control message with the tokens `tokens` asks for.
pub open spec fn decode_av_transport(tokens: Seq<TokenView>) -> Result<
    AVTransportView,
    FailureValue,
> {
    match action_position(tokens) {
        Some(action) => av_transport_action(tokens, action),
        None => Err(malformed()),
    }
}

/// The action that a control message with the body `text` asks for.
pub open spec fn av_transport_of(text: Seq<char>) -> Result<AVTransportView, FailureValue> {
    match tokens_of(text) {
        Some(tokens) => decode_av_transport(tokens),
        None => Err(malformed()),
    }
}

/// Reads the argument of an action that names an instance and nothing
/// else.
pub fn read_simple(document: &Document, action: usize) -> (r: Result<Simple, ParseFailure>)
    requires
        action < document@.len(),
    ensures
        viewed(r) == simple_of(document@, action as int),
{
    let instance_id = read_number(document, action, "InstanceID", u32::MAX)?;
    let xmlns_u = read_namespace(document, action);
    Ok(Simple { xmlns_u, instance_id })
}

/// Reads the arguments of a `SetAVTransportURI` action.
pub fn read_set_uri(document: &Document, action: usize) -> (r: Result<
    SetAVTransportURI,
    ParseFailure,
>)
    requires
        action < document@.len(),
    ensures
        viewed(r) == set_uri_of(document@, action as int),
{
    let simple = read_simple(document, action)?;
    let current_uri = read_text(document, action, "CurrentURI")?;
    let current_uri_meta_data = read_text(document, action, "CurrentURIMetaData")?;
    Ok(
        SetAVTransportURI {
            xmlns_u: simple.xmlns_u,
            instance_id: simple.instance_id,
            current_uri,
            current_uri_meta_data,
        },
    )
}

/// Reads the arguments of a `SetNextAVTransportURI` action.
pub fn read_set_next_uri(document: &Document, action: usize) -> (r: Result<
    SetNextAVTransportURI,
    ParseFailure,
>)
    requires
        action < document@.len(),
    ensures
        viewed(r) == set_next_uri_of(document@, action as int),
{
    let simple = read_simple(document, action)?;
    let next_uri = read_text(document, action, "NextURI")?;
    let next_uri_meta_data = read_text(document, action, "NextURIMetaData")?;
    Ok(
        SetNextAVTransportURI {
            xmlns_u: simple.xmlns_u,
            instance_id: simple.instance_id,
            next_uri,
            next_uri_meta_data,
        },
    )
}

/// Reads the arguments of a `Play` action.
pub fn read_play(document: &Document, action: usize) -> (r: Result<Play, ParseFailure>)
    requires
        action < document@.len(),
    ensures
        viewed(r) == play_of(document@, action as int),
{
    let simple = read_simple(document, action)?;
    let text = read_text(document, action, "Speed")?;
    match PlaySpeed::from_text(text.as_str()) {
        Some(speed) => Ok(
            Play { xmlns_u: simple.xmlns_u, speed, instance_id: simple.instance_id },
        ),
        None => Err(ParseFailure::about(FailureKind::InvalidValue, "Speed")),
    }
}

/// Reads the arguments of a `Seek` action.
pub fn read_seek(document: &Document, action: usize) -> (r: Result<Seek, ParseFailure>)
    requires
        action < document@.len(),
    ensures
        viewed(r) == seek_of(document@, action as int),
{
    let simple = read_simple(document, action)?;
    let text = read_text(document, action, "Unit")?;
    let unit = match SeekUnit::from_text(text.as_str()) {
        Some(unit) => unit,
        None => {
            return Err(ParseFailure::about(FailureKind::InvalidValue, "Unit"));
        },
    };
    let target = read_text(document, action, "Target")?;
    Ok(Seek { xmlns_u: simple.xmlns_u, target, unit, instance_id: simple.instance_id })
}

/// Reads the action that token `action` opens.
pub fn read_action(document: &Document, action: usize) -> (r: Result<AVTransport, ParseFailure>)
    requires
        action < document@.len(),
    ensures
        viewed(r) == av_transport_action(document@, action as int),
{
    let name = read_action_name(document, action);
    let name = name.as_str();
    if same_text(name, "SetAVTransportURI") {
        Ok(AVTransport::SetAVTransportURI(read_set_uri(document, action)?))
    } else if same_text(name, "SetNextAVTransportURI") {
        Ok(AVTransport::SetNextAVTransportURI(read_set_next_uri(document, action)?))
    } else if same_text(name, "Play") {
        Ok(AVTransport::Play(read_play(document, action)?))
    } else if same_text(name, "Seek") {
        Ok(AVTransport::Seek(read_seek(document, action)?))
    } else if same_text(name, "GetMediaInfo") {
        Ok(AVTransport::GetMediaInfo(read_simple(document, action)?))
    } else if same_text(name, "GetTransportInfo") {
        Ok(AVTransport::GetTransportInfo(read_simple(document, action)?))
    } else if same_text(name, "GetPositionInfo") {
        Ok(AVTransport::GetPositionInfo(read_simple(document, action)?))
    } else if same_text(name, "GetDeviceCapabilities") {
        Ok(AVTransport::GetDeviceCapabilities(read_simple(document, action)?))
    } else if same_text(name, "GetTransportSettings") {
        Ok(AVTransport::GetTransportSettings(read_simple(document, action)?))
    } else if same_text(name, "Stop") {
        Ok(AVTransport::Stop(read_simple(document, action)?))
    } else if same_text(name, "Pause") {
        Ok(AVTransport::Pause(read_simple(document, action)?))
    } else if same_text(name, "Next") {
        Ok(AVTransport::Next(read_simple(document, action)?))
    } else if same_text(name, "Previous") {
        Ok(AVTransport::Previous(read_simple(document, action)?))
    } else if same_text(name, "GetCurrentTransportActions") {
        Ok(AVTransport::GetCurrentTransportActions(read_simple(document, action)?))
    } else {
        Err(ParseFailure::about(FailureKind::UnknownAction, name))
    }
}

/// Reads the action of a control message.
pub fn read_message(document: &Document) -> (r: Result<AVTransport, ParseFailure>)
    ensures
        viewed(r) == decode_av_transport(document@),
{
    match locate_action(document) {
        Some(action) => read_action(document, action),
        None => Err(ParseFailure::malformed()),
    }
}

impl AVTransport {
    /// Decodes the action of a control message from the tokens of its
    /// body.
    pub fn decode(tokens: Vec<XmlToken>) -> (r: Result<AVTransport, ParseFailure>)
        ensures
            viewed(r) == decode_av_transport(token_views(tokens@)),
    {
        match Document::outline(tokens) {
            Some(document) => read_message(&document),
            None => Err(ParseFailure::malformed()),
        }
    }

    /// Decodes the action of a control message from its body, whatever
    /// the envelope around the action declares.
    pub fn parse(text: &str) -> (r: Result<AVTransport, ParseFailure>)
        ensures
            viewed(r) == av_transport_of(text@),
    {
        match tokenize(text) {
            Some(tokens) => AVTransport::decode(tokens),
            None => Err(ParseFailure::malformed()),
        }
    }
}

impl core::str::FromStr for AVTransport {
    type Err = ParseFailure;

    /// Decodes as [`AVTransport::parse`] does.
    fn from_str(s: &str) -> (r: Result<AVTransport, ParseFailure>)
        ensures
            viewed(r) == av_transport_of(s@),
    {
        AVTransport::parse(s)
    }
}

/// The body of an envelope: the action it holds.
#[derive(Clone, Debug, PartialEq, Eq)]
pub struct SBody {
    pub content: AVTransport,
}

/// A control message of the `AVTransport` service: the envelope with what
/// it declares, and the action in its body.
#[derive(Clone, Debug, PartialEq, Eq)]
pub struct AVTransportEnvelope {
    /// The value of the envelope's attribute `s:encodingStyle`.
    pub s_encoding_style: String,
    /// The value of the envelope's attribute `xmlns:s`.
    pub xmlns_s: String,
    /// The body of the envelope.
    pub s_body: SBody,
}

/// The mathematical value of an [`AVTransportEnvelope`].
pub ghost struct AVTransportEnvelopeView {
    pub s_encoding_style: Seq<char>,
    pub xmlns_s: Seq<char>,
    pub content: AVTransportView,
}

impl View for AVTransportEnvelope {
    type V = AVTransportEnvelopeView;

    open spec fn view(&self) -> AVTransportEnvelopeView {
        AVTransportEnvelopeView {
            s_encoding_style: self.s_encoding_style@,
            xmlns_s: self.xmlns_s@,
            content: self.s_body.content@,
        }
    }
}

/// The envelope of a control message with the tokens `tokens`: what its
/// outermost element declares, and the action in its body.
pub open spec fn decode_av_transport_envelope(tokens: Seq<TokenView>) -> Result<
    AVTransportEnvelopeView,
    FailureValue,
> {
    match envelope_position(tokens) {
        None => Err(malformed()),
        Some(envelope) => match decode_av_transport(tokens) {
            Err(failure) => Err(failure),
            Ok(content) => Ok(
                AVTransportEnvelopeView {
                    s_encoding_style: attribute_text(tokens, envelope, "s:encodingStyle"@),
                    xmlns_s: attribute_text(tokens, envelope, "xmlns:s"@),
                    content,
                },
            ),
        },
    }
}

/// The envelope of a control message with the body `text`.
pub open spec fn av_transport_envelope_of(text: Seq<char>) -> Result<
    AVTransportEnvelopeView,
    FailureValue,
> {
    match tokens_of(text) {
        Some(tokens) => decode_av_transport_envelope(tokens),
        None => Err(malformed()),
    }
}

impl AVTransportEnvelope {
    /// Decodes a control message from the tokens of its body.
    pub fn decode(tokens: Vec<XmlToken>) -> (r: Result<AVTransportEnvelope, ParseFailure>)
        ensures
            viewed(r) == decode_av_transport_envelope(token_views(tokens@)),
    {
        let document = match Document::outline(tokens) {
            Some(document) => document,
            None => {
                return Err(ParseFailure::malformed());
            },
        };
        let envelope = match locate_envelope(&document) {
            Some(envelope) => envelope,
            None => {
                return Err(ParseFailure::malformed());
            },
        };
        let content = read_message(&document)?;
        let s_encoding_style = read_attribute(&document, envelope, "s:encodingStyle");
        let xmlns_s = read_attribute(&document, envelope, "xmlns:s");
        Ok(AVTransportEnvelope { s_encoding_style, xmlns_s, s_body: SBody { content } })
    }

    /// Decodes a control message from its body.
    pub fn parse(text: &str) -> (r: Result<AVTransportEnvelope, ParseFailure>)
        ensures
            viewed(r) == av_transport_envelope_of(text@),
    {
        match tokenize(text) {
            Some(tokens) => AVTransportEnvelope::decode(tokens),
            None => Err(ParseFailure::malformed()),
        }
    }

    /// The action in the body of the envelope.
    #[must_use]
    pub fn into_inner(self) -> (r: AVTransport)
        ensures
            r == self.s_body.content,
    {
        self.s_body.content
    }
}

/// The action of a decoded envelope is the action that the message
/// decodes to by itself.
pub proof fn lemma_envelope_holds_action(text: Seq<char>)
    ensures
        av_transport_envelope_of(text) matches Ok(envelope) ==> av_transport_of(text) == Ok::<
            AVTransportView,
            FailureValue,
        >(envelope.content),
{
}

/// What is worth a line in a log of an action: the URI that is set, the
/// speed of playing, or the bare name of an action that changes what is
/// played. The queries are worth none.
pub open spec fn av_transport_note(action: AVTransportView) -> Option<Seq<char>> {
    match action {
        AVTransportView::SetAVTransportURI(set) => Some(
            "AVTransport::SetAvTransportUri current_uri: "@ + set.current_uri,
        ),
        AVTransportView::SetNextAVTransportURI(set) => Some(
            "AVTransport::SetNextAvTransportUri next_uri: "@ + set.next_uri,
        ),
        AVTransportView::Stop(_) => Some("AVTransport::Stop"@),
        AVTransportView::Play(play) => Some("AVTransport::Play speed: "@ + speed_text(play.speed)),
        AVTransportView::Pause(_) => Some("AVTransport::Pause"@),
        AVTransportView::Next(_) => Some("AVTransport::Next"@),
        AVTransportView::Previous(_) => Some("AVTransport::Previous"@),
        _ => None,
    }
}

impl AVTransport {
    /// What is worth a line in a log of the action.
    pub fn note(&self) -> (r: Option<String>)
        ensures
            match r {
                Some(line) => av_transport_note(self@) == Some(line@),
                None => av_transport_note(self@) is None,
            },
    {
        match self {
            AVTransport::SetAVTransportURI(set) => {
                let mut line = String::from_str("AVTransport::SetAvTransportUri current_uri: ");
                line.append(set.current_uri.as_str());
                Some(line)
            },
            AVTransport::SetNextAVTransportURI(set) => {
                let mut line = String::from_str("AVTransport::SetNextAvTransportUri next_uri: ");
                line.append(set.next_uri.as_str());
                Some(line)
            },
            AVTransport::Stop(_) => Some(String::from_str("AVTransport::Stop")),
            AVTransport::Play(play) => {
                let mut line = String::from_str("AVTransport::Play speed: ");
                line.append(play.speed.as_str());
                Some(line)
            },
            AVTransport::Pause(_) => Some(String::from_str("AVTransport::Pause")),
            AVTransport::Next(_) => Some(String::from_str("AVTransport::Next")),
            AVTransport::Previous(_) => Some(String::from_str("AVTransport::Previous")),
            _ => None,
        }
    }
}

/// The names of the actions differ, and none is the name of another with
/// something in front or behind.
proof fn lemma_names_differ()
    ensures
        "Play"@ != "SetAVTransportURI"@,
        "Play"@ != "SetNextAVTransportURI"@,
        "Seek"@ != "SetAVTransportURI"@,
        "Seek"@ != "SetNextAVTransportURI"@,
        "Seek"@ != "Play"@,
{
    reveal_strlit("Play");
    reveal_strlit("Seek");
    reveal_strlit("SetAVTransportURI");
    reveal_strlit("SetNextAVTransportURI");
    assert("Play"@.len() == 4);
    assert("Seek"@.len() == 4);
    assert("SetAVTransportURI"@.len() == 17);
    assert("SetNextAVTransportURI"@.len() == 21);
    assert("Play"@[0] == 'P');
    assert("Seek"@[0] == 'S');
}

/// A `Play` action is decoded only where the text of its field `Speed`
/// writes a speed, and a `Seek` action only where the text of its field
/// `Unit` writes a unit: nothing is put in the place of a spelling that
/// is not recognized.
pub proof fn lemma_unrecognized_spelling_fails(tokens: Seq<TokenView>, action: int)
    requires
        (action_name(tokens, action) == "Play"@ && (field_text(tokens, action, "Speed"@) matches Ok(
            text,
        ) && parsed_speed(text) is None)) || (action_name(tokens, action) == "Seek"@ && (field_text(
            tokens,
            action,
            "Unit"@,
        ) matches Ok(text) && parsed_unit(text) is None)),
    ensures
        av_transport_action(tokens, action) is Err,
{
    lemma_names_differ();
}

} // verus!
