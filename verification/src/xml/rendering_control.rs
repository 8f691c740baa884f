//! The actions of the `RenderingControl` service and their decoding from a
//! control message.

use crate::text::{decimal, decimal_text, same_text};
use crate::xml::document::Document;
use crate::xml::message::{
    action_name, action_position, attribute_text, envelope_position, failure_about, field_flag,
    field_number, field_text, locate_action, locate_envelope, malformed, namespace, parsed_flag,
    read_action_name, read_attribute, read_flag, read_namespace, read_number, read_text, viewed,
    FailureKind, FailureValue, ParseFailure,
};
use crate::xml::reader::{token_views, tokenize, tokens_of, TokenView, XmlToken};
use vstd::prelude::*;

verus! {

/// The presets that can be selected. Only the factory defaults are
/// supported.
#[derive(Clone, Copy, Debug, PartialEq, Eq, Structural)]
pub enum PresetName {
    /// The settings that the manufacturer defined, written
    /// `FactoryDefaults`.
    FactoryDefaults,
}

/// The channels of an audio output stream. Only the master channel is
/// supported.
#[derive(Clone, Copy, Debug, PartialEq, Eq, Structural)]
pub enum Channel {
    /// The master channel, written `Master`.
    Master,
}

/// How a preset is written.
pub open spec fn preset_text(preset: PresetName) -> Seq<char> {
    match preset {
        PresetName::FactoryDefaults => "FactoryDefaults"@,
    }
}

/// The preset that a text writes.
pub open spec fn parsed_preset(text: Seq<char>) -> Option<PresetName> {
    if text == "FactoryDefaults"@ {
        Some(PresetName::FactoryDefaults)
    } else {
        None
    }
}

/// How a channel is written.
pub open spec fn channel_text(channel: Channel) -> Seq<char> {
    match channel {
        Channel::Master => "Master"@,
    }
}

/// The channel that a text writes.
pub open spec fn parsed_channel(text: Seq<char>) -> Option<Channel> {
    if text == "Master"@ {
        Some(Channel::Master)
    } else {
        None
    }
}

impl PresetName {
    /// How the preset is written.
    pub fn as_str(&self) -> (r: &'static str)
        ensures
            r@ == preset_text(*self),
    {
        match self {
            PresetName::FactoryDefaults => "FactoryDefaults",
        }
    }

    /// The preset that `text` writes.
    pub fn from_text(text: &str) -> (r: Option<PresetName>)
        ensures
            r == parsed_preset(text@),
    {
        if same_text(text, "FactoryDefaults") {
            Some(PresetName::FactoryDefaults)
        } else {
            None
        }
    }
}

impl Channel {
    /// How the channel is written.
    pub fn as_str(&self) -> (r: &'static str)
        ensures
            r@ == channel_text(*self),
    {
        match self {
            Channel::Master => "Master",
        }
    }

    /// The channel that `text` writes.
    pub fn from_text(text: &str) -> (r: Option<Channel>)
        ensures
            r == parsed_channel(text@),
    {
        if same_text(text, "Master") {
            Some(Channel::Master)
        } else {
            None
        }
    }
}

/// Every preset is read back from the way it is written.
pub proof fn lemma_preset_round_trip(preset: PresetName)
    ensures
        parsed_preset(preset_text(preset)) == Some(preset),
{
}

/// Every channel is read back from the way it is written.
pub proof fn lemma_channel_round_trip(channel: Channel)
    ensures
        parsed_channel(channel_text(channel)) == Some(channel),
{
}

/// The arguments of [`RenderingControl::ListPresets`].
#[derive(Clone, Debug, PartialEq, Eq)]
pub struct ListPresets {
    /// The namespace of the service, as the action declares it.
    pub xmlns_u: String,
    /// The instance that the action applies to.
    pub instance_id: u32,
}

/// The arguments of [`RenderingControl::SelectPreset`].
#[derive(Clone, Debug, PartialEq, Eq)]
pub struct SelectPreset {
    /// The namespace of the service, as the action declares it.
    pub xmlns_u: String,
    /// The preset to restore.
    pub preset_name: PresetName,
    /// The instance that the action applies to.
    pub instance_id: u32,
}

/// The arguments of [`RenderingControl::GetMute`].
#[derive(Clone, Debug, PartialEq, Eq)]
pub struct GetMute {
    /// The namespace of the service, as the action declares it.
    pub xmlns_u: String,
    /// The channel that is asked about.
    pub channel: Channel,
    /// The instance that the action applies to.
    pub instance_id: u32,
}

/// The arguments of [`RenderingControl::SetMute`].
#[derive(Clone, Debug, PartialEq, Eq)]
pub struct SetMute {
    /// The namespace of the service, as the action declares it.
    pub xmlns_u: String,
    /// Whether the channel is to be muted.
    pub desired_mute: bool,
    /// The channel to set.
    pub channel: Channel,
    /// The instance that the action applies to.
    pub instance_id: u32,
}

/// The arguments of [`RenderingControl::GetVolume`].
#[derive(Clone, Debug, PartialEq, Eq)]
pub struct GetVolume {
    /// The namespace of the service, as the action declares it.
    pub xmlns_u: String,
    /// The channel that is asked about.
    pub channel: Channel,
    /// The instance that the action applies to.
    pub instance_id: u32,
}

/// The arguments of [`RenderingControl::SetVolume`].
#[derive(Clone, Debug, PartialEq, Eq)]
pub struct SetVolume {
    /// The namespace of the service, as the action declares it.
    pub xmlns_u: String,
    /// The volume to set.
    pub desired_volume: u16,
    /// The channel to set.
    pub channel: Channel,
    /// The instance that the action applies to.
    pub instance_id: u32,
}

/// The mathematical value of a [`ListPresets`].
pub ghost struct ListPresetsView {
    pub xmlns_u: Seq<char>,
    pub instance_id: u32,
}

/// The mathematical value of a [`SelectPreset`].
pub ghost struct SelectPresetView {
    pub xmlns_u: Seq<char>,
    pub preset_name: PresetName,
    pub instance_id: u32,
}

/// The mathematical value of a [`GetMute`].
pub ghost struct GetMuteView {
    pub xmlns_u: Seq<char>,
    pub channel: Channel,
    pub instance_id: u32,
}

/// The mathematical value of a [`SetMute`].
pub ghost struct SetMuteView {
    pub xmlns_u: Seq<char>,
    pub desired_mute: bool,
    pub channel: Channel,
    pub instance_id: u32,
}

/// The mathematical value of a [`GetVolume`].
pub ghost struct GetVolumeView {
    pub xmlns_u: Seq<char>,
    pub channel: Channel,
    pub instance_id: u32,
}

/// The mathematical value of a [`SetVolume`].
pub ghost struct SetVolumeView {
    pub xmlns_u: Seq<char>,
    pub desired_volume: u16,
    pub channel: Channel,
    pub instance_id: u32,
}

impl View for ListPresets {
    type V = ListPresetsView;

    open spec fn view(&self) -> ListPresetsView {
        ListPresetsView { xmlns_u: self.xmlns_u@, instance_id: self.instance_id }
    }
}

impl View for SelectPreset {
    type V = SelectPresetView;

    open spec fn view(&self) -> SelectPresetView {
        SelectPresetView {
            xmlns_u: self.xmlns_u@,
            preset_name: self.preset_name,
            instance_id: self.instance_id,
        }
    }
}

impl View for GetMute {
    type V = GetMuteView;

    open spec fn view(&self) -> GetMuteView {
        GetMuteView {
            xmlns_u: self.xmlns_u@,
            channel: self.channel,
            instance_id: self.instance_id,
        }
    }
}

impl View for SetMute {
    type V = SetMuteView;

    open spec fn view(&self) -> SetMuteView {
        SetMuteView {
            xmlns_u: self.xmlns_u@,
            desired_mute: self.desired_mute,
            channel: self.channel,
            instance_id: self.instance_id,
        }
    }
}

impl View for GetVolume {
    type V = GetVolumeView;

    open spec fn view(&self) -> GetVolumeView {
        GetVolumeView {
            xmlns_u: self.xmlns_u@,
            channel: self.channel,
            instance_id: self.instance_id,
        }
    }
}

impl View for SetVolume {
    type V = SetVolumeView;

    open spec fn view(&self) -> SetVolumeView {
        SetVolumeView {
            xmlns_u: self.xmlns_u@,
            desired_volume: self.desired_volume,
            channel: self.channel,
            instance_id: self.instance_id,
        }
    }
}

/// The actions of the `RenderingControl` service that the renderer
/// decodes.
#[derive(Clone, Debug, PartialEq, Eq)]
pub enum RenderingControl {
    /// Asks for the presets that are defined.
    ListPresets(ListPresets),
    /// Restores the settings of a preset.
    SelectPreset(SelectPreset),
    /// Asks whether a channel is muted.
    GetMute(GetMute),
    /// Mutes a channel or ends its muting.
    SetMute(SetMute),
    /// Asks for the volume of a channel.
    GetVolume(GetVolume),
    /// Sets the volume of a channel.
    SetVolume(SetVolume),
}

/// The mathematical value of a [`RenderingControl`].
pub ghost enum RenderingControlView {
    ListPresets(ListPresetsView),
    SelectPreset(SelectPresetView),
    GetMute(GetMuteView),
    SetMute(SetMuteView),
    GetVolume(GetVolumeView),
    SetVolume(SetVolumeView),
}

impl View for RenderingControl {
    type V = RenderingControlView;

    open spec fn view(&self) -> RenderingControlView {
        match self {
            RenderingControl::ListPresets(a) => RenderingControlView::ListPresets(a@),
            RenderingControl::SelectPreset(a) => RenderingControlView::SelectPreset(a@),
            RenderingControl::GetMute(a) => RenderingControlView::GetMute(a@),
            RenderingControl::SetMute(a) => RenderingControlView::SetMute(a@),
            RenderingControl::GetVolume(a) => RenderingControlView::GetVolume(a@),
            RenderingControl::SetVolume(a) => RenderingControlView::SetVolume(a@),
        }
    }
}

/// The arguments of a `ListPresets` action.
pub open spec fn list_presets_of(tokens: Seq<TokenView>, action: int) -> Result<
    ListPresetsView,
    FailureValue,
> {
    match field_number(tokens, action, "InstanceID"@, u32::MAX) {
        Err(failure) => Err(failure),
        Ok(instance_id) => Ok(ListPresetsView { xmlns_u: namespace(tokens, action), instance_id }),
    }
}

/// The preset in the field `PresetName` of the action.
pub open spec fn field_preset(tokens: Seq<TokenView>, action: int) -> Result<
    PresetName,
    FailureValue,
> {
    match field_text(tokens, action, "PresetName"@) {
        Err(failure) => Err(failure),
        Ok(text) => match parsed_preset(text) {
            Some(preset) => Ok(preset),
            None => Err(failure_about(FailureKind::InvalidValue, "PresetName"@)),
        },
    }
}

/// The channel in the field `Channel` of the action.
pub open spec fn field_channel(tokens: Seq<TokenView>, action: int) -> Result<
    Channel,
    FailureValue,
> {
    match field_text(tokens, action, "Channel"@) {
        Err(failure) => Err(failure),
        Ok(text) => match parsed_channel(text) {
            Some(channel) => Ok(channel),
            None => Err(failure_about(FailureKind::InvalidValue, "Channel"@)),
        },
    }
}

/// The arguments of a `SelectPreset` action.
pub open spec fn select_preset_of(tokens: Seq<TokenView>, action: int) -> Result<
    SelectPresetView,
    FailureValue,
> {
    match list_presets_of(tokens, action) {
        Err(failure) => Err(failure),
        Ok(head) => match field_preset(tokens, action) {
            Err(failure) => Err(failure),
            Ok(preset_name) => Ok(
                SelectPresetView {
                    xmlns_u: head.xmlns_u,
                    preset_name,
                    instance_id: head.instance_id,
                },
            ),
        },
    }
}

/// The arguments of a `GetMute` action.
pub open spec fn get_mute_of(tokens: Seq<TokenView>, action: int) -> Result<
    GetMuteView,
    FailureValue,
> {
    match list_presets_of(tokens, action) {
        Err(failure) => Err(failure),
        Ok(head) => match field_channel(tokens, action) {
            Err(failure) => Err(failure),
            Ok(channel) => Ok(
                GetMuteView { xmlns_u: head.xmlns_u, channel, instance_id: head.instance_id },
            ),
        },
    }
}

/// The arguments of a `SetMute` action.
pub open spec fn set_mute_of(tokens: Seq<TokenView>, action: int) -> Result<
    SetMuteView,
    FailureValue,
> {
    match get_mute_of(tokens, action) {
        Err(failure) => Err(failure),
        Ok(head) => match field_flag(tokens, action, "DesiredMute"@) {
            Err(failure) => Err(failure),
            Ok(desired_mute) => Ok(
                SetMuteView {
                    xmlns_u: head.xmlns_u,
                    desired_mute,
                    channel: head.channel,
                    instance_id: head.instance_id,
                },
            ),
        },
    }
}

/// The arguments of a `GetVolume` action.
pub open spec fn get_volume_of(tokens: Seq<TokenView>, action: int) -> Result<
    GetVolumeView,
    FailureValue,
> {
    match get_mute_of(tokens, action) {
        Err(failure) => Err(failure),
        Ok(head) => Ok(
            GetVolumeView {
                xmlns_u: head.xmlns_u,
                channel: head.channel,
                instance_id: head.instance_id,
            },
        ),
    }
}

/// The arguments of a `SetVolume` action.
pub open spec fn set_volume_of(tokens: Seq<TokenView>, action: int) -> Result<
    SetVolumeView,
    FailureValue,
> {
    match get_mute_of(tokens, action) {
        Err(failure) => Err(failure),
        Ok(head) => match field_number(tokens, action, "DesiredVolume"@, 0xffff) {
            Err(failure) => Err(failure),
            Ok(volume) => Ok(
                SetVolumeView {
                    xmlns_u: head.xmlns_u,
                    desired_volume: volume as u16,
                    channel: head.channel,
                    instance_id: head.instance_id,
                },
            ),
        },
    }
}

/// The action that token `action` opens: its name without prefix selects
/// the kind of action, its child elements give the arguments. A name that
/// is none of the service's decoded actions is not recognized.
pub open spec fn rendering_control_action(tokens: Seq<TokenView>, action: int) -> Result<
    RenderingControlView,
    FailureValue,
> {
    let name = action_name(tokens, action);
    if name == "ListPresets"@ {
        match list_presets_of(tokens, action) {
            Ok(arguments) => Ok(RenderingControlView::ListPresets(arguments)),
            Err(failure) => Err(failure),
        }
    } else if name == "SelectPreset"@ {
        match select_preset_of(tokens, action) {
            Ok(arguments) => Ok(RenderingControlView::SelectPreset(arguments)),
            Err(failure) => Err(failure),
        }
    } else if name == "GetMute"@ {
        match get_mute_of(tokens, action) {
            Ok(arguments) => Ok(RenderingControlView::GetMute(arguments)),
            Err(failure) => Err(failure),
        }
    } else if name == "SetMute"@ {
        match set_mute_of(tokens, action) {
            Ok(arguments) => Ok(RenderingControlView::SetMute(arguments)),
            Err(failure) => Err(failure),
        }
    } else if name == "GetVolume"@ {
        match get_volume_of(tokens, action) {
            Ok(arguments) => Ok(RenderingControlView::GetVolume(arguments)),
            Err(failure) => Err(failure),
        }
    } else if name == "SetVolume"@ {
        match set_volume_of(tokens, action) {
            Ok(arguments) => Ok(RenderingControlView::SetVolume(arguments)),
            Err(failure) => Err(failure),
        }
    } else {
        Err(failure_about(FailureKind::UnknownAction, name))
    }
}

/// The action that a control message with the tokens `tokens` asks for.
pub open spec fn decode_rendering_control(tokens: Seq<TokenView>) -> Result<
    RenderingControlView,
    FailureValue,
> {
    match action_position(tokens) {
        Some(action) => rendering_control_action(tokens, action),
        None => Err(malformed()),
    }
}

/// The action that a control message with the body `text` asks for.
pub open spec fn rendering_control_of(text: Seq<char>) -> Result<
    RenderingControlView,
    FailureValue,
> {
    match tokens_of(text) {
        Some(tokens) => decode_rendering_control(tokens),
        None => Err(malformed()),
    }
}

/// Reads the arguments of a `ListPresets` action.
pub fn read_list_presets(document: &Document, action: usize) -> (r: Result<
    ListPresets,
    ParseFailure,
>)
    requires
        action < document@.len(),
    ensures
        viewed(r) == list_presets_of(document@, action as int),
{
    let instance_id = read_number(document, action, "InstanceID", u32::MAX)?;
    let xmlns_u = read_namespace(document, action);
    Ok(ListPresets { xmlns_u, instance_id })
}

/// Reads the arguments of a `SelectPreset` action.
pub fn read_select_preset(document: &Document, action: usize) -> (r: Result<
    SelectPreset,
    ParseFailure,
>)
    requires
        action < document@.len(),
    ensures
        viewed(r) == select_preset_of(document@, action as int),
{
    let head = read_list_presets(document, action)?;
    let text = read_text(document, action, "PresetName")?;
    match PresetName::from_text(text.as_str()) {
        Some(preset_name) => Ok(
            SelectPreset { xmlns_u: head.xmlns_u, preset_name, instance_id: head.instance_id },
        ),
        None => Err(ParseFailure::about(FailureKind::InvalidValue, "PresetName")),
    }
}

/// Reads the arguments of a `GetMute` action.
pub fn read_get_mute(document: &Document, action: usize) -> (r: Result<GetMute, ParseFailure>)
    requires
        action < document@.len(),
    ensures
        viewed(r) == get_mute_of(document@, action as int),
{
    let head = read_list_presets(document, action)?;
    let text = read_text(document, action, "Channel")?;
    match Channel::from_text(text.as_str()) {
        Some(channel) => Ok(
            GetMute { xmlns_u: head.xmlns_u, channel, instance_id: head.instance_id },
        ),
        None => Err(ParseFailure::about(FailureKind::InvalidValue, "Channel")),
    }
}

/// Reads the arguments of a `SetMute` action.
pub fn read_set_mute(document: &Document, action: usize) -> (r: Result<SetMute, ParseFailure>)
    requires
        action < document@.len(),
    ensures
        viewed(r) == set_mute_of(document@, action as int),
{
    let head = read_get_mute(document, action)?;
    let desired_mute = read_flag(document, action, "DesiredMute")?;
    Ok(
        SetMute {
            xmlns_u: head.xmlns_u,
            desired_mute,
            channel: head.channel,
            instance_id: head.instance_id,
        },
    )
}

/// Reads the arguments of a `GetVolume` action.
pub fn read_get_volume(document: &Document, action: usize) -> (r: Result<
    GetVolume,
    ParseFailure,
>)
    requires
        action < document@.len(),
    ensures
        viewed(r) == get_volume_of(document@, action as int),
{
    let head = read_get_mute(document, action)?;
    Ok(GetVolume { xmlns_u: head.xmlns_u, channel: head.channel, instance_id: head.instance_id })
}

/// Reads the arguments of a `SetVolume` action.
pub fn read_set_volume(document: &Document, action: usize) -> (r: Result<
    SetVolume,
    ParseFailure,
>)
    requires
        action < document@.len(),
    ensures
        viewed(r) == set_volume_of(document@, action as int),
{
    let head = read_get_mute(document, action)?;
    let volume = read_number(document, action, "DesiredVolume", 0xffff)?;
    Ok(
        SetVolume {
            xmlns_u: head.xmlns_u,
            desired_volume: volume as u16,
            channel: head.channel,
            instance_id: head.instance_id,
        },
    )
}

/// Reads the action that token `action` opens.
pub fn read_action(document: &Document, action: usize) -> (r: Result<
    RenderingControl,
    ParseFailure,
>)
    requires
        action < document@.len(),
    ensures
        viewed(r) == rendering_control_action(document@, action as int),
{
    let name = read_action_name(document, action);
    let name = name.as_str();
    if same_text(name, "ListPresets") {
        Ok(RenderingControl::ListPresets(read_list_presets(document, action)?))
    } else if same_text(name, "SelectPreset") {
        Ok(RenderingControl::SelectPreset(read_select_preset(document, action)?))
    } else if same_text(name, "GetMute") {
        Ok(RenderingControl::GetMute(read_get_mute(document, action)?))
    } else if same_text(name, "SetMute") {
        Ok(RenderingControl::SetMute(read_set_mute(document, action)?))
    } else if same_text(name, "GetVolume") {
        Ok(RenderingControl::GetVolume(read_get_volume(document, action)?))
    } else if same_text(name, "SetVolume") {
        Ok(RenderingControl::SetVolume(read_set_volume(document, action)?))
    } else {
        Err(ParseFailure::about(FailureKind::UnknownAction, name))
    }
}

/// Reads the action of a control message.
pub fn read_message(document: &Document) -> (r: Result<RenderingControl, ParseFailure>)
    ensures
        viewed(r) == decode_rendering_control(document@),
{
    match locate_action(document) {
        Some(action) => read_action(document, action),
        None => Err(ParseFailure::malformed()),
    }
}

impl RenderingControl {
    /// Decodes the action of a control message from the tokens of its
    /// body.
    pub fn decode(tokens: Vec<XmlToken>) -> (r: Result<RenderingControl, ParseFailure>)
        ensures
            viewed(r) == decode_rendering_control(token_views(tokens@)),
    {
        match Document::outline(tokens) {
            Some(document) => read_message(&document),
            None => Err(ParseFailure::malformed()),
        }
    }

    /// Decodes the action of a control message from its body, whatever
    /// the envelope around the action declares.
    pub fn parse(text: &str) -> (r: Result<RenderingControl, ParseFailure>)
        ensures
            viewed(r) == rendering_control_of(text@),
    {
        match tokenize(text) {
            Some(tokens) => RenderingControl::decode(tokens),
            None => Err(ParseFailure::malformed()),
        }
    }
}

impl core::str::FromStr for RenderingControl {
    type Err = ParseFailure;

    /// Decodes as [`RenderingControl::parse`] does.
    fn from_str(s: &str) -> (r: Result<RenderingControl, ParseFailure>)
        ensures
            viewed(r) == rendering_control_of(s@),
    {
        RenderingControl::parse(s)
    }
}

/// The body of an envelope: the action it holds.
#[derive(Clone, Debug, PartialEq, Eq)]
pub struct SBody {
    pub content: RenderingControl,
}

/// A control message of the `RenderingControl` service: the envelope with
/// what it declares, and the action in its body.
#[derive(Clone, Debug, PartialEq, Eq)]
pub struct RenderingControlEnvelope {
    /// The value of the envelope's attribute `s:encodingStyle`.
    pub s_encoding_style: String,
    /// The value of the envelope's attribute `xmlns:s`.
    pub xmlns_s: String,
    /// The body of the envelope.
    pub s_body: SBody,
}

/// The mathematical value of a [`RenderingControlEnvelope`].
pub ghost struct RenderingControlEnvelopeView {
    pub s_encoding_style: Seq<char>,
    pub xmlns_s: Seq<char>,
    pub content: RenderingControlView,
}

impl View for RenderingControlEnvelope {
    type V = RenderingControlEnvelopeView;

    open spec fn view(&self) -> RenderingControlEnvelopeView {
        RenderingControlEnvelopeView {
            s_encoding_style: self.s_encoding_style@,
            xmlns_s: self.xmlns_s@,
            content: self.s_body.content@,
        }
    }
}

/// The envelope of a control message with the tokens `tokens`: what its
/// outermost element declares, and the action in its body.
pub open spec fn decode_rendering_control_envelope(tokens: Seq<TokenView>) -> Result<
    RenderingControlEnvelopeView,
    FailureValue,
> {
    match envelope_position(tokens) {
        None => Err(malformed()),
        Some(envelope) => match decode_rendering_control(tokens) {
            Err(failure) => Err(failure),
            Ok(content) => Ok(
                RenderingControlEnvelopeView {
                    s_encoding_style: attribute_text(tokens, envelope, "s:encodingStyle"@),
                    xmlns_s: attribute_text(tokens, envelope, "xmlns:s"@),
                    content,
                },
            ),
        },
    }
}

/// The envelope of a control message with the body `text`.
pub open spec fn rendering_control_envelope_of(text: Seq<char>) -> Result<
    RenderingControlEnvelopeView,
    FailureValue,
> {
    match tokens_of(text) {
        Some(tokens) => decode_rendering_control_envelope(tokens),
        None => Err(malformed()),
    }
}

impl RenderingControlEnvelope {
    /// Decodes a control message from the tokens of its body.
    pub fn decode(tokens: Vec<XmlToken>) -> (r: Result<RenderingControlEnvelope, ParseFailure>)
        ensures
            viewed(r) == decode_rendering_control_envelope(token_views(tokens@)),
    {
        let document = match Document::outline(tokens) {
            Some(document) => document,
            None => {
                return Err(ParseFailure::malformed());
            },
        };
        let envelope = match locate_envelope(&document) {
            Some(envelope) => envelope,
            None => {
                return Err(ParseFailure::malformed());
            },
        };
        let content = read_message(&document)?;
        let s_encoding_style = read_attribute(&document, envelope, "s:encodingStyle");
        let xmlns_s = read_attribute(&document, envelope, "xmlns:s");
        Ok(RenderingControlEnvelope { s_encoding_style, xmlns_s, s_body: SBody { content } })
    }

    /// Decodes a control message from its body.
    pub fn parse(text: &str) -> (r: Result<RenderingControlEnvelope, ParseFailure>)
        ensures
            viewed(r) == rendering_control_envelope_of(text@),
    {
        match tokenize(text) {
            Some(tokens) => RenderingControlEnvelope::decode(tokens),
            None => Err(ParseFailure::malformed()),
        }
    }

    /// The action in the body of the envelope.
    #[must_use]
    pub fn into_inner(self) -> (r: RenderingControl)
        ensures
            r == self.s_body.content,
    {
        self.s_body.content
    }
}

/// The action of a decoded envelope is the action that the message
/// decodes to by itself.
pub proof fn lemma_envelope_holds_action(text: Seq<char>)
    ensures
        rendering_control_envelope_of(text) matches Ok(envelope) ==> rendering_control_of(text)
            == Ok::<RenderingControlView, FailureValue>(envelope.content),
{
}

/// The names of the actions differ.
proof fn lemma_names_differ()
    ensures
        "SelectPreset"@ != "ListPresets"@,
        "GetMute"@ != "ListPresets"@,
        "GetMute"@ != "SelectPreset"@,
        "SetMute"@ != "ListPresets"@,
        "SetMute"@ != "SelectPreset"@,
        "SetMute"@ != "GetMute"@,
        "GetVolume"@ != "ListPresets"@,
        "GetVolume"@ != "SelectPreset"@,
        "GetVolume"@ != "GetMute"@,
        "GetVolume"@ != "SetMute"@,
        "SetVolume"@ != "ListPresets"@,
        "SetVolume"@ != "SelectPreset"@,
        "SetVolume"@ != "GetMute"@,
        "SetVolume"@ != "SetMute"@,
        "SetVolume"@ != "GetVolume"@,
{
    reveal_strlit("ListPresets");
    reveal_strlit("SelectPreset");
    reveal_strlit("GetMute");
    reveal_strlit("SetMute");
    reveal_strlit("GetVolume");
    reveal_strlit("SetVolume");
    assert("ListPresets"@.len() == 11);
    assert("SelectPreset"@.len() == 12);
    assert("GetMute"@.len() == 7);
    assert("SetMute"@.len() == 7);
    assert("GetVolume"@.len() == 9);
    assert("SetVolume"@.len() == 9);
    assert("GetMute"@[0] == 'G');
    assert("SetMute"@[0] == 'S');
    assert("GetVolume"@[0] == 'G');
    assert("SetVolume"@[0] == 'S');
}

/// An action that names a channel is decoded only where the text of its
/// field `Channel` writes a channel: nothing is put in the place of a
/// spelling that is not recognized.
pub proof fn lemma_unrecognized_channel_fails(tokens: Seq<TokenView>, action: int)
    requires
        action_name(tokens, action) == "GetMute"@ || action_name(tokens, action) == "SetMute"@
            || action_name(tokens, action) == "GetVolume"@ || action_name(tokens, action)
            == "SetVolume"@,
        field_text(tokens, action, "Channel"@) matches Ok(text) && parsed_channel(text) is None,
    ensures
        rendering_control_action(tokens, action) is Err,
{
    lemma_names_differ();
}

/// A `SelectPreset` action is decoded only where the text of its field
/// `PresetName` writes a preset, and a `SetMute` action only where the
/// text of its field `DesiredMute` writes a truth value.
pub proof fn lemma_unrecognized_spelling_fails(tokens: Seq<TokenView>, action: int)
    requires
        (action_name(tokens, action) == "SelectPreset"@ && (field_text(
            tokens,
            action,
            "PresetName"@,
        ) matches Ok(text) && parsed_preset(text) is None)) || (action_name(tokens, action)
            == "SetMute"@ && (field_text(tokens, action, "DesiredMute"@) matches Ok(text)
            && parsed_flag(text) is None)),
    ensures
        rendering_control_action(tokens, action) is Err,
{
    lemma_names_differ();
}

/// What is worth a line in a log of an action: what is set or selected.
/// The queries are worth none.
pub open spec fn rendering_control_note(action: RenderingControlView) -> Option<Seq<char>> {
    match action {
        RenderingControlView::SelectPreset(select) => Some(
            "RenderingControl::SelectPreset preset: "@ + preset_text(select.preset_name),
        ),
        RenderingControlView::SetMute(set) => Some(
            "RenderingControl::SetMute channel: "@ + channel_text(set.channel)
                + ", desired_mute: "@ + if set.desired_mute {
                "true"@
            } else {
                "false"@
            },
        ),
        RenderingControlView::SetVolume(set) => Some(
            "RenderingControl::SetVolume channel: "@ + channel_text(set.channel)
                + ", desired_volume: "@ + decimal_text(set.desired_volume as nat),
        ),
        _ => None,
    }
}

impl RenderingControl {
    /// What is worth a line in a log of the action.
    pub fn note(&self) -> (r: Option<String>)
        ensures
            match r {
                Some(line) => rendering_control_note(self@) == Some(line@),
                None => rendering_control_note(self@) is None,
            },
    {
        match self {
            RenderingControl::SelectPreset(select) => {
                let mut line = String::from_str("RenderingControl::SelectPreset preset: ");
                line.append(select.preset_name.as_str());
                Some(line)
            },
            RenderingControl::SetMute(set) => {
                let mut line = String::from_str("RenderingControl::SetMute channel: ");
                line.append(set.channel.as_str());
                line.append(", desired_mute: ");
                line.append(
                    if set.desired_mute {
                        "true"
                    } else {
                        "false"
                    },
                );
                Some(line)
            },
            RenderingControl::SetVolume(set) => {
                let mut line = String::from_str("RenderingControl::SetVolume channel: ");
                line.append(set.channel.as_str());
                line.append(", desired_volume: ");
                line.append(decimal(set.desired_volume as u32).as_str());
                Some(line)
            },
            _ => None,
        }
    }
}

} // verus!
