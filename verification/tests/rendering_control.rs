use dlna_dmr::xml::message::FailureKind;
use dlna_dmr::xml::rendering_control::{
    Channel, PresetName, RenderingControl, RenderingControlEnvelope,
};

fn envelope(action: &str) -> String {
    format!(
        "<?xml version=\"1.0\" ?>\n<s:Envelope xmlns:s=\"http://schemas.xmlsoap.org/soap/envelope/\" s:encodingStyle=\"http://schemas.xmlsoap.org/soap/encoding/\">\n    <s:Body>\n{action}\n    </s:Body>\n</s:Envelope>"
    )
}

fn action(name: &str, fields: &str) -> String {
    format!(
        "        <u:{name} xmlns:u=\"urn:schemas-upnp-org:service:RenderingControl:1\">\n{fields}\n        </u:{name}>"
    )
}

fn parse_xml(name: &str, fields: &str) -> RenderingControl {
    let xml = envelope(&action(name, fields));
    let rendering_control: RenderingControl = xml.parse().expect("Failed to parse AVTransport");
    rendering_control
}

#[test]
fn test_list_presets() {
    let list_presets = parse_xml("ListPresets", "<InstanceID>0</InstanceID>");
    let RenderingControl::ListPresets(list) = list_presets else {
        panic!("Expected ListPresets variant");
    };
    assert_eq!(list.instance_id, 0);
}

#[test]
fn test_select_preset() {
    let select_preset = parse_xml(
        "SelectPreset",
        "<InstanceID>0</InstanceID>\n<PresetName>FactoryDefaults</PresetName>",
    );
    let RenderingControl::SelectPreset(select) = select_preset else {
        panic!("Expected SelectPreset variant");
    };
    assert_eq!(select.instance_id, 0);
    assert_eq!(select.preset_name, PresetName::FactoryDefaults);
}

#[test]
fn test_get_mute() {
    let get_mute = parse_xml(
        "GetMute",
        "<InstanceID>0</InstanceID>\n<Channel>Master</Channel>",
    );
    let RenderingControl::GetMute(get) = get_mute else {
        panic!("Expected GetMute variant");
    };
    assert_eq!(get.instance_id, 0);
    assert_eq!(get.channel, Channel::Master);
}

#[test]
fn test_set_mute() {
    let set_mute = parse_xml(
        "SetMute",
        "<InstanceID>0</InstanceID>\n<Channel>Master</Channel>\n<DesiredMute>1</DesiredMute>",
    );
    let RenderingControl::SetMute(set) = set_mute else {
        panic!("Expected SetMute variant");
    };
    assert_eq!(set.instance_id, 0);
    assert_eq!(set.channel, Channel::Master);
    assert!(set.desired_mute);
}

#[test]
fn test_get_volume() {
    let get_volume = parse_xml(
        "GetVolume",
        "<InstanceID>0</InstanceID>\n<Channel>Master</Channel>",
    );
    let RenderingControl::GetVolume(get) = get_volume else {
        panic!("Expected GetVolume variant");
    };
    assert_eq!(get.instance_id, 0);
    assert_eq!(get.channel, Channel::Master);
}

#[test]
fn test_set_volume() {
    let set_volume = parse_xml(
        "SetVolume",
        "<DesiredVolume>50</DesiredVolume>\n<Channel>Master</Channel>\n<InstanceID>0</InstanceID>",
    );
    let RenderingControl::SetVolume(set) = set_volume else {
        panic!("Expected SetVolume variant");
    };
    assert_eq!(set.instance_id, 0);
    assert_eq!(set.channel, Channel::Master);
    assert_eq!(set.desired_volume, 50);
}

#[test]
fn test_rendering_envelope_into_inner() {
    let xml = envelope(&action("ListPresets", "<InstanceID>5</InstanceID>"));
    let envelope = RenderingControlEnvelope::parse(&xml).expect("Failed to parse envelope");
    assert_eq!(envelope.xmlns_s, "http://schemas.xmlsoap.org/soap/envelope/");
    assert_eq!(
        envelope.s_encoding_style,
        "http://schemas.xmlsoap.org/soap/encoding/"
    );
    let RenderingControl::ListPresets(list) = envelope.into_inner() else {
        panic!("Expected ListPresets variant");
    };
    assert_eq!(list.instance_id, 5);
    assert_eq!(list.xmlns_u, "urn:schemas-upnp-org:service:RenderingControl:1");
}

#[test]
fn test_unrecognized_channel() {
    for name in ["GetMute", "SetMute", "GetVolume", "SetVolume"] {
        let xml = envelope(&action(
            name,
            "<InstanceID>0</InstanceID><Channel>LeftRear</Channel><DesiredMute>0</DesiredMute><DesiredVolume>1</DesiredVolume>",
        ));
        let failure = RenderingControl::parse(&xml).unwrap_err();
        assert_eq!(failure.kind, FailureKind::InvalidValue);
        assert_eq!(failure.subject, "Channel");
        assert_eq!(failure.message(), "invalid value of field: Channel");
    }
}

#[test]
fn test_unrecognized_preset() {
    let xml = envelope(&action(
        "SelectPreset",
        "<InstanceID>0</InstanceID><PresetName>InstallationDefaults</PresetName>",
    ));
    let failure = RenderingControl::parse(&xml).unwrap_err();
    assert_eq!(failure.kind, FailureKind::InvalidValue);
    assert_eq!(failure.subject, "PresetName");
}

#[test]
fn test_mute_flags() {
    for (text, expected) in [("true", true), ("1", true), ("false", false), ("0", false)] {
        let fields = format!(
            "<InstanceID>0</InstanceID><Channel>Master</Channel><DesiredMute>{text}</DesiredMute>"
        );
        let RenderingControl::SetMute(set) = parse_xml("SetMute", &fields) else {
            panic!("Expected SetMute variant");
        };
        assert_eq!(set.desired_mute, expected);
    }
    for text in ["yes", "TRUE", "2", ""] {
        let fields = format!(
            "<InstanceID>0</InstanceID><Channel>Master</Channel><DesiredMute>{text}</DesiredMute>"
        );
        let failure = RenderingControl::parse(&envelope(&action("SetMute", &fields))).unwrap_err();
        assert_eq!(failure.kind, FailureKind::InvalidValue);
        assert_eq!(failure.subject, "DesiredMute");
    }
}

#[test]
fn test_volume_range() {
    let fields = "<InstanceID>0</InstanceID><Channel>Master</Channel><DesiredVolume>65535</DesiredVolume>";
    let RenderingControl::SetVolume(set) = parse_xml("SetVolume", fields) else {
        panic!("Expected SetVolume variant");
    };
    assert_eq!(set.desired_volume, 65535);
    let fields = "<InstanceID>0</InstanceID><Channel>Master</Channel><DesiredVolume>65536</DesiredVolume>";
    let failure = RenderingControl::parse(&envelope(&action("SetVolume", fields))).unwrap_err();
    assert_eq!(failure.kind, FailureKind::InvalidValue);
    assert_eq!(failure.subject, "DesiredVolume");
}

#[test]
fn test_unknown_rendering_action() {
    let xml = envelope(&action("SetBrightness", "<InstanceID>0</InstanceID>"));
    let failure = RenderingControl::parse(&xml).unwrap_err();
    assert_eq!(failure.kind, FailureKind::UnknownAction);
    assert_eq!(failure.subject, "SetBrightness");
}

#[test]
fn test_rendering_spellings() {
    assert_eq!(Channel::Master.as_str(), "Master");
    assert_eq!(PresetName::FactoryDefaults.as_str(), "FactoryDefaults");
    assert_eq!(Channel::from_text("Master"), Some(Channel::Master));
    assert_eq!(Channel::from_text("LeftRear"), None);
    assert_eq!(
        PresetName::from_text("FactoryDefaults"),
        Some(PresetName::FactoryDefaults)
    );
    assert_eq!(PresetName::from_text(""), None);
}

#[test]
fn test_rendering_notes() {
    let select = parse_xml(
        "SelectPreset",
        "<InstanceID>0</InstanceID><PresetName>FactoryDefaults</PresetName>",
    );
    assert_eq!(
        select.note(),
        Some("RenderingControl::SelectPreset preset: FactoryDefaults".to_string())
    );
    let mute = parse_xml(
        "SetMute",
        "<InstanceID>0</InstanceID><Channel>Master</Channel><DesiredMute>0</DesiredMute>",
    );
    assert_eq!(
        mute.note(),
        Some("RenderingControl::SetMute channel: Master, desired_mute: false".to_string())
    );
    let mute = parse_xml(
        "SetMute",
        "<InstanceID>0</InstanceID><Channel>Master</Channel><DesiredMute>true</DesiredMute>",
    );
    assert_eq!(
        mute.note(),
        Some("RenderingControl::SetMute channel: Master, desired_mute: true".to_string())
    );
    let volume = parse_xml(
        "SetVolume",
        "<InstanceID>0</InstanceID><Channel>Master</Channel><DesiredVolume>50</DesiredVolume>",
    );
    assert_eq!(
        volume.note(),
        Some("RenderingControl::SetVolume channel: Master, desired_volume: 50".to_string())
    );
    let list = parse_xml("ListPresets", "<InstanceID>0</InstanceID>");
    assert_eq!(list.note(), None);
    let get = parse_xml(
        "GetVolume",
        "<InstanceID>0</InstanceID><Channel>Master</Channel>",
    );
    assert_eq!(get.note(), None);
}
