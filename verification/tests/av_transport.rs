use dlna_dmr::xml::av_transport::{AVTransport, AVTransportEnvelope, PlaySpeed, SeekUnit};
use dlna_dmr::xml::message::FailureKind;

fn envelope(action: &str) -> String {
    format!(
        "<?xml version=\"1.0\" encoding=\"utf-8\"?>\n<s:Envelope xmlns:s=\"http://schemas.xmlsoap.org/soap/envelope/\" s:encodingStyle=\"http://schemas.xmlsoap.org/soap/encoding/\">\n    <s:Body>\n{action}\n    </s:Body>\n</s:Envelope>\n"
    )
}

fn get_xml(action: &str) -> AVTransport {
    let xml = envelope(action);
    let av_transport: AVTransport = xml.parse().expect("Failed to parse AVTransport");
    av_transport
}

fn simple(name: &str) -> String {
    format!(
        "        <u:{name} xmlns:u=\"urn:schemas-upnp-org:service:AVTransport:1\">\n            <InstanceID>0</InstanceID>\n        </u:{name}>"
    )
}

#[test]
fn test_set_av_transport_uri() {
    let av_transport = get_xml(
        "        <u:SetAVTransportURI xmlns:u=\"urn:schemas-upnp-org:service:AVTransport:1\">\n            <InstanceID>0</InstanceID>\n            <CurrentURI>http://example.com/sample.mp4?param1=a&amp;param2=b</CurrentURI>\n            <CurrentURIMetaData></CurrentURIMetaData>\n        </u:SetAVTransportURI>",
    );
    let AVTransport::SetAVTransportURI(set_action) = av_transport else {
        panic!("Expected SetAVTransportURI variant")
    };
    assert_eq!(set_action.instance_id, 0);
    assert_eq!(
        set_action.current_uri,
        "http://example.com/sample.mp4?param1=a&param2=b"
    );
    assert_eq!(set_action.current_uri_meta_data, "");
}

#[test]
fn test_set_next_av_transport_uri() {
    let av_transport = get_xml(
        "        <u:SetNextAVTransportURI xmlns:u=\"urn:schemas-upnp-org:service:AVTransport:1\">\n            <InstanceID>0</InstanceID>\n            <NextURI>http://example.com/sample.mp4?param1=a&amp;param2=b</NextURI>\n            <NextURIMetaData/>\n        </u:SetNextAVTransportURI>",
    );
    let AVTransport::SetNextAVTransportURI(set_action) = av_transport else {
        panic!("Expected SetNextAVTransportURI variant")
    };
    assert_eq!(set_action.instance_id, 0);
    assert_eq!(
        set_action.next_uri,
        "http://example.com/sample.mp4?param1=a&param2=b"
    );
    assert_eq!(set_action.next_uri_meta_data, "");
}

#[test]
fn test_get_media_info() {
    let av_transport = get_xml(&simple("GetMediaInfo"));
    let AVTransport::GetMediaInfo(get_action) = av_transport else {
        panic!("Expected GetMediaInfo variant")
    };
    assert_eq!(get_action.instance_id, 0);
}

#[test]
fn test_get_transport_info() {
    let av_transport = get_xml(&simple("GetTransportInfo"));
    let AVTransport::GetTransportInfo(get_action) = av_transport else {
        panic!("Expected GetTransportInfo variant")
    };
    assert_eq!(get_action.instance_id, 0);
}

#[test]
fn test_play() {
    let av_transport = get_xml(
        "        <u:Play xmlns:u=\"urn:schemas-upnp-org:service:AVTransport:1\">\n            <Speed>1</Speed>\n            <InstanceID>0</InstanceID>\n        </u:Play>",
    );
    let AVTransport::Play(play_action) = av_transport else {
        panic!("Expected Play variant")
    };
    assert_eq!(play_action.instance_id, 0);
    assert_eq!(play_action.speed, PlaySpeed::One);
}

#[test]
fn test_seek() {
    let av_transport = get_xml(
        "        <u:Seek xmlns:u=\"urn:schemas-upnp-org:service:AVTransport:1\">\n            <InstanceID>0</InstanceID>\n            <Unit>REL_TIME</Unit>\n            <Target>12</Target>\n        </u:Seek>",
    );
    let AVTransport::Seek(seek_action) = av_transport else {
        panic!("Expected Seek variant")
    };
    assert_eq!(seek_action.instance_id, 0);
    assert_eq!(seek_action.target, "12");
    assert_eq!(seek_action.unit, SeekUnit::RelTime);
}

#[test]
fn test_every_simple_action() {
    let names = [
        "GetMediaInfo",
        "GetTransportInfo",
        "GetPositionInfo",
        "GetDeviceCapabilities",
        "GetTransportSettings",
        "Stop",
        "Pause",
        "Next",
        "Previous",
        "GetCurrentTransportActions",
    ];
    for name in names {
        let action = get_xml(&simple(name));
        let (found, argument) = match action {
            AVTransport::GetMediaInfo(a) => ("GetMediaInfo", a),
            AVTransport::GetTransportInfo(a) => ("GetTransportInfo", a),
            AVTransport::GetPositionInfo(a) => ("GetPositionInfo", a),
            AVTransport::GetDeviceCapabilities(a) => ("GetDeviceCapabilities", a),
            AVTransport::GetTransportSettings(a) => ("GetTransportSettings", a),
            AVTransport::Stop(a) => ("Stop", a),
            AVTransport::Pause(a) => ("Pause", a),
            AVTransport::Next(a) => ("Next", a),
            AVTransport::Previous(a) => ("Previous", a),
            AVTransport::GetCurrentTransportActions(a) => ("GetCurrentTransportActions", a),
            _ => panic!("Expected an action without arguments"),
        };
        assert_eq!(found, name);
        assert_eq!(argument.instance_id, 0);
        assert_eq!(argument.xmlns_u, "urn:schemas-upnp-org:service:AVTransport:1");
    }
}

#[test]
fn test_envelope_into_inner() {
    let xml = envelope(&simple("Stop"));
    let envelope = AVTransportEnvelope::parse(&xml).expect("Failed to parse envelope");
    assert_eq!(envelope.xmlns_s, "http://schemas.xmlsoap.org/soap/envelope/");
    assert_eq!(
        envelope.s_encoding_style,
        "http://schemas.xmlsoap.org/soap/encoding/"
    );
    let AVTransport::Stop(stop) = envelope.into_inner() else {
        panic!("Expected Stop variant")
    };
    assert_eq!(stop.instance_id, 0);
}

#[test]
fn test_envelope_attributes_are_not_required() {
    let xml = "<Envelope><Body><Stop><InstanceID>7</InstanceID></Stop></Body></Envelope>";
    let AVTransport::Stop(stop) = AVTransport::parse(xml).expect("Failed to parse") else {
        panic!("Expected Stop variant")
    };
    assert_eq!(stop.instance_id, 7);
    assert_eq!(stop.xmlns_u, "");
}

#[test]
fn test_unknown_action() {
    let failure = AVTransport::parse(&envelope(&simple("Record"))).unwrap_err();
    assert_eq!(failure.kind, FailureKind::UnknownAction);
    assert_eq!(failure.subject, "Record");
    assert_eq!(failure.message(), "action not recognized: Record");
}

#[test]
fn test_unknown_speed() {
    let failure = AVTransport::parse(&envelope(
        "<u:Play xmlns:u=\"urn:schemas-upnp-org:service:AVTransport:1\"><Speed>2</Speed><InstanceID>0</InstanceID></u:Play>",
    ))
    .unwrap_err();
    assert_eq!(failure.kind, FailureKind::InvalidValue);
    assert_eq!(failure.subject, "Speed");
}

#[test]
fn test_unknown_unit() {
    let failure = AVTransport::parse(&envelope(
        "<u:Seek><InstanceID>0</InstanceID><Unit>FRAME</Unit><Target>1</Target></u:Seek>",
    ))
    .unwrap_err();
    assert_eq!(failure.kind, FailureKind::InvalidValue);
    assert_eq!(failure.subject, "Unit");
}

#[test]
fn test_missing_field() {
    let failure = AVTransport::parse(&envelope("<u:Stop></u:Stop>")).unwrap_err();
    assert_eq!(failure.kind, FailureKind::MissingField);
    assert_eq!(failure.subject, "InstanceID");
    assert_eq!(failure.message(), "missing field: InstanceID");
}

#[test]
fn test_duplicate_field() {
    let failure = AVTransport::parse(&envelope(
        "<u:Stop><InstanceID>0</InstanceID><InstanceID>1</InstanceID></u:Stop>",
    ))
    .unwrap_err();
    assert_eq!(failure.kind, FailureKind::DuplicateField);
    assert_eq!(failure.subject, "InstanceID");
}

#[test]
fn test_instance_out_of_domain() {
    for text in ["-1", "4294967296", "zero", "", "1.0", "0x10"] {
        let failure = AVTransport::parse(&envelope(&format!(
            "<u:Stop><InstanceID>{text}</InstanceID></u:Stop>"
        )))
        .unwrap_err();
        assert_eq!(failure.kind, FailureKind::InvalidValue);
        assert_eq!(failure.subject, "InstanceID");
    }
    let AVTransport::Stop(stop) = AVTransport::parse(&envelope(
        "<u:Stop><InstanceID> 4294967295 </InstanceID></u:Stop>",
    ))
    .expect("Failed to parse") else {
        panic!("Expected Stop variant")
    };
    assert_eq!(stop.instance_id, 4294967295);
}

#[test]
fn test_malformed_messages() {
    let bodies = [
        "",
        "plain text",
        "<s:Envelope><s:Body><u:Stop><InstanceID>0</InstanceID></u:Stop></s:Body>",
        "<s:Envelope><s:Body><u:Stop><InstanceID>0</InstanceID></u:Play></s:Body></s:Envelope>",
        "<s:Envelope><s:Body></s:Body></s:Envelope>",
        "<s:Envelope></s:Envelope>",
        "<s:Envelope><s:Body><u:Stop><InstanceID>0</InstanceID></u:Stop><u:Stop><InstanceID>0</InstanceID></u:Stop></s:Body></s:Envelope>",
        "<a/><b/>",
        "<s:Envelope><s:Body><u:Stop><InstanceID>0</InstanceID></u:Stop></s:Body></s:Envelope>trailing",
        "<s:Envelope><s:Body><u:Stop><InstanceID>0</InstanceID></u:Stop></s:Body",
    ];
    for body in bodies {
        let failure = AVTransport::parse(body).unwrap_err();
        assert_eq!(failure.kind, FailureKind::Malformed, "{body}");
        assert_eq!(failure.message(), "malformed control message");
    }
}

#[test]
fn test_unknown_fields_and_comments_are_skipped() {
    let xml = "<!-- sent by a control point --><s:Envelope><s:Header><x>1</x></s:Header><s:Body><u:Stop><Extra><Deep>1</Deep></Extra><InstanceID><!-- the only one -->3</InstanceID></u:Stop></s:Body></s:Envelope>";
    let AVTransport::Stop(stop) = AVTransport::parse(xml).expect("Failed to parse") else {
        panic!("Expected Stop variant")
    };
    assert_eq!(stop.instance_id, 3);
}

#[test]
fn test_references_and_character_data() {
    let xml = "<s:Envelope><s:Body><u:Seek><InstanceID>0</InstanceID><Unit>REL_TIME</Unit><Target>&#49;<![CDATA[<2>]]>&lt;&#x33;</Target></u:Seek></s:Body></s:Envelope>";
    let AVTransport::Seek(seek) = AVTransport::parse(xml).expect("Failed to parse") else {
        panic!("Expected Seek variant")
    };
    assert_eq!(seek.target, "1<2><3");
    let failure = AVTransport::parse(
        "<s:Envelope><s:Body><u:Seek><InstanceID>0</InstanceID><Unit>REL_TIME</Unit><Target>&nbsp;</Target></u:Seek></s:Body></s:Envelope>",
    )
    .unwrap_err();
    assert_eq!(failure.kind, FailureKind::Malformed);
}

#[test]
fn test_malformed_attributes() {
    let bodies = [
        "<s:Envelope broken><s:Body><u:Stop><InstanceID>0</InstanceID></u:Stop></s:Body></s:Envelope>",
        "<s:Envelope><s:Body><u:Stop a=\"1\" a=\"2\"><InstanceID>0</InstanceID></u:Stop></s:Body></s:Envelope>",
        "<s:Envelope><s:Body><u:Stop><InstanceID a=1>0</InstanceID></u:Stop></s:Body></s:Envelope>",
        "<s:Envelope><s:Body><u:Stop xmlns:u=\"&unknown;\"><InstanceID>0</InstanceID></u:Stop></s:Body></s:Envelope>",
    ];
    for body in bodies {
        let failure = AVTransport::parse(body).unwrap_err();
        assert_eq!(failure.kind, FailureKind::Malformed, "{body}");
    }
    let AVTransport::Stop(stop) = AVTransport::parse(
        "<s:Envelope><s:Body><u:Stop xmlns:u = 'a&amp;b'\n other=\"\"><InstanceID>0</InstanceID></u:Stop></s:Body></s:Envelope>",
    )
    .expect("Failed to parse") else {
        panic!("Expected Stop variant")
    };
    assert_eq!(stop.xmlns_u, "a&b");
}

#[test]
fn test_spellings() {
    assert_eq!(PlaySpeed::One.as_str(), "1");
    assert_eq!(SeekUnit::AbsCount.as_str(), "ABS_COUNT");
    assert_eq!(SeekUnit::TrackNr.as_str(), "TRACK_NR");
    assert_eq!(SeekUnit::RelTime.as_str(), "REL_TIME");
    for unit in [SeekUnit::AbsCount, SeekUnit::TrackNr, SeekUnit::RelTime] {
        assert_eq!(SeekUnit::from_text(unit.as_str()), Some(unit));
    }
    assert_eq!(PlaySpeed::from_text("1"), Some(PlaySpeed::One));
    assert_eq!(PlaySpeed::from_text("1/2"), None);
    assert_eq!(SeekUnit::from_text("rel_time"), None);
}

#[test]
fn test_notes() {
    let set = get_xml(
        "<u:SetAVTransportURI><InstanceID>0</InstanceID><CurrentURI>http://a/1</CurrentURI><CurrentURIMetaData/></u:SetAVTransportURI>",
    );
    assert_eq!(
        set.note(),
        Some("AVTransport::SetAvTransportUri current_uri: http://a/1".to_string())
    );
    let next = get_xml(
        "<u:SetNextAVTransportURI><InstanceID>0</InstanceID><NextURI>http://a/2</NextURI><NextURIMetaData/></u:SetNextAVTransportURI>",
    );
    assert_eq!(
        next.note(),
        Some("AVTransport::SetNextAvTransportUri next_uri: http://a/2".to_string())
    );
    let play = get_xml("<u:Play><Speed>1</Speed><InstanceID>0</InstanceID></u:Play>");
    assert_eq!(play.note(), Some("AVTransport::Play speed: 1".to_string()));
    for name in ["Stop", "Pause", "Next", "Previous"] {
        assert_eq!(
            get_xml(&simple(name)).note(),
            Some(format!("AVTransport::{name}"))
        );
    }
    for name in ["GetMediaInfo", "GetPositionInfo", "GetCurrentTransportActions"] {
        assert_eq!(get_xml(&simple(name)).note(), None);
    }
    let seek = get_xml(
        "<u:Seek><InstanceID>0</InstanceID><Unit>ABS_COUNT</Unit><Target>1</Target></u:Seek>",
    );
    assert_eq!(seek.note(), None);
}

#[test]
fn test_message_with_byte_order_mark() {
    let mut xml = String::from("\u{feff}");
    xml.push_str(&envelope(&simple("Pause")));
    let AVTransport::Pause(pause) = AVTransport::parse(&xml).expect("Failed to parse") else {
        panic!("Expected Pause variant")
    };
    assert_eq!(pause.instance_id, 0);
}
