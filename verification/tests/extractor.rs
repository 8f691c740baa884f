use dlna_dmr::defaults;
use dlna_dmr::extractor::{extract, summarize};
use dlna_dmr::net::Ipv4;
use dlna_dmr::DMROptions;

#[test]
fn test_extract_current_uri() {
    let body = "<u:SetAVTransportURI><InstanceID>0</InstanceID><CurrentURI> https://my-secret.com/a.mp4 \n</CurrentURI><CurrentURIMetaData></CurrentURIMetaData></u:SetAVTransportURI>";
    assert_eq!(
        extract("/AVTransport", body),
        vec!["Current URI: https://my-secret.com/a.mp4".to_string()]
    );
}

#[test]
fn test_extract_both_uris() {
    let body = "<NextURI>http://b/2</NextURI><CurrentURI>http://a/1</CurrentURI><CurrentURI>http://a/3</CurrentURI>";
    assert_eq!(
        extract("/AVTransport", body),
        vec![
            "Current URI: http://a/1".to_string(),
            "Next URI: http://b/2".to_string()
        ]
    );
}

#[test]
fn test_extract_nothing() {
    assert!(extract("/AVTransport", "<CurrentURI></CurrentURI>").is_empty());
    assert!(extract("/AVTransport", "<CurrentURI>a<b/></CurrentURI>").is_empty());
    assert!(extract("/AVTransport", "").is_empty());
    assert!(extract("/RenderingControl", "<CurrentURI>http://a/1</CurrentURI>").is_empty());
    assert!(extract("/avtransport", "<CurrentURI>http://a/1</CurrentURI>").is_empty());
}

#[test]
fn test_extract_strips_white_space() {
    assert_eq!(
        extract("/AVTransport", "<NextURI>\u{a0}\u{3000} x y \u{2028}</NextURI>"),
        vec!["Next URI: x y".to_string()]
    );
    assert_eq!(
        extract("/AVTransport", "<NextURI> \t </NextURI>"),
        vec!["Next URI: ".to_string()]
    );
}

#[test]
fn test_extract_white_space_set() {
    let spaces = [
        '\u{9}', '\u{a}', '\u{b}', '\u{c}', '\u{d}', '\u{20}', '\u{85}', '\u{a0}', '\u{1680}',
        '\u{2000}', '\u{2001}', '\u{2002}', '\u{2003}', '\u{2004}', '\u{2005}', '\u{2006}',
        '\u{2007}', '\u{2008}', '\u{2009}', '\u{200a}', '\u{2028}', '\u{2029}', '\u{202f}',
        '\u{205f}', '\u{3000}',
    ];
    for space in spaces {
        let body = format!("<CurrentURI>{space}a{space}b{space}</CurrentURI>");
        assert_eq!(
            extract("/AVTransport", &body),
            vec![format!("Current URI: a{space}b")]
        );
    }
    let others = [
        '\u{8}', '\u{e}', '\u{1f}', '\u{21}', '\u{84}', '\u{86}', '\u{9f}', '\u{a1}', '\u{167f}',
        '\u{1681}', '\u{180e}', '\u{1fff}', '\u{200b}', '\u{200c}', '\u{2027}', '\u{202a}',
        '\u{202e}', '\u{2030}', '\u{205e}', '\u{2060}', '\u{2fff}', '\u{3001}', '\u{feff}',
    ];
    for other in others {
        let body = format!("<CurrentURI>{other}a{other}</CurrentURI>");
        assert_eq!(
            extract("/AVTransport", &body),
            vec![format!("Current URI: {other}a{other}")]
        );
    }
}

#[test]
fn test_summarize() {
    assert_eq!(
        summarize("/AVTransport", Some(" a ".to_string()), None),
        vec!["Current URI: a".to_string()]
    );
    assert_eq!(
        summarize("/AVTransport", None, Some("b".to_string())),
        vec!["Next URI: b".to_string()]
    );
    assert!(summarize("/AVTransport", None, None).is_empty());
    assert!(summarize("/Ignore", Some("a".to_string()), Some("b".to_string())).is_empty());
}

#[test]
fn test_defaults() {
    assert_eq!(defaults::ssdp_port(), 1900);
    assert_eq!(defaults::http_port(), 8080);
    assert_eq!(defaults::friendly_name(), "Dummy Renderer");
    assert_eq!(defaults::model_name(), "Dummy Model");
    assert_eq!(defaults::model_description(), "A dummy DLNA DMR");
    assert_eq!(defaults::model_url(), "http://example.com/dummy_model");
    assert_eq!(defaults::manufacturer(), "Dummy Manufacturer");
    assert_eq!(defaults::manufacturer_url(), "http://example.com/manufacturer");
    assert_eq!(
        defaults::serial_number(),
        "12345678-1234-5678-1234-567812345678"
    );
}

#[test]
fn test_default_uuid() {
    let first = defaults::uuid();
    let second = defaults::uuid();
    for uuid in [&first, &second] {
        assert_eq!(uuid.len(), 36);
        for (i, c) in uuid.chars().enumerate() {
            match i {
                8 | 13 | 18 | 23 => assert_eq!(c, '-'),
                14 => assert_eq!(c, '4'),
                _ => assert!(c.is_ascii_hexdigit() && !c.is_ascii_uppercase()),
            }
        }
    }
    assert_ne!(first, second);
}

#[test]
fn test_default_options() {
    let options = DMROptions::at(Ipv4(192, 168, 0, 9));
    assert_eq!(options.ip, Ipv4(192, 168, 0, 9));
    assert_eq!(options.ssdp_port, 1900);
    assert_eq!(options.http_port, 8080);
    assert_eq!(options.uuid.len(), 36);
    assert_eq!(options.friendly_name, "Dummy Renderer");
    assert_eq!(options.model_name, "Dummy Model");
    assert_eq!(options.model_description, "A dummy DLNA DMR");
    assert_eq!(options.model_url, "http://example.com/dummy_model");
    assert_eq!(options.manufacturer, "Dummy Manufacturer");
    assert_eq!(options.manufacturer_url, "http://example.com/manufacturer");
    assert_eq!(options.serial_number, "12345678-1234-5678-1234-567812345678");
}
