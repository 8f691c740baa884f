use dlna_dmr::xml::av_transport::AVTransport;
use dlna_dmr::xml::document::{is_ignorable, is_sound, local_name_of, Document};
use dlna_dmr::xml::message::{
    locate_action, locate_envelope, read_action_name, read_attribute, read_flag, read_namespace,
    read_number, read_text, FailureKind,
};
use dlna_dmr::xml::reader::{
    has_mark, read_attributes, read_tag, read_token, resolve_reference, tokenize, EventKind, Tag,
    XmlToken,
};
use dlna_dmr::xml::rendering_control::RenderingControl;

fn pair(key: &str, value: &str) -> (String, String) {
    (key.to_string(), value.to_string())
}

fn tag(name: &str, attributes: Vec<(String, String)>) -> Tag {
    Tag {
        name: name.to_string(),
        attributes: Some(attributes),
    }
}

fn start(name: &str) -> XmlToken {
    XmlToken::Start(tag(name, Vec::new()))
}

fn end(name: &str) -> XmlToken {
    XmlToken::End(name.to_string())
}

fn text(text: &str) -> XmlToken {
    XmlToken::Text(text.to_string())
}

fn outline(text: &str) -> Option<Document> {
    Document::outline(tokenize(text).expect("Failed to lex"))
}

#[test]
fn test_tokenize() {
    assert_eq!(
        tokenize("<?xml version=\"1.0\"?><!-- c --><a x=\"1\" y='&lt;'>t&amp;<![CDATA[<]]><b/>&nbsp;</a >")
            .unwrap(),
        vec![
            XmlToken::Other,
            XmlToken::Other,
            XmlToken::Start(tag("a", vec![pair("x", "1"), pair("y", "<")])),
            text("t"),
            XmlToken::Reference {
                name: "amp".to_string(),
                text: Some("&".to_string())
            },
            text("<"),
            XmlToken::Empty(tag("b", Vec::new())),
            XmlToken::Reference {
                name: "nbsp".to_string(),
                text: None
            },
            end("a"),
        ]
    );
    assert_eq!(tokenize("").unwrap(), vec![]);
    assert_eq!(tokenize("</a>é").unwrap(), vec![end("a"), text("é")]);
    assert_eq!(
        tokenize("<a b>").unwrap(),
        vec![XmlToken::Start(Tag {
            name: "a".to_string(),
            attributes: None
        })]
    );
}

#[test]
fn test_byte_order_marks() {
    assert_eq!(
        tokenize("\u{feff}<a/>").unwrap(),
        vec![XmlToken::Empty(tag("a", Vec::new()))]
    );
    assert_eq!(tokenize("\u{feff}").unwrap(), vec![]);
    assert_eq!(
        tokenize("<a>\u{feff}x&amp;\u{feff}\u{feff}</a>y\u{feff}z").unwrap(),
        vec![
            start("a"),
            text("\u{feff}"),
            text("x"),
            XmlToken::Reference {
                name: "amp".to_string(),
                text: Some("&".to_string())
            },
            text("\u{feff}"),
            text("\u{feff}"),
            end("a"),
            text("y\u{feff}z"),
        ]
    );
    let document = outline("\u{feff}<a>\u{feff}x</a>").expect("the document is well-formed");
    assert_eq!(document.content_of(0), Some("\u{feff}x".to_string()));
    assert!(outline("<a/>\u{feff}").is_none());
    assert!(has_mark("\u{feff}".as_bytes(), 0));
    assert!(has_mark("ab\u{feff}".as_bytes(), 2));
    assert!(!has_mark("ab\u{feff}".as_bytes(), 3));
    assert!(!has_mark("\u{feff}".as_bytes(), 1));
    assert!(!has_mark("abc".as_bytes(), 0));
    assert!(!has_mark("".as_bytes(), 7));
}

#[test]
fn test_tokenize_rejects() {
    assert!(tokenize("<a").is_none());
    assert!(tokenize("<a>&amp</a>").is_none());
    assert!(tokenize("<!-- never closed").is_none());
    assert!(tokenize("text <").is_none());
}

#[test]
fn test_read_tag() {
    assert_eq!(
        read_tag("u:Play xmlns:u=\"x\""),
        tag("u:Play", vec![pair("xmlns:u", "x")])
    );
    assert_eq!(read_tag("Play"), tag("Play", Vec::new()));
    assert_eq!(
        read_tag("a\n\tb = \"c\td\"  e='&#65;&quot;'"),
        tag("a", vec![pair("b", "c d"), pair("e", "A\"")])
    );
    assert_eq!(read_tag(""), tag("", Vec::new()));
    assert_eq!(read_tag("a b").attributes, None);
    assert_eq!(read_tag("a b=c").attributes, None);
    assert_eq!(read_tag("a b=\"1\" b=\"2\"").attributes, None);
    assert_eq!(read_tag("a b=\"&unknown;\"").attributes, None);
}

#[test]
fn test_read_attributes() {
    assert_eq!(read_attributes(""), Some(Vec::new()));
    assert_eq!(read_attributes("   "), Some(Vec::new()));
    assert_eq!(
        read_attributes(" a=\"1\" b='2'"),
        Some(vec![pair("a", "1"), pair("b", "2")])
    );
    assert_eq!(read_attributes(" a=\"1\" b"), None);
    assert_eq!(read_attributes("a=\"1\""), Some(vec![pair("a", "1")]));
}

#[test]
fn test_read_token() {
    assert_eq!(read_token(EventKind::Start, "a".to_string()), start("a"));
    assert_eq!(
        read_token(EventKind::Empty, "a b=\"c\"".to_string()),
        XmlToken::Empty(tag("a", vec![pair("b", "c")]))
    );
    assert_eq!(read_token(EventKind::End, "a".to_string()), end("a"));
    assert_eq!(read_token(EventKind::Text, " x ".to_string()), text(" x "));
    assert_eq!(read_token(EventKind::CData, "<x>".to_string()), text("<x>"));
    assert_eq!(
        read_token(EventKind::Reference, "#x3c".to_string()),
        XmlToken::Reference {
            name: "#x3c".to_string(),
            text: Some("<".to_string())
        }
    );
    assert_eq!(
        read_token(EventKind::Other, "xml version=\"1.0\"".to_string()),
        XmlToken::Other
    );
    assert_eq!(read_token(EventKind::Eof, String::new()), XmlToken::Other);
}

#[test]
fn test_local_name() {
    assert_eq!(local_name_of("u:Play"), "Play");
    assert_eq!(local_name_of("Play"), "Play");
    assert_eq!(local_name_of("a:b:c"), "b:c");
    assert_eq!(local_name_of(":"), "");
    assert_eq!(local_name_of(""), "");
}

#[test]
fn test_resolve_reference() {
    assert_eq!(resolve_reference("lt"), Some("<".to_string()));
    assert_eq!(resolve_reference("gt"), Some(">".to_string()));
    assert_eq!(resolve_reference("amp"), Some("&".to_string()));
    assert_eq!(resolve_reference("apos"), Some("'".to_string()));
    assert_eq!(resolve_reference("quot"), Some("\"".to_string()));
    assert_eq!(resolve_reference("#65"), Some("A".to_string()));
    assert_eq!(resolve_reference("#x41"), Some("A".to_string()));
    assert_eq!(resolve_reference("#0"), None);
    assert_eq!(resolve_reference("#xD800"), None);
    assert_eq!(resolve_reference("nbsp"), None);
    assert_eq!(resolve_reference("AMP"), None);
    assert_eq!(resolve_reference(""), None);
}

#[test]
fn test_outline() {
    let document = outline("<a><b>x</b><c/></a>").expect("the document is well-formed");
    assert_eq!(document.len(), 6);
    let depths: Vec<usize> = (0..document.len()).map(|i| document.depth_at(i)).collect();
    assert_eq!(depths, vec![0, 1, 2, 2, 1, 1]);
    assert_eq!(document.token(1), &start("b"));
    assert_eq!(document.top(), vec![0]);
    assert_eq!(document.children_of(0), vec![1, 4]);
    assert_eq!(document.children_of(1), Vec::<usize>::new());
    assert_eq!(document.children_of(4), Vec::<usize>::new());
    assert_eq!(document.elements(1, 1), vec![1, 4]);
    assert_eq!(document.named_among(&vec![1, 4], "c"), vec![4]);
    assert_eq!(document.local_name_at(4), "c");
    assert_eq!(document.local_name_at(2), "");
    assert_eq!(document.content_of(1), Some("x".to_string()));
    assert_eq!(document.content_of(4), Some(String::new()));
    assert_eq!(document.content_of(0), None);
    assert!(Document::outline(Vec::new()).is_some());
}

#[test]
fn test_outline_rejects() {
    for text in [
        "<a><b></a></b>",
        "<a>",
        "</a>",
        "<a></a></a>",
        "x<a/>",
        "<a/>&amp;",
        "<a/><![CDATA[ ]]>x",
        "<a b/>",
        "<a><b c=d></b></a>",
        "<a>&nbsp;</a>",
    ] {
        assert!(outline(text).is_none(), "{text}");
    }
    let tidy = outline(" <?xml version=\"1.0\"?>\n<a/><!-- end --> <b>&lt;</b>\n");
    assert_eq!(tidy.expect("the document is well-formed").top(), vec![3, 6]);
}

#[test]
fn test_sound_and_ignorable() {
    assert!(is_sound(&start("a")));
    assert!(is_sound(&end("a")));
    assert!(is_sound(&text("x")));
    assert!(is_sound(&XmlToken::Other));
    assert!(!is_sound(&XmlToken::Start(Tag {
        name: "a".to_string(),
        attributes: None
    })));
    assert!(!is_sound(&XmlToken::Reference {
        name: "nbsp".to_string(),
        text: None
    }));
    assert!(is_ignorable(&XmlToken::Other));
    assert!(is_ignorable(&text(" \n")));
    assert!(!is_ignorable(&text(" x")));
    assert!(!is_ignorable(&start("a")));
    assert!(!is_ignorable(&XmlToken::Reference {
        name: "#32".to_string(),
        text: Some(" ".to_string())
    }));
}

#[test]
fn test_attributes() {
    let document = outline("<a xmlns:u=\"urn:a&amp;b\" plain='1'><b/></a>").unwrap();
    assert_eq!(
        document.attribute_of(0, "xmlns:u"),
        Some("urn:a&b".to_string())
    );
    assert_eq!(document.attribute_of(0, "plain"), Some("1".to_string()));
    assert_eq!(document.attribute_of(0, "missing"), None);
    assert_eq!(document.attribute_of(1, "plain"), None);
    assert_eq!(document.attribute_of(2, "plain"), None);
    assert_eq!(read_attribute(&document, 0, "plain"), "1");
    assert_eq!(read_attribute(&document, 0, "missing"), "");
}

#[test]
fn test_fields() {
    let text = "<s:Envelope><s:Body><u:SetMute xmlns:u=\"urn:x\"><InstanceID> 12 </InstanceID><DesiredMute>false</DesiredMute><Channel>Master</Channel><Twice/><Twice/><Deep><x/></Deep></u:SetMute></s:Body></s:Envelope>";
    let document = outline(text).unwrap();
    let action = locate_action(&document).expect("the message holds an action");
    assert_eq!(action, 2);
    assert_eq!(locate_envelope(&document), Some(0));
    assert_eq!(read_action_name(&document, action), "SetMute");
    assert_eq!(read_namespace(&document, action), "urn:x");
    assert_eq!(read_number(&document, action, "InstanceID", 100).unwrap(), 12);
    assert_eq!(
        read_number(&document, action, "InstanceID", 11).unwrap_err().kind,
        FailureKind::InvalidValue
    );
    assert!(!read_flag(&document, action, "DesiredMute").unwrap());
    assert_eq!(read_text(&document, action, "Channel").unwrap(), "Master");
    let failure = read_text(&document, action, "Volume").unwrap_err();
    assert_eq!(failure.kind, FailureKind::MissingField);
    assert_eq!(failure.subject, "Volume");
    let failure = read_text(&document, action, "Twice").unwrap_err();
    assert_eq!(failure.kind, FailureKind::DuplicateField);
    let failure = read_text(&document, action, "Deep").unwrap_err();
    assert_eq!(failure.kind, FailureKind::InvalidValue);
    assert_eq!(failure.message(), "invalid value of field: Deep");
    let failure = read_flag(&document, action, "Channel").unwrap_err();
    assert_eq!(failure.kind, FailureKind::InvalidValue);
}

#[test]
fn test_locate_action() {
    for text in [
        "<a/>",
        "<a><Body/></a>",
        "<a><Body>text</Body></a>",
        "<a><Body><x/><y/></Body></a>",
        "<a><Body><x/></Body><Body><x/></Body></a>",
        "<a><b><Body><x/></Body></b></a>",
        "<a/><b><Body><x/></Body></b>",
        "",
    ] {
        let document = outline(text).unwrap();
        assert_eq!(locate_action(&document), None, "{text}");
        assert_eq!(locate_envelope(&document), None, "{text}");
    }
    let document = outline("<!-- c --><a><Header><Body/></Header><s:Body> <x/> </s:Body></a>")
        .unwrap();
    assert_eq!(locate_action(&document), Some(7));
    assert_eq!(locate_envelope(&document), Some(1));
}

#[test]
fn test_decode_from_tokens() {
    let tokens = vec![
        start("Envelope"),
        start("Body"),
        XmlToken::Start(tag("u:Seek", vec![pair("xmlns:u", "urn:t")])),
        start("InstanceID"),
        text("3"),
        end("InstanceID"),
        start("Unit"),
        text("TRACK_"),
        text("NR"),
        end("Unit"),
        start("Target"),
        XmlToken::Reference {
            name: "#52".to_string(),
            text: Some("4".to_string()),
        },
        end("Target"),
        end("u:Seek"),
        end("Body"),
        end("Envelope"),
    ];
    let AVTransport::Seek(seek) = AVTransport::decode(tokens.clone()).expect("Failed to decode")
    else {
        panic!("Expected Seek variant")
    };
    assert_eq!(seek.instance_id, 3);
    assert_eq!(seek.target, "4");
    assert_eq!(seek.xmlns_u, "urn:t");
    assert_eq!(seek.unit.as_str(), "TRACK_NR");
    let failure = RenderingControl::decode(tokens).unwrap_err();
    assert_eq!(failure.kind, FailureKind::UnknownAction);
    assert_eq!(failure.subject, "Seek");
    let failure = AVTransport::decode(vec![start("Envelope")]).unwrap_err();
    assert_eq!(failure.kind, FailureKind::Malformed);
    let failure = AVTransport::decode(Vec::new()).unwrap_err();
    assert_eq!(failure.kind, FailureKind::Malformed);
}
