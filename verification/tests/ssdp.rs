use dlna_dmr::net::{Ipv4, SocketAddress};
use dlna_dmr::ssdp::{
    classify, EngineState, Fault, Inbound, Reaction, Received, SSDPServer, SocketStep,
    KEEP_ALIVE_INTERVAL,
};

fn server() -> SSDPServer {
    SSDPServer::new(
        SocketAddress {
            ip: Ipv4(192, 168, 1, 2),
            port: 1900,
        },
        "abc".to_string(),
        8080,
    )
}

fn running() -> SSDPServer {
    let mut server = server();
    server.bound();
    server.start();
    server
}

fn peer() -> SocketAddress {
    SocketAddress {
        ip: Ipv4(192, 168, 1, 77),
        port: 50000,
    }
}

fn notify_text(nt: &str, nts: &str, usn: &str) -> String {
    format!(
        "NOTIFY * HTTP/1.1\r\nHOST: 239.255.255.250:1900\r\nNT: {nt}\r\nNTS: {nts}\r\nUSN: {usn}\r\nLOCATION: http://192.168.1.2:8080/DeviceSpec\r\nCACHE-CONTROL: max-age=1800\r\nSERVER: CustomSSDP/1.0\r\n\r\n"
    )
}

fn round(nts: &str) -> Vec<String> {
    vec![
        notify_text("upnp:rootdevice", nts, "uuid:abc::upnp:rootdevice"),
        notify_text("uuid:abc", nts, "uuid:abc"),
        notify_text(
            "urn:schemas-upnp-org:service:RenderingControl:1",
            nts,
            "uuid:abc::urn:schemas-upnp-org:service:RenderingControl:1",
        ),
        notify_text(
            "urn:schemas-upnp-org:service:AVTransport:1",
            nts,
            "uuid:abc::urn:schemas-upnp-org:service:AVTransport:1",
        ),
        notify_text(
            "urn:schemas-upnp-org:service:ConnectionManager:1",
            nts,
            "uuid:abc::urn:schemas-upnp-org:service:ConnectionManager:1",
        ),
    ]
}

fn reply_text(date: &str) -> String {
    format!(
        "HTTP/1.1 200 OK\r\nST: upnp:rootdevice\r\nUSN: uuid:abc::upnp:rootdevice\r\nLocation: http://192.168.1.2:8080/DeviceSpec\r\nOPT: \"http://schemas.upnp.org/upnp/1/0/\"; ns=01\r\nCache-Control: max-age=900\r\nServer: CustomSSDP/1.0\r\nEXT:\r\nDate: {date}\r\n\r\n"
    )
}

#[test]
fn test_notify() {
    let datagram = server().notify("upnp:rootdevice", "ssdp:alive", "uuid:abc::upnp:rootdevice");
    assert_eq!(datagram.to, SSDPServer::multicast_address());
    assert_eq!(
        datagram.payload,
        notify_text("upnp:rootdevice", "ssdp:alive", "uuid:abc::upnp:rootdevice")
    );
    assert_eq!(
        SSDPServer::multicast_address(),
        SocketAddress {
            ip: Ipv4(239, 255, 255, 250),
            port: 1900
        }
    );
}

#[test]
fn test_notify_service() {
    let datagram = server().notify_service("AVTransport", "ssdp:byebye");
    assert_eq!(
        datagram.payload,
        notify_text(
            "urn:schemas-upnp-org:service:AVTransport:1",
            "ssdp:byebye",
            "uuid:abc::urn:schemas-upnp-org:service:AVTransport:1"
        )
    );
}

#[test]
fn test_alive_round() {
    let server = server();
    let sent = server.alive();
    assert_eq!(sent.len(), 5);
    let payloads: Vec<String> = sent.iter().map(|d| d.payload.clone()).collect();
    assert_eq!(payloads, round("ssdp:alive"));
    for datagram in &sent {
        assert_eq!(datagram.to, SSDPServer::multicast_address());
    }
}

#[test]
fn test_presence_repeats() {
    let server = running();
    let first: Vec<String> = server.keep_alive().into_iter().map(|d| d.payload).collect();
    for _ in 0..3 {
        let again: Vec<String> = server.keep_alive().into_iter().map(|d| d.payload).collect();
        assert_eq!(again.len(), 5);
        assert_eq!(again, first);
    }
    assert_eq!(first, round("ssdp:alive"));
    assert_eq!(server.state(), EngineState::Running);
}

#[test]
fn test_byebye_round() {
    let payloads: Vec<String> = server().byebye().into_iter().map(|d| d.payload).collect();
    assert_eq!(payloads, round("ssdp:byebye"));
}

#[test]
fn test_engine_states() {
    let mut server = server();
    assert_eq!(server.state(), EngineState::Created);
    assert!(server.keep_alive().is_empty());
    server.start();
    assert_eq!(server.state(), EngineState::Created);
    assert!(server.stop().is_empty());
    assert_eq!(server.state(), EngineState::Created);
    server.bound();
    assert_eq!(server.state(), EngineState::Bound);
    assert!(server.keep_alive().is_empty());
    server.bound();
    assert_eq!(server.state(), EngineState::Bound);
    server.start();
    assert_eq!(server.state(), EngineState::Running);
    assert_eq!(server.keep_alive().len(), 5);
    let last: Vec<String> = server.stop().into_iter().map(|d| d.payload).collect();
    assert_eq!(last, round("ssdp:byebye"));
    assert_eq!(server.state(), EngineState::Stopped);
    assert!(server.stop().is_empty());
    assert!(server.keep_alive().is_empty());
    server.start();
    server.bound();
    assert_eq!(server.state(), EngineState::Stopped);
    assert_eq!(server.address().port, 1900);
}

#[test]
fn test_stop_before_start_withdraws() {
    let mut server = server();
    server.bound();
    assert_eq!(server.stop().len(), 5);
    assert_eq!(server.state(), EngineState::Stopped);
}

#[test]
fn test_classify() {
    assert_eq!(classify("M-SEARCH * HTTP/1.1\r\n"), Inbound::Search);
    assert_eq!(classify("NOTIFY * HTTP/1.1\r\n"), Inbound::Announcement);
    assert_eq!(classify("HTTP/1.1 200 OK\r\n"), Inbound::Unknown);
    assert_eq!(classify("m-search"), Inbound::Unknown);
    assert_eq!(classify(""), Inbound::Unknown);
}

#[test]
fn test_search_reply_at() {
    let reply = server().search_reply_at(peer(), 0);
    assert_eq!(reply.to, peer());
    assert_eq!(reply.payload, reply_text("Thu, 01 Jan 1970 00:00:00 GMT"));
    let reply = server().search_reply_at(peer(), 1_700_000_000);
    assert_eq!(reply.payload, reply_text("Tue, 14 Nov 2023 22:13:20 GMT"));
    let reply = server().search_reply_at(peer(), i64::MAX);
    assert_eq!(reply.payload, reply_text(""));
}

#[test]
fn test_answer_at() {
    let server = server();
    let search = "M-SEARCH * HTTP/1.1\r\nHOST: 239.255.255.250:1900\r\nMAN: \"ssdp:discover\"\r\nMX: 1\r\nST: urn:schemas-upnp-org:service:ContentDirectory:1\r\n\r\n";
    let reply = server
        .answer_at(peer(), search, 86400)
        .expect("a search request is no fault")
        .expect("a search request gets a reply");
    assert_eq!(reply.to, peer());
    assert_eq!(reply.payload, reply_text("Fri, 02 Jan 1970 00:00:00 GMT"));
    assert!(server
        .answer_at(peer(), "NOTIFY * HTTP/1.1\r\n\r\n", 0)
        .expect("an announcement is no fault")
        .is_none());
    let fault = server.answer_at(peer(), "HELLO", 0).unwrap_err();
    assert_eq!(fault.message, "HELLO");
    assert_eq!(fault.to_text(), "Received unknown SSDP message: HELLO");
}

#[test]
fn test_answer_now() {
    let server = server();
    let reply = server
        .answer(peer(), "M-SEARCH * HTTP/1.1\r\n\r\n")
        .expect("a search request is no fault")
        .expect("a search request gets a reply");
    assert_eq!(reply.to, peer());
    assert!(reply.payload.starts_with(
        "HTTP/1.1 200 OK\r\nST: upnp:rootdevice\r\nUSN: uuid:abc::upnp:rootdevice\r\nLocation: http://192.168.1.2:8080/DeviceSpec\r\n"
    ));
    assert!(reply.payload.ends_with(" GMT\r\n\r\n"));
    let again = server.answer_search(peer(), "M-SEARCH * HTTP/1.1\r\n\r\n");
    assert_eq!(again.to, peer());
    assert_eq!(again.payload.len(), reply.payload.len());
    assert!(server.answer(peer(), "NOTIFY * HTTP/1.1").unwrap().is_none());
    assert!(server.answer(peer(), "GET / HTTP/1.1").is_err());
}

#[test]
fn test_run_round() {
    let server = running();
    let search = Received::Message {
        from: Some(peer()),
        text: "M-SEARCH * HTTP/1.1\r\n\r\n".to_string(),
    };
    match server.run_at(&search, 0) {
        Reaction::Reply(reply) => {
            assert_eq!(reply.to, peer());
            assert_eq!(reply.payload, reply_text("Thu, 01 Jan 1970 00:00:00 GMT"));
        }
        other => panic!("Expected a reply, got {other:?}"),
    }
    assert!(matches!(server.run(&search), Reaction::Reply(_)));
    let announcement = Received::Message {
        from: Some(peer()),
        text: "NOTIFY * HTTP/1.1\r\n\r\n".to_string(),
    };
    assert!(matches!(server.run_at(&announcement, 0), Reaction::Nothing));
    let unknown = Received::Message {
        from: Some(peer()),
        text: "HTTP/1.1 200 OK".to_string(),
    };
    assert!(matches!(
        server.run_at(&unknown, 0),
        Reaction::Fault(Fault::UnknownMessage)
    ));
    let stranger = Received::Message {
        from: None,
        text: "M-SEARCH * HTTP/1.1\r\n\r\n".to_string(),
    };
    assert!(matches!(
        server.run_at(&stranger, 0),
        Reaction::Fault(Fault::NotIpv4)
    ));
    assert!(matches!(
        server.run_at(&Received::WouldBlock, 0),
        Reaction::Nothing
    ));
    assert!(matches!(
        server.run_at(&Received::Failed, 0),
        Reaction::Fault(Fault::ReceiveFailed)
    ));
}

#[test]
fn test_run_round_when_not_running() {
    let mut server = server();
    let search = Received::Message {
        from: Some(peer()),
        text: "M-SEARCH * HTTP/1.1\r\n\r\n".to_string(),
    };
    assert!(matches!(server.run_at(&search, 0), Reaction::Nothing));
    server.bound();
    assert!(matches!(server.run_at(&search, 0), Reaction::Nothing));
    assert!(matches!(
        server.run_at(&Received::Failed, 0),
        Reaction::Nothing
    ));
}

#[test]
fn test_keep_alive_interval() {
    assert_eq!(KEEP_ALIVE_INTERVAL, 900);
    assert!(KEEP_ALIVE_INTERVAL < 1800);
}

#[test]
fn test_bind_plan() {
    assert_eq!(
        server().bind_plan(),
        vec![
            SocketStep::NonBlocking,
            SocketStep::ReuseAddress,
            SocketStep::Bind(SocketAddress {
                ip: Ipv4(0, 0, 0, 0),
                port: 1900
            }),
            SocketStep::Broadcast,
            SocketStep::JoinMulticast {
                group: Ipv4(239, 255, 255, 250),
                interface: Ipv4(192, 168, 1, 2)
            },
        ]
    );
}
