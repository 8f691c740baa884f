//! The discovery engine: the presence messages it multicasts, its replies
//! to search requests, and the states it goes through. The engine holds no
//! socket: it says what is to be sent, and is told what was received.

use crate::net::{ipv4_text, socket_text, Ipv4, SocketAddress};
use crate::text::{decimal, decimal_text, has_prefix, starts_with};
use vstd::prelude::*;

verus! {

/// The seconds between two rounds of presence messages.
pub const KEEP_ALIVE_INTERVAL: u64 = 900;

/// The name under which the engine presents itself.
pub const SERVER_NAME: &'static str = "CustomSSDP/1.0";

/// What a reply to a search request holds between the location of the
/// descriptor and the name of the server.
pub const REPLY_OPTIONS: &'static str =
    "\r\nOPT: \"http://schemas.upnp.org/upnp/1/0/\"; ns=01\r\nCache-Control: max-age=900\r\nServer: ";

/// The multicast group and port of the discovery protocol.
pub open spec fn multicast_group() -> SocketAddress {
    SocketAddress { ip: Ipv4(239, 255, 255, 250), port: 1900 }
}

/// The states of a discovery engine.
#[derive(Clone, Copy, Debug, PartialEq, Eq, Structural)]
pub enum EngineState {
    /// Made, with no socket yet.
    Created,
    /// Its socket is bound and has joined the multicast group.
    Bound,
    /// It receives messages and announces its presence.
    Running,
    /// It has announced its withdrawal.
    Stopped,
}

/// The steps that make a socket ready for the discovery protocol.
#[derive(Clone, Copy, Debug, PartialEq, Eq, Structural)]
pub enum SocketStep {
    /// Make the socket non-blocking.
    NonBlocking,
    /// Let the address be used by several sockets.
    ReuseAddress,
    /// Bind the socket to the address.
    Bind(SocketAddress),
    /// Allow the socket to broadcast.
    Broadcast,
    /// Join the multicast group `group` on the interface `interface`.
    JoinMulticast { group: Ipv4, interface: Ipv4 },
}

/// The steps that make a new datagram socket ready for the engine of the
/// device at `address`, in their order: the socket is bound to the port of
/// `address` on every interface, and joins the multicast group of the
/// discovery protocol on the interface of `address`.
pub open spec fn bind_steps(address: SocketAddress) -> Seq<SocketStep> {
    seq![
        SocketStep::NonBlocking,
        SocketStep::ReuseAddress,
        SocketStep::Bind(SocketAddress { ip: Ipv4(0, 0, 0, 0), port: address.port }),
        SocketStep::Broadcast,
        SocketStep::JoinMulticast { group: multicast_group().ip, interface: address.ip },
    ]
}

/// A message to send to an address.
#[derive(Clone, Debug, PartialEq, Eq)]
pub struct Datagram {
    pub to: SocketAddress,
    pub payload: String,
}

/// The mathematical value of a [`Datagram`].
pub ghost struct DatagramView {
    pub to: SocketAddress,
    pub payload: Seq<char>,
}

impl View for Datagram {
    type V = DatagramView;

    open spec fn view(&self) -> DatagramView {
        DatagramView { to: self.to, payload: self.payload@ }
    }
}

/// The values of a list of datagrams.
pub open spec fn datagram_views(datagrams: Seq<Datagram>) -> Seq<DatagramView> {
    datagrams.map_values(|d: Datagram| d@)
}

/// What an inbound message is, by the token it opens with.
#[derive(Clone, Copy, Debug, PartialEq, Eq, Structural)]
pub enum Inbound {
    /// A search request: it opens with `M-SEARCH`.
    Search,
    /// An announcement of a peer: it opens with `NOTIFY`.
    Announcement,
    /// Anything else.
    Unknown,
}

/// What the inbound message `message` is.
pub open spec fn inbound_kind(message: Seq<char>) -> Inbound {
    if has_prefix(message, "M-SEARCH"@) {
        Inbound::Search
    } else if has_prefix(message, "NOTIFY"@) {
        Inbound::Announcement
    } else {
        Inbound::Unknown
    }
}

/// Tells what the inbound message `message` is.
pub fn classify(message: &str) -> (r: Inbound)
    ensures
        r == inbound_kind(message@),
{
    if starts_with(message, "M-SEARCH") {
        Inbound::Search
    } else if starts_with(message, "NOTIFY") {
        Inbound::Announcement
    } else {
        Inbound::Unknown
    }
}

/// An inbound message that is neither a search request nor an
/// announcement.
#[derive(Clone, Debug, PartialEq, Eq)]
pub struct UnknownMessage {
    pub message: String,
}

impl UnknownMessage {
    /// The fault in words.
    pub fn to_text(&self) -> (r: String)
        ensures
            r@ == "Received unknown SSDP message: "@ + self.message@,
    {
        let mut out = String::from_str("Received unknown SSDP message: ");
        out.append(self.message.as_str());
        out
    }
}

/// The identity of a device as the discovery engine needs it, and the
/// state of the engine.
pub ghost struct SSDPServerView {
    pub address: SocketAddress,
    pub uuid: Seq<char>,
    pub http_port: u16,
    pub state: EngineState,
}

/// The URL under which the device at `ip` serves its descriptor on the
/// port `http_port`.
pub open spec fn descriptor_url(ip: Ipv4, http_port: u16) -> Seq<char> {
    "http://"@ + ipv4_text(ip) + ":"@ + decimal_text(http_port as nat) + "/DeviceSpec"@
}

/// The presence message with the notification type `nt`, the sub type
/// `nts` and the unique service name `usn`.
pub open spec fn notify_text(
    server: SSDPServerView,
    nt: Seq<char>,
    nts: Seq<char>,
    usn: Seq<char>,
) -> Seq<char> {
    "NOTIFY * HTTP/1.1\r\nHOST: "@ + socket_text(multicast_group()) + "\r\nNT: "@ + nt
        + "\r\nNTS: "@ + nts + "\r\nUSN: "@ + usn + "\r\nLOCATION: "@ + descriptor_url(
        server.address.ip,
        server.http_port,
    ) + "\r\nCACHE-CONTROL: max-age=1800\r\nSERVER: "@ + SERVER_NAME@ + "\r\n\r\n"@
}

/// The device's unique identifier with the prefix `uuid:`.
pub open spec fn device_name(server: SSDPServerView) -> Seq<char> {
    "uuid:"@ + server.uuid
}

/// The type of the service `service`.
pub open spec fn service_type(service: Seq<char>) -> Seq<char> {
    "urn:schemas-upnp-org:service:"@ + service + ":1"@
}

/// The presence message for the root device.
pub open spec fn root_notify_text(server: SSDPServerView, nts: Seq<char>) -> Seq<char> {
    notify_text(server, "upnp:rootdevice"@, nts, device_name(server) + "::upnp:rootdevice"@)
}

/// The presence message for the device itself.
pub open spec fn device_notify_text(server: SSDPServerView, nts: Seq<char>) -> Seq<char> {
    notify_text(server, device_name(server), nts, device_name(server))
}

/// The presence message for the service `service`.
pub open spec fn service_notify_text(
    server: SSDPServerView,
    service: Seq<char>,
    nts: Seq<char>,
) -> Seq<char> {
    notify_text(
        server,
        service_type(service),
        nts,
        device_name(server) + "::"@ + service_type(service),
    )
}

/// One round of presence messages with the sub type `nts`: for the root
/// device, for the device itself, and for each of its three services, in
/// this order.
pub open spec fn presence_texts(server: SSDPServerView, nts: Seq<char>) -> Seq<Seq<char>> {
    seq![
        root_notify_text(server, nts),
        device_notify_text(server, nts),
        service_notify_text(server, "RenderingControl"@, nts),
        service_notify_text(server, "AVTransport"@, nts),
        service_notify_text(server, "ConnectionManager"@, nts),
    ]
}

/// One round of presence messages, each addressed to the multicast group.
pub open spec fn presence(server: SSDPServerView, nts: Seq<char>) -> Seq<DatagramView> {
    presence_texts(server, nts).map_values(
        |payload: Seq<char>| DatagramView { to: multicast_group(), payload },
    )
}

/// The date of `seconds` after the start of 1970 in UTC, written as HTTP
/// writes dates (`%a, %d %b %Y %H:%M:%S GMT`) by `chrono`; `None` where
/// `chrono` has no date for it.
pub uninterp spec fn http_date_text(seconds: i64) -> Option<Seq<char>>;

/// The date to put into a reply at `now`: empty where there is none.
pub open spec fn reply_date(now: i64) -> Seq<char> {
    match http_date_text(now) {
        Some(date) => date,
        None => Seq::empty(),
    }
}

/// The reply to a search request, dated `date`.
pub open spec fn search_reply_text(server: SSDPServerView, date: Seq<char>) -> Seq<char> {
    "HTTP/1.1 200 OK\r\nST: upnp:rootdevice\r\nUSN: "@ + device_name(server)
        + "::upnp:rootdevice\r\nLocation: "@ + descriptor_url(server.address.ip, server.http_port)
        + REPLY_OPTIONS@ + SERVER_NAME@ + "\r\nEXT:\r\nDate: "@ + date + "\r\n\r\n"@
}

/// The reply to a search request from `address`, sent at `now`.
pub open spec fn search_reply(
    server: SSDPServerView,
    address: SocketAddress,
    now: i64,
) -> DatagramView {
    DatagramView { to: address, payload: search_reply_text(server, reply_date(now)) }
}

/// What the engine owes a message `message` from `address` that it
/// received at `now`: a reply to a search request, nothing to an
/// announcement, and the message back as a fault where it is neither.
pub open spec fn answer_to(
    server: SSDPServerView,
    address: SocketAddress,
    message: Seq<char>,
    now: i64,
) -> Result<Option<DatagramView>, Seq<char>> {
    match inbound_kind(message) {
        Inbound::Search => Ok(Some(search_reply(server, address, now))),
        Inbound::Announcement => Ok(None),
        Inbound::Unknown => Err(message),
    }
}

/// The value of an answer.
pub open spec fn answer_view(r: Result<Option<Datagram>, UnknownMessage>) -> Result<
    Option<DatagramView>,
    Seq<char>,
> {
    match r {
        Ok(Some(datagram)) => Ok(Some(datagram@)),
        Ok(None) => Ok(None),
        Err(fault) => Err(fault.message@),
    }
}

/// What a round of the receive loop got from the socket.
#[derive(Clone, Debug, PartialEq, Eq)]
pub enum Received {
    /// A message, with its sender where the sender has an IPv4 address.
    Message { from: Option<SocketAddress>, text: String },
    /// Nothing yet: the socket would block.
    WouldBlock,
    /// A failure of the socket.
    Failed,
}

/// The mathematical value of a [`Received`].
pub ghost enum ReceivedView {
    Message { from: Option<SocketAddress>, text: Seq<char> },
    WouldBlock,
    Failed,
}

impl View for Received {
    type V = ReceivedView;

    open spec fn view(&self) -> ReceivedView {
        match self {
            Received::Message { from, text } => ReceivedView::Message { from: *from, text: text@ },
            Received::WouldBlock => ReceivedView::WouldBlock,
            Received::Failed => ReceivedView::Failed,
        }
    }
}

/// What went wrong in a round of the receive loop. None of it ends the
/// loop.
#[derive(Clone, Copy, Debug, PartialEq, Eq, Structural)]
pub enum Fault {
    /// The sender has no IPv4 address.
    NotIpv4,
    /// The message is neither a search request nor an announcement.
    UnknownMessage,
    /// The socket failed.
    ReceiveFailed,
}

/// What the engine does about what it received.
#[derive(Clone, Debug, PartialEq, Eq)]
pub enum Reaction {
    /// It sends a reply.
    Reply(Datagram),
    /// It does nothing.
    Nothing,
    /// It reports a fault, and goes on.
    Fault(Fault),
}

/// The mathematical value of a [`Reaction`].
pub ghost enum ReactionView {
    Reply(DatagramView),
    Nothing,
    Fault(Fault),
}

impl View for Reaction {
    type V = ReactionView;

    open spec fn view(&self) -> ReactionView {
        match self {
            Reaction::Reply(datagram) => ReactionView::Reply(datagram@),
            Reaction::Nothing => ReactionView::Nothing,
            Reaction::Fault(fault) => ReactionView::Fault(*fault),
        }
    }
}

/// What the engine does about what it received at `now`. Only a running
/// engine does anything; it answers a message whose sender has an IPv4
/// address, and takes a socket that would block for the usual case.
pub open spec fn reaction_to(
    server: SSDPServerView,
    received: ReceivedView,
    now: i64,
) -> ReactionView {
    if server.state != EngineState::Running {
        ReactionView::Nothing
    } else {
        match received {
            ReceivedView::Message { from: Some(address), text } => match answer_to(
                server,
                address,
                text,
                now,
            ) {
                Ok(Some(reply)) => ReactionView::Reply(reply),
                Ok(None) => ReactionView::Nothing,
                Err(_) => ReactionView::Fault(Fault::UnknownMessage),
            },
            ReceivedView::Message { from: None, text } => ReactionView::Fault(Fault::NotIpv4),
            ReceivedView::WouldBlock => ReactionView::Nothing,
            ReceivedView::Failed => ReactionView::Fault(Fault::ReceiveFailed),
        }
    }
}

/// Reads the clock with `chrono::Utc::now` and gives the seconds since the
/// start of 1970 by `timestamp`.
///
/// Trusted: nothing is claimed of the time.
#[verifier::external_body]
fn unix_time() -> (r: i64) {
    chrono::Utc::now().timestamp()
}

/// Writes the date of `seconds` with `chrono::DateTime::from_timestamp`
/// and `DateTime::format`.
///
/// Trusted: the text depends on `seconds` alone.
#[verifier::external_body]
fn http_date(seconds: i64) -> (r: Option<String>)
    ensures
        match r {
            Some(date) => http_date_text(seconds) == Some(date@),
            None => http_date_text(seconds) is None,
        },
{
    let time = chrono::DateTime::from_timestamp(seconds, 0)?;
    Some(time.format("%a, %d %b %Y %H:%M:%S GMT").to_string())
}

/// The discovery engine of a device.
pub struct SSDPServer {
    address: SocketAddress,
    uuid: String,
    http_port: u16,
    state: EngineState,
}

impl View for SSDPServer {
    type V = SSDPServerView;

    closed spec fn view(&self) -> SSDPServerView {
        SSDPServerView {
            address: self.address,
            uuid: self.uuid@,
            http_port: self.http_port,
            state: self.state,
        }
    }
}

impl SSDPServer {
    /// An engine for the device `uuid` at `address`, whose control
    /// transport listens on `http_port`. It has no socket yet.
    pub fn new(address: SocketAddress, uuid: String, http_port: u16) -> (r: SSDPServer)
        ensures
            r@ == (SSDPServerView { address, uuid: uuid@, http_port, state: EngineState::Created }),
    {
        SSDPServer { address, uuid, http_port, state: EngineState::Created }
    }

    /// The state of the engine.
    pub fn state(&self) -> (r: EngineState)
        ensures
            r == self@.state,
    {
        self.state
    }

    /// The address whose port the engine's socket is bound to.
    pub fn address(&self) -> (r: SocketAddress)
        ensures
            r == self@.address,
    {
        self.address
    }

    /// The multicast group and port of the discovery protocol.
    pub fn multicast_address() -> (r: SocketAddress)
        ensures
            r == multicast_group(),
    {
        SocketAddress { ip: Ipv4(239, 255, 255, 250), port: 1900 }
    }

    /// The steps that make a new datagram socket ready for the engine.
    /// Where one of them fails the engine cannot be started.
    pub fn bind_plan(&self) -> (r: Vec<SocketStep>)
        ensures
            r@ == bind_steps(self@.address),
    {
        let mut steps: Vec<SocketStep> = Vec::new();
        steps.push(SocketStep::NonBlocking);
        steps.push(SocketStep::ReuseAddress);
        steps.push(
            SocketStep::Bind(SocketAddress { ip: Ipv4(0, 0, 0, 0), port: self.address.port }),
        );
        steps.push(SocketStep::Broadcast);
        steps.push(
            SocketStep::JoinMulticast {
                group: SSDPServer::multicast_address().ip,
                interface: self.address.ip,
            },
        );
        assert(steps@ =~= bind_steps(self@.address));
        steps
    }

    /// Records that every step of the plan succeeded: the socket is bound
    /// and has joined the multicast group.
    pub fn bound(&mut self)
        ensures
            final(self)@ == (SSDPServerView {
                state: if old(self)@.state == EngineState::Created {
                    EngineState::Bound
                } else {
                    old(self)@.state
                },
                ..old(self)@
            }),
    {
        if self.state == EngineState::Created {
            self.state = EngineState::Bound;
        }
    }

    /// Records that the receive loop and the keep-alive loop begin.
    pub fn start(&mut self)
        ensures
            final(self)@ == (SSDPServerView {
                state: if old(self)@.state == EngineState::Bound {
                    EngineState::Running
                } else {
                    old(self)@.state
                },
                ..old(self)@
            }),
    {
        if self.state == EngineState::Bound {
            self.state = EngineState::Running;
        }
    }

    /// The URL under which the device serves its descriptor.
    pub fn location(&self) -> (r: String)
        ensures
            r@ == descriptor_url(self@.address.ip, self@.http_port),
    {
        let mut out = String::from_str("http://");
        out.append(self.address.ip.to_text().as_str());
        out.append(":");
        out.append(decimal(self.http_port as u32).as_str());
        out.append("/DeviceSpec");
        out
    }

    /// The presence message with the notification type `nt`, the sub type
    /// `nts` and the unique service name `usn`.
    pub fn notify(&self, nt: &str, nts: &str, usn: &str) -> (r: Datagram)
        ensures
            r@ == (DatagramView {
                to: multicast_group(),
                payload: notify_text(self@, nt@, nts@, usn@),
            }),
    {
        let group = SSDPServer::multicast_address();
        let mut out = String::from_str("NOTIFY * HTTP/1.1\r\nHOST: ");
        out.append(group.to_text().as_str());
        out.append("\r\nNT: ");
        out.append(nt);
        out.append("\r\nNTS: ");
        out.append(nts);
        out.append("\r\nUSN: ");
        out.append(usn);
        out.append("\r\nLOCATION: ");
        out.append(self.location().as_str());
        out.append("\r\nCACHE-CONTROL: max-age=1800\r\nSERVER: ");
        out.append(SERVER_NAME);
        out.append("\r\n\r\n");
        Datagram { to: group, payload: out }
    }

    /// The device's unique identifier with the prefix `uuid:`.
    pub fn device_name(&self) -> (r: String)
        ensures
            r@ == device_name(self@),
    {
        let mut out = String::from_str("uuid:");
        out.append(self.uuid.as_str());
        out
    }

    /// The presence message for the service `service` with the sub type
    /// `nts`.
    pub fn notify_service(&self, service: &str, nts: &str) -> (r: Datagram)
        ensures
            r@ == (DatagramView {
                to: multicast_group(),
                payload: service_notify_text(self@, service@, nts@),
            }),
    {
        let mut nt = String::from_str("urn:schemas-upnp-org:service:");
        nt.append(service);
        nt.append(":1");
        let mut usn = self.device_name();
        usn.append("::");
        usn.append(nt.as_str());
        self.notify(nt.as_str(), nts, usn.as_str())
    }

    /// One round of presence messages with the sub type `nts`.
    pub fn notify_all(&self, nts: &str) -> (r: Vec<Datagram>)
        ensures
            datagram_views(r@) == presence(self@, nts@),
    {
        let name = self.device_name();
        let mut root = self.device_name();
        root.append("::upnp:rootdevice");
        let mut round: Vec<Datagram> = Vec::new();
        round.push(self.notify("upnp:rootdevice", nts, root.as_str()));
        round.push(self.notify(name.as_str(), nts, name.as_str()));
        round.push(self.notify_service("RenderingControl", nts));
        round.push(self.notify_service("AVTransport", nts));
        round.push(self.notify_service("ConnectionManager", nts));
        assert(datagram_views(round@) =~= presence(self@, nts@));
        round
    }

    /// One round of messages that announce the device's presence.
    pub fn alive(&self) -> (r: Vec<Datagram>)
        ensures
            datagram_views(r@) == presence(self@, "ssdp:alive"@),
    {
        self.notify_all("ssdp:alive")
    }

    /// One round of messages that announce the device's withdrawal.
    pub fn byebye(&self) -> (r: Vec<Datagram>)
        ensures
            datagram_views(r@) == presence(self@, "ssdp:byebye"@),
    {
        self.notify_all("ssdp:byebye")
    }

    /// What is to be sent when the keep-alive interval has passed: a round
    /// of presence messages while the engine runs, nothing otherwise.
    pub fn keep_alive(&self) -> (r: Vec<Datagram>)
        ensures
            datagram_views(r@) == if self@.state == EngineState::Running {
                presence(self@, "ssdp:alive"@)
            } else {
                Seq::empty()
            },
    {
        if self.state == EngineState::Running {
            self.alive()
        } else {
            let nothing: Vec<Datagram> = Vec::new();
            assert(datagram_views(nothing@) =~= Seq::<DatagramView>::empty());
            nothing
        }
    }

    /// Ends the engine: where its socket is bound, a round of withdrawal
    /// messages is to be sent, and the engine is stopped.
    pub fn stop(&mut self) -> (r: Vec<Datagram>)
        ensures
            old(self)@.state == EngineState::Bound || old(self)@.state == EngineState::Running ==> {
                &&& final(self)@ == (SSDPServerView { state: EngineState::Stopped, ..old(self)@ })
                &&& datagram_views(r@) == presence(old(self)@, "ssdp:byebye"@)
            },
            old(self)@.state == EngineState::Created || old(self)@.state == EngineState::Stopped
                ==> {
                &&& final(self)@ == old(self)@
                &&& datagram_views(r@) == Seq::<DatagramView>::empty()
            },
    {
        if self.state == EngineState::Bound || self.state == EngineState::Running {
            let round = self.byebye();
            self.state = EngineState::Stopped;
            round
        } else {
            let nothing: Vec<Datagram> = Vec::new();
            assert(datagram_views(nothing@) =~= Seq::<DatagramView>::empty());
            nothing
        }
    }

    /// The reply to a search request from `address`, sent at `now` seconds
    /// after the start of 1970.
    pub fn search_reply_at(&self, address: SocketAddress, now: i64) -> (r: Datagram)
        ensures
            r@ == search_reply(self@, address, now),
    {
        let date = match http_date(now) {
            Some(date) => date,
            None => String::new(),
        };
        let mut out = String::from_str("HTTP/1.1 200 OK\r\nST: upnp:rootdevice\r\nUSN: ");
        out.append(self.device_name().as_str());
        out.append("::upnp:rootdevice\r\nLocation: ");
        out.append(self.location().as_str());
        out.append(REPLY_OPTIONS);
        out.append(SERVER_NAME);
        out.append("\r\nEXT:\r\nDate: ");
        out.append(date.as_str());
        out.append("\r\n\r\n");
        Datagram { to: address, payload: out }
    }

    /// The answer to a message `message` from `address` that was received
    /// at `now` seconds after the start of 1970.
    pub fn answer_at(&self, address: SocketAddress, message: &str, now: i64) -> (r: Result<
        Option<Datagram>,
        UnknownMessage,
    >)
        ensures
            answer_view(r) == answer_to(self@, address, message@, now),
    {
        match classify(message) {
            Inbound::Search => Ok(Some(self.search_reply_at(address, now))),
            Inbound::Announcement => Ok(None),
            Inbound::Unknown => Err(UnknownMessage { message: String::from_str(message) }),
        }
    }

    /// The reply to a search request from `address`, dated now. Whatever
    /// the request asks for, the reply is for the root device.
    pub fn answer_search(&self, address: SocketAddress, _message: &str) -> (r: Datagram)
        ensures
            exists|now: i64| r@ == search_reply(self@, address, now),
    {
        let now = unix_time();
        self.search_reply_at(address, now)
    }

    /// One round of the receive loop, on what the socket gave at `now`
    /// seconds after the start of 1970.
    pub fn run_at(&self, received: &Received, now: i64) -> (r: Reaction)
        ensures
            r@ == reaction_to(self@, received@, now),
    {
        if self.state != EngineState::Running {
            return Reaction::Nothing;
        }
        match received {
            Received::Message { from: Some(address), text } => {
                match self.answer_at(*address, text.as_str(), now) {
                    Ok(Some(reply)) => Reaction::Reply(reply),
                    Ok(None) => Reaction::Nothing,
                    Err(_) => Reaction::Fault(Fault::UnknownMessage),
                }
            },
            Received::Message { from: None, text: _ } => Reaction::Fault(Fault::NotIpv4),
            Received::WouldBlock => Reaction::Nothing,
            Received::Failed => Reaction::Fault(Fault::ReceiveFailed),
        }
    }

    /// One round of the receive loop, on what the socket gave now.
    pub fn run(&self, received: &Received) -> (r: Reaction)
        ensures
            exists|now: i64| r@ == reaction_to(self@, received@, now),
    {
        let now = unix_time();
        self.run_at(received, now)
    }

    /// The answer to a message `message` from `address` that is received
    /// now: one reply to the sender of a search request, nothing to an
    /// announcement, a fault where the message is neither.
    pub fn answer(&self, address: SocketAddress, message: &str) -> (r: Result<
        Option<Datagram>,
        UnknownMessage,
    >)
        ensures
            exists|now: i64| answer_view(r) == answer_to(self@, address, message@, now),
    {
        let now = unix_time();
        self.answer_at(address, message, now)
    }
}

/// A search request is owed exactly one reply, addressed to its sender; an
/// announcement of a peer is owed none.
pub proof fn lemma_search_is_answered_once(
    server: SSDPServerView,
    address: SocketAddress,
    message: Seq<char>,
    now: i64,
)
    ensures
        has_prefix(message, "M-SEARCH"@) ==> (answer_to(server, address, message, now) matches Ok(
            Some(reply),
        ) && reply.to == address),
        !has_prefix(message, "M-SEARCH"@) && has_prefix(message, "NOTIFY"@) ==> answer_to(
            server,
            address,
            message,
            now,
        ) == Ok::<Option<DatagramView>, Seq<char>>(None),
{
}

/// A running engine that receives a search request from a sender with an
/// IPv4 address replies once, to that sender; one that receives an
/// announcement of a peer does not reply.
pub proof fn lemma_engine_replies_to_search(
    server: SSDPServerView,
    address: SocketAddress,
    message: Seq<char>,
    now: i64,
)
    requires
        server.state == EngineState::Running,
    ensures
        inbound_kind(message) == Inbound::Search ==> reaction_to(
            server,
            ReceivedView::Message { from: Some(address), text: message },
            now,
        ) == ReactionView::Reply(search_reply(server, address, now)),
        inbound_kind(message) == Inbound::Announcement ==> reaction_to(
            server,
            ReceivedView::Message { from: Some(address), text: message },
            now,
        ) == ReactionView::Nothing,
{
}

/// Every round of presence messages has the same shape, whatever was sent
/// before: five messages to the multicast group, for the root device, the
/// device, and the three services in their fixed order.
pub proof fn lemma_presence_shape(server: SSDPServerView, nts: Seq<char>)
    ensures
        presence(server, nts).len() == 5,
        forall|i: int| 0 <= i < 5 ==> (#[trigger] presence(server, nts)[i]).to == multicast_group(),
        presence(server, nts)[0].payload == root_notify_text(server, nts),
        presence(server, nts)[1].payload == device_notify_text(server, nts),
        presence(server, nts)[2].payload == service_notify_text(server, "RenderingControl"@, nts),
        presence(server, nts)[3].payload == service_notify_text(server, "AVTransport"@, nts),
        presence(server, nts)[4].payload == service_notify_text(server, "ConnectionManager"@, nts),
{
}

} // verus!
