//! The control dispatcher: which resource a request addresses, what the
//! renderer answers by itself, and what it hands to the handlers of the
//! two services.

use crate::description::{
    av_transport_scpd, av_transport_text, device_spec, device_spec_text, rendering_control_scpd,
    rendering_control_text,
};
use crate::text::same_text;
use crate::xml::av_transport::{av_transport_of, AVTransport, AVTransportView};
use crate::xml::message::{viewed, FailureValue, ParseFailure};
use crate::xml::rendering_control::{
    rendering_control_of, RenderingControl, RenderingControlView,
};
use crate::DMROptions;
use crate::DMROptionsView;
use vstd::prelude::*;

verus! {

/// The status of a response with a body.
pub const OK: u16 = 200;

/// The status of a response without a body.
pub const NO_CONTENT: u16 = 204;

/// The status of a response to a request for an unknown path.
pub const NOT_FOUND: u16 = 404;

/// The status of a response to a request that the resource does not take,
/// and of a handler that leaves an action to no one.
pub const METHOD_NOT_ALLOWED: u16 = 405;

/// The content type of the documents.
pub const XML_CONTENT_TYPE: &'static str = "text/xml; charset=\"utf-8\"";

/// The methods of a request, as far as the dispatcher tells them apart.
#[derive(Clone, Copy, Debug, PartialEq, Eq, Structural)]
pub enum Method {
    Get,
    Post,
    /// Any other method.
    Other,
}

/// The method that the name `name` stands for.
pub open spec fn method_named(name: Seq<char>) -> Method {
    if name == "GET"@ {
        Method::Get
    } else if name == "POST"@ {
        Method::Post
    } else {
        Method::Other
    }
}

impl Method {
    /// The method that the name `name` stands for.
    pub fn from_name(name: &str) -> (r: Method)
        ensures
            r == method_named(name@),
    {
        if same_text(name, "GET") {
            Method::Get
        } else if same_text(name, "POST") {
            Method::Post
        } else {
            Method::Other
        }
    }
}

/// The four resources of the control transport.
#[derive(Clone, Copy, Debug, PartialEq, Eq, Structural)]
pub enum Endpoint {
    /// The descriptor of the device, at `/DeviceSpec`.
    DeviceSpec,
    /// The `RenderingControl` service, at `/RenderingControl`.
    RenderingControl,
    /// The `AVTransport` service, at `/AVTransport`.
    AVTransport,
    /// The resource that takes every request and does nothing, at
    /// `/Ignore`.
    Ignore,
}

/// The path of a resource.
pub open spec fn endpoint_path(endpoint: Endpoint) -> Seq<char> {
    match endpoint {
        Endpoint::DeviceSpec => "/DeviceSpec"@,
        Endpoint::RenderingControl => "/RenderingControl"@,
        Endpoint::AVTransport => "/AVTransport"@,
        Endpoint::Ignore => "/Ignore"@,
    }
}

/// The resource at the path `path`, where it is exactly the path of one.
pub open spec fn endpoint_at(path: Seq<char>) -> Option<Endpoint> {
    if path == "/DeviceSpec"@ {
        Some(Endpoint::DeviceSpec)
    } else if path == "/RenderingControl"@ {
        Some(Endpoint::RenderingControl)
    } else if path == "/AVTransport"@ {
        Some(Endpoint::AVTransport)
    } else if path == "/Ignore"@ {
        Some(Endpoint::Ignore)
    } else {
        None
    }
}

impl Endpoint {
    /// The path of the resource.
    pub fn path(&self) -> (r: &'static str)
        ensures
            r@ == endpoint_path(*self),
    {
        match self {
            Endpoint::DeviceSpec => "/DeviceSpec",
            Endpoint::RenderingControl => "/RenderingControl",
            Endpoint::AVTransport => "/AVTransport",
            Endpoint::Ignore => "/Ignore",
        }
    }

    /// The resource at the path `path`.
    pub fn from_path(path: &str) -> (r: Option<Endpoint>)
        ensures
            r == endpoint_at(path@),
    {
        if same_text(path, "/DeviceSpec") {
            Some(Endpoint::DeviceSpec)
        } else if same_text(path, "/RenderingControl") {
            Some(Endpoint::RenderingControl)
        } else if same_text(path, "/AVTransport") {
            Some(Endpoint::AVTransport)
        } else if same_text(path, "/Ignore") {
            Some(Endpoint::Ignore)
        } else {
            None
        }
    }
}

/// Every resource is found at its path.
pub proof fn lemma_endpoint_round_trip(endpoint: Endpoint)
    ensures
        endpoint_at(endpoint_path(endpoint)) == Some(endpoint),
{
    reveal_strlit("/DeviceSpec");
    reveal_strlit("/RenderingControl");
    reveal_strlit("/AVTransport");
    reveal_strlit("/Ignore");
    assert("/DeviceSpec"@.len() == 11);
    assert("/RenderingControl"@.len() == 17);
    assert("/AVTransport"@.len() == 12);
    assert("/Ignore"@.len() == 7);
}

/// A response of the control transport.
#[derive(Clone, Debug, PartialEq, Eq)]
pub struct Response {
    /// The status code.
    pub status: u16,
    /// The content type of the body, where it has one.
    pub content_type: Option<&'static str>,
    /// The body.
    pub body: String,
}

/// The mathematical value of a [`Response`].
pub ghost struct ResponseView {
    pub status: u16,
    pub content_type: Option<Seq<char>>,
    pub body: Seq<char>,
}

impl View for Response {
    type V = ResponseView;

    open spec fn view(&self) -> ResponseView {
        ResponseView {
            status: self.status,
            content_type: match self.content_type {
                Some(name) => Some(name@),
                None => None,
            },
            body: self.body@,
        }
    }
}

/// The response that is a status and nothing else.
pub open spec fn status_only(status: u16) -> ResponseView {
    ResponseView { status, content_type: None, body: Seq::empty() }
}

/// The response that is the document `body`.
pub open spec fn document(body: Seq<char>) -> ResponseView {
    ResponseView { status: OK, content_type: Some(XML_CONTENT_TYPE@), body }
}

impl Response {
    /// The response that is a status and nothing else.
    pub fn status(status: u16) -> (r: Response)
        ensures
            r@ == status_only(status),
    {
        Response { status, content_type: None, body: String::new() }
    }

    /// The response that is the document `body`.
    pub fn document(body: String) -> (r: Response)
        ensures
            r@ == document(body@),
    {
        Response { status: OK, content_type: Some(XML_CONTENT_TYPE), body }
    }
}

/// What the dispatcher makes of a request.
#[derive(Debug)]
pub enum Routed {
    /// The response is fixed.
    Reply(Response),
    /// The request is for the handler of the `RenderingControl` service,
    /// with the action that its body decodes to.
    RenderingControl(Result<RenderingControl, ParseFailure>),
    /// The request is for the handler of the `AVTransport` service, with
    /// the action that its body decodes to.
    AVTransport(Result<AVTransport, ParseFailure>),
}

/// The mathematical value of a [`Routed`].
pub ghost enum RoutedView {
    Reply(ResponseView),
    RenderingControl(Result<RenderingControlView, FailureValue>),
    AVTransport(Result<AVTransportView, FailureValue>),
}

impl View for Routed {
    type V = RoutedView;

    open spec fn view(&self) -> RoutedView {
        match self {
            Routed::Reply(response) => RoutedView::Reply(response@),
            Routed::RenderingControl(action) => RoutedView::RenderingControl(viewed(*action)),
            Routed::AVTransport(action) => RoutedView::AVTransport(viewed(*action)),
        }
    }
}

/// What a `GET` of a resource is answered with.
pub open spec fn fetched(options: DMROptionsView, endpoint: Endpoint) -> ResponseView {
    match endpoint {
        Endpoint::DeviceSpec => document(device_spec_text(options)),
        Endpoint::RenderingControl => document(rendering_control_text()),
        Endpoint::AVTransport => document(av_transport_text()),
        Endpoint::Ignore => status_only(NO_CONTENT),
    }
}

/// What the dispatcher makes of a `POST` to a resource with the body
/// `body`.
pub open spec fn posted(endpoint: Endpoint, body: Seq<char>) -> RoutedView {
    match endpoint {
        Endpoint::DeviceSpec => RoutedView::Reply(status_only(METHOD_NOT_ALLOWED)),
        Endpoint::RenderingControl => RoutedView::RenderingControl(rendering_control_of(body)),
        Endpoint::AVTransport => RoutedView::AVTransport(av_transport_of(body)),
        Endpoint::Ignore => RoutedView::Reply(status_only(NO_CONTENT)),
    }
}

/// What the dispatcher makes of a request: the path selects the resource,
/// then the method what is done with it. A path of no resource is not
/// found, whatever the method; a method other than `GET` and `POST` is not
/// allowed on any resource.
pub open spec fn routed(
    options: DMROptionsView,
    method: Method,
    path: Seq<char>,
    body: Seq<char>,
) -> RoutedView {
    match endpoint_at(path) {
        None => RoutedView::Reply(status_only(NOT_FOUND)),
        Some(endpoint) => match method {
            Method::Get => RoutedView::Reply(fetched(options, endpoint)),
            Method::Post => posted(endpoint, body),
            Method::Other => RoutedView::Reply(status_only(METHOD_NOT_ALLOWED)),
        },
    }
}

/// Answers a `GET` of `/DeviceSpec`.
pub fn get_device_spec(options: &DMROptions) -> (r: Response)
    ensures
        r@ == fetched(options@, Endpoint::DeviceSpec),
{
    Response::document(device_spec(options))
}

/// Answers a `GET` of `/RenderingControl`.
pub fn get_rendering_control() -> (r: Response)
    ensures
        r@ == document(rendering_control_text()),
{
    Response::document(rendering_control_scpd())
}

/// Answers a `GET` of `/AVTransport`.
pub fn get_av_transport() -> (r: Response)
    ensures
        r@ == document(av_transport_text()),
{
    Response::document(av_transport_scpd())
}

/// Answers a `GET` of `/Ignore`.
pub fn get_ignore() -> (r: Response)
    ensures
        r@ == status_only(NO_CONTENT),
{
    Response::status(NO_CONTENT)
}

/// Answers a `POST` to `/DeviceSpec`.
pub fn post_device_spec() -> (r: Response)
    ensures
        r@ == status_only(METHOD_NOT_ALLOWED),
{
    Response::status(METHOD_NOT_ALLOWED)
}

/// Answers a `POST` to `/Ignore`.
pub fn post_ignore() -> (r: Response)
    ensures
        r@ == status_only(NO_CONTENT),
{
    Response::status(NO_CONTENT)
}

/// Makes of a request what the dispatcher can make of it by itself.
pub fn route(options: &DMROptions, method: Method, path: &str, body: &str) -> (r: Routed)
    ensures
        r@ == routed(options@, method, path@, body@),
{
    let endpoint = match Endpoint::from_path(path) {
        Some(endpoint) => endpoint,
        None => {
            return Routed::Reply(Response::status(NOT_FOUND));
        },
    };
    match method {
        Method::Get => Routed::Reply(
            match endpoint {
                Endpoint::DeviceSpec => get_device_spec(options),
                Endpoint::RenderingControl => get_rendering_control(),
                Endpoint::AVTransport => get_av_transport(),
                Endpoint::Ignore => get_ignore(),
            },
        ),
        Method::Post => match endpoint {
            Endpoint::DeviceSpec => Routed::Reply(post_device_spec()),
            Endpoint::RenderingControl => Routed::RenderingControl(RenderingControl::parse(body)),
            Endpoint::AVTransport => Routed::AVTransport(AVTransport::parse(body)),
            Endpoint::Ignore => Routed::Reply(post_ignore()),
        },
        Method::Other => Routed::Reply(Response::status(METHOD_NOT_ALLOWED)),
    }
}

/// The handlers of the two services. A renderer overrides them to act on
/// the actions it is sent; a handler that is not overridden answers that
/// the method is not allowed.
pub trait HTTPServer {
    /// Handles an action of the `RenderingControl` service, or the failure
    /// to decode one. What it returns is the response.
    fn post_rendering_control(
        &self,
        rendering_control: Result<RenderingControl, ParseFailure>,
    ) -> (r: Response)
        default_ensures
            r@ == status_only(METHOD_NOT_ALLOWED),
    {
        Response::status(METHOD_NOT_ALLOWED)
    }

    /// Handles an action of the `AVTransport` service, or the failure to
    /// decode one. What it returns is the response.
    fn post_av_transport(&self, av_transport: Result<AVTransport, ParseFailure>) -> (r: Response)
        default_ensures
            r@ == status_only(METHOD_NOT_ALLOWED),
    {
        Response::status(METHOD_NOT_ALLOWED)
    }
}

/// Answers what the dispatcher made of a request: a fixed response is
/// the answer, an action goes to the handler of its service.
pub fn answer<H: HTTPServer>(server: &H, routed: Routed) -> (r: Response)
    ensures
        routed matches Routed::Reply(response) ==> r == response,
        routed matches Routed::RenderingControl(action) ==> call_ensures(
            H::post_rendering_control,
            (server, action),
            r,
        ),
        routed matches Routed::AVTransport(action) ==> call_ensures(
            H::post_av_transport,
            (server, action),
            r,
        ),
{
    match routed {
        Routed::Reply(response) => response,
        Routed::RenderingControl(action) => server.post_rendering_control(action),
        Routed::AVTransport(action) => server.post_av_transport(action),
    }
}

/// Answers a request. Where the dispatcher answers by itself, the
/// response is fixed; a `POST` to one of the two services is answered by
/// the handler of that service.
pub fn serve<H: HTTPServer>(
    server: &H,
    options: &DMROptions,
    method: Method,
    path: &str,
    body: &str,
) -> (r: Response)
    ensures
        routed(options@, method, path@, body@) matches RoutedView::Reply(response) ==> r@
            == response,
        routed(options@, method, path@, body@) matches RoutedView::RenderingControl(action)
            ==> exists|decoded: Result<RenderingControl, ParseFailure>|
            viewed(decoded) == action && call_ensures(
                H::post_rendering_control,
                (server, decoded),
                r,
            ),
        routed(options@, method, path@, body@) matches RoutedView::AVTransport(action)
            ==> exists|decoded: Result<AVTransport, ParseFailure>|
            viewed(decoded) == action && call_ensures(H::post_av_transport, (server, decoded), r),
{
    answer(server, route(options, method, path, body))
}

/// A renderer that overrides no handler.
pub struct Unhandled;

impl HTTPServer for Unhandled {}

/// A renderer that overrides no handler answers every action, and every
/// failure to decode one, with the status that the method is not allowed.
pub proof fn lemma_unhandled_declines(
    server: &Unhandled,
    rendering_control: Result<RenderingControl, ParseFailure>,
    av_transport: Result<AVTransport, ParseFailure>,
    r: Response,
)
    requires
        call_ensures(Unhandled::post_rendering_control, (server, rendering_control), r)
            || call_ensures(Unhandled::post_av_transport, (server, av_transport), r),
    ensures
        r@ == status_only(METHOD_NOT_ALLOWED),
{
}

/// A `GET` of either service is answered with its document: status 200,
/// the XML content type and a body that is not empty, whatever the
/// options and whatever body the request has.
pub proof fn lemma_get_service_document(options: DMROptionsView, body: Seq<char>)
    ensures
        routed(options, Method::Get, "/RenderingControl"@, body) == RoutedView::Reply(
            document(rendering_control_text()),
        ),
        routed(options, Method::Get, "/AVTransport"@, body) == RoutedView::Reply(
            document(av_transport_text()),
        ),
        document(rendering_control_text()).status == 200,
        document(av_transport_text()).status == 200,
        document(rendering_control_text()).content_type == Some(XML_CONTENT_TYPE@),
        document(av_transport_text()).content_type == Some(XML_CONTENT_TYPE@),
        rendering_control_text().len() > 0,
        av_transport_text().len() > 0,
{
    lemma_endpoint_round_trip(Endpoint::RenderingControl);
    lemma_endpoint_round_trip(Endpoint::AVTransport);
    crate::description::lemma_documents_not_empty(options);
}

/// A `POST` to `/Ignore` is answered with no content, whatever it holds.
pub proof fn lemma_post_ignore_is_empty(options: DMROptionsView, body: Seq<char>)
    ensures
        routed(options, Method::Post, "/Ignore"@, body) == RoutedView::Reply(
            ResponseView { status: 204, content_type: None, body: Seq::empty() },
        ),
{
    lemma_endpoint_round_trip(Endpoint::Ignore);
}

/// A request for a path of no resource is not found, whatever its method
/// and its body.
pub proof fn lemma_unknown_path_not_found(
    options: DMROptionsView,
    method: Method,
    path: Seq<char>,
    body: Seq<char>,
)
    requires
        endpoint_at(path) is None,
    ensures
        routed(options, method, path, body) == RoutedView::Reply(
            ResponseView { status: 404, content_type: None, body: Seq::empty() },
        ),
{
}

} // verus!
