//! A framework for building a Digital Media Renderer: the discovery
//! announcer and responder, and the codec and dispatcher for the control
//! messages a control point sends to the renderer.

pub mod defaults;
pub mod description;
pub mod extractor;
pub mod http;
pub mod net;
pub mod ssdp;
pub mod supervisor;
pub mod text;
pub mod xml;

pub use crate::http::{HTTPServer, Response};
use crate::net::Ipv4;
use vstd::prelude::*;

verus! {

/// The options of a renderer.
#[derive(Clone, Debug, PartialEq, Eq)]
pub struct DMROptions {
    /// The address of the renderer in the local network.
    pub ip: Ipv4,
    /// The port of the discovery protocol.
    pub ssdp_port: u16,
    /// The port of the control transport.
    pub http_port: u16,
    /// The unique identifier of the renderer.
    pub uuid: String,
    /// The friendly name of the renderer.
    pub friendly_name: String,
    /// The model name of the renderer.
    pub model_name: String,
    /// The model description of the renderer.
    pub model_description: String,
    /// The model URL of the renderer.
    pub model_url: String,
    /// The manufacturer of the renderer.
    pub manufacturer: String,
    /// The manufacturer's URL of the renderer.
    pub manufacturer_url: String,
    /// The serial number of the renderer.
    pub serial_number: String,
}

/// The mathematical value of a [`DMROptions`].
pub ghost struct DMROptionsView {
    pub ip: Ipv4,
    pub ssdp_port: u16,
    pub http_port: u16,
    pub uuid: Seq<char>,
    pub friendly_name: Seq<char>,
    pub model_name: Seq<char>,
    pub model_description: Seq<char>,
    pub model_url: Seq<char>,
    pub manufacturer: Seq<char>,
    pub manufacturer_url: Seq<char>,
    pub serial_number: Seq<char>,
}

impl View for DMROptions {
    type V = DMROptionsView;

    open spec fn view(&self) -> DMROptionsView {
        DMROptionsView {
            ip: self.ip,
            ssdp_port: self.ssdp_port,
            http_port: self.http_port,
            uuid: self.uuid@,
            friendly_name: self.friendly_name@,
            model_name: self.model_name@,
            model_description: self.model_description@,
            model_url: self.model_url@,
            manufacturer: self.manufacturer@,
            manufacturer_url: self.manufacturer_url@,
            serial_number: self.serial_number@,
        }
    }
}

impl DMROptions {
    /// The options of a renderer at the address `ip` for which nothing
    /// else is given: the usual ports, a unique identifier drawn at
    /// random, and the names of a dummy renderer.
    pub fn at(ip: Ipv4) -> (r: DMROptions)
        ensures
            r@.ip == ip,
            r@.ssdp_port == 1900,
            r@.http_port == 8080,
            defaults::is_random_uuid(r@.uuid),
            r@.friendly_name == "Dummy Renderer"@,
            r@.model_name == "Dummy Model"@,
            r@.model_description == "A dummy DLNA DMR"@,
            r@.model_url == "http://example.com/dummy_model"@,
            r@.manufacturer == "Dummy Manufacturer"@,
            r@.manufacturer_url == "http://example.com/manufacturer"@,
            r@.serial_number == "12345678-1234-5678-1234-567812345678"@,
    {
        DMROptions {
            ip,
            ssdp_port: defaults::ssdp_port(),
            http_port: defaults::http_port(),
            uuid: defaults::uuid(),
            friendly_name: defaults::friendly_name(),
            model_name: defaults::model_name(),
            model_description: defaults::model_description(),
            model_url: defaults::model_url(),
            manufacturer: defaults::manufacturer(),
            manufacturer_url: defaults::manufacturer_url(),
            serial_number: defaults::serial_number(),
        }
    }
}

} // verus!
