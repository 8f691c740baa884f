//! The values that the options of a renderer have where none are given.

use vstd::prelude::*;

verus! {

/// Whether `s` has the shape of a random UUID in its usual notation: 36
/// characters in five groups that hyphens part, the third of which begins
/// with the version `4`.
pub open spec fn is_random_uuid(s: Seq<char>) -> bool {
    &&& s.len() == 36
    &&& s[8] == '-'
    &&& s[13] == '-'
    &&& s[18] == '-'
    &&& s[23] == '-'
    &&& s[14] == '4'
}

/// Draws a random UUID with `uuid::Uuid::new_v4` and writes it with its
/// `to_string`.
///
/// Trusted: whatever is drawn, the text is the hyphenated notation of a
/// UUID of version 4.
#[verifier::external_body]
fn random_uuid() -> (r: String)
    ensures
        is_random_uuid(r@),
{
    uuid::Uuid::new_v4().to_string()
}

/// The port of the discovery protocol.
pub fn ssdp_port() -> (r: u16)
    ensures
        r == 1900,
{
    1900
}

/// The port of the control transport.
pub fn http_port() -> (r: u16)
    ensures
        r == 8080,
{
    8080
}

/// A unique identifier for a renderer, drawn at random.
pub fn uuid() -> (r: String)
    ensures
        is_random_uuid(r@),
{
    random_uuid()
}

/// The friendly name of a renderer.
pub fn friendly_name() -> (r: String)
    ensures
        r@ == "Dummy Renderer"@,
{
    String::from_str("Dummy Renderer")
}

/// The model name of a renderer.
pub fn model_name() -> (r: String)
    ensures
        r@ == "Dummy Model"@,
{
    String::from_str("Dummy Model")
}

/// The model description of a renderer.
pub fn model_description() -> (r: String)
    ensures
        r@ == "A dummy DLNA DMR"@,
{
    String::from_str("A dummy DLNA DMR")
}

/// The model URL of a renderer.
pub fn model_url() -> (r: String)
    ensures
        r@ == "http://example.com/dummy_model"@,
{
    String::from_str("http://example.com/dummy_model")
}

/// The manufacturer of a renderer.
pub fn manufacturer() -> (r: String)
    ensures
        r@ == "Dummy Manufacturer"@,
{
    String::from_str("Dummy Manufacturer")
}

/// The manufacturer's URL of a renderer.
pub fn manufacturer_url() -> (r: String)
    ensures
        r@ == "http://example.com/manufacturer"@,
{
    String::from_str("http://example.com/manufacturer")
}

/// The serial number of a renderer.
pub fn serial_number() -> (r: String)
    ensures
        r@ == "12345678-1234-5678-1234-567812345678"@,
{
    String::from_str("12345678-1234-5678-1234-567812345678")
}

} // verus!
