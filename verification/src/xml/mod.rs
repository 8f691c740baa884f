//! Decoding of the XML control messages a control point posts to the renderer.

pub mod reader;
pub mod document;
pub mod message;
pub mod av_transport;
pub mod rendering_control;

pub use av_transport::AVTransport;
pub use message::{FailureKind, ParseFailure};
pub use rendering_control::RenderingControl;
