//! The protocol logic of Zed's web streaming: the frames exchanged between a
//! browser client and a streaming server, the conversion of browser input
//! into GPUI platform input, the client's view state, the proto-message
//! inspector's bookkeeping, the plain HTTP answers of both servers, and the
//! keyboard-layout shortcut equivalents.
use vstd::prelude::*;

pub mod client;
pub mod http;
pub mod input;
pub mod inspector;
pub mod key_equivalents;
pub mod keys;
pub mod remote_view;
pub mod server;
pub mod text;
pub mod wire;

verus! {

/// Version of the collaboration protocol spoken over the wire.
pub const PROTOCOL_VERSION: u32 = 68;

} // verus!
