//! Wire framing for a multiplexed binary protocol.
//!
//! One transport connection carries many logical sessions.  Each unit on the
//! wire is an envelope: a fixed-width big-endian header (protocol version,
//! service id, session id, payload size) followed by the payload bytes.  This
//! crate defines the canonical byte layout, serialization of an envelope plus
//! payload into an output buffer, and incremental reconstruction of envelopes
//! from a growing, possibly partial receive buffer.

pub mod buffer;
pub mod laws;
pub mod msg;

pub use msg::ArrowMessage;
pub use msg::ArrowMessageBody;
pub use msg::ArrowMessageHeader;
pub use msg::DecodeError;
pub use msg::Encode;
pub use msg::MessageBody;
