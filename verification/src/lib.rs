//! A message-relay host library: length-prefixed JSON framing over a byte
//! stream, a closed request/response data model, and the decision logic of a
//! read-dispatch-respond loop that runs until the input stream ends.

pub mod codec;
pub mod frame;
pub mod host;
pub mod protocol;
pub mod save;
