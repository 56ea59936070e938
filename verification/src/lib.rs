//! The engine of a conversational session with a remote text generator.
//!
//! The crate owns the running context of a conversation, builds the prompt of
//! each exchange, classifies what the transport brought back, and drives the
//! session as a state machine whose caller performs the input, the network
//! call, the rendering and the final save of the transcript.

pub mod context;
pub mod laws;
pub mod request;
pub mod response;
pub mod session;
pub mod text;
