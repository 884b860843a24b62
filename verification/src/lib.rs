//! Protocol engine of an HTTP CONNECT tunnel: request framing, destination
//! selection and the per-connection session state machine.

pub mod buffer;
pub mod codec;
pub mod codec_lemmas;
pub mod dns;
pub mod dns_lemmas;
pub mod error;
pub mod session;
pub mod session_lemmas;
pub mod startup;
pub mod text;
pub mod tls;
