//! A DNS client library: wire-format codec for DNS messages and the
//! transport decision logic that drives queries over UDP, TCP, TLS and
//! HTTPS, together with the record-data decoders for the supported
//! resource-record types.

pub mod http;
pub mod message;
pub mod options;
pub mod output;
pub mod record;
pub mod strings;
pub mod text;
pub mod transport;
pub mod wire;
