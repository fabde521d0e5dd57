//! The core of a DNS-over-HTTPS gateway: the configuration of the upstream
//! resolvers, the decoding of the two HTTP encodings of a DNS query, the rule
//! that a query holds exactly one question, and the HTTP response for every
//! outcome of a request.

pub mod arguments;
pub mod dns_client;
pub mod http_server;
pub mod text;
