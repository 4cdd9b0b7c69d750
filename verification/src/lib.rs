//! Typed extension payloads for a domain-registration protocol client.
//!
//! Every payload is mapped to and from a namespace-qualified element tree
//! ([`element::Element`]). Requests implement [`request::Extension`], replies
//! implement [`request::Response`], and several requests travel together in
//! a composite ([`extensions::composite`]). An extension is attached to a
//! command in a [`request::Transaction`], which admits only the declared
//! pairs of command and extension: by a witness known when the program is
//! compiled, or by a test when it runs.

pub mod amount;
pub mod element;
pub mod error;
pub mod extensions;
pub mod request;
pub mod text;
pub mod time;
pub mod xml;
