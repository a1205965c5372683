//! Verifies that an ACME DNS-01 challenge TXT record has propagated to every
//! authoritative nameserver of a domain before certificate issuance proceeds,
//! and decodes the bearer token that the DNS-provider API client presents.
//!
//! The DNS side models resolvers as explicit configurations, discovers the
//! authoritative set from NS delegation data, and drives a bounded
//! retry state machine until all nameservers agree on the expected value.

pub mod base64url;
pub mod discovery;
pub mod error;
pub mod matcher;
pub mod poller;
pub mod resolver;
pub mod token;
