use vstd::prelude::*;

verus! {

/// Failures of the DNS verification path. Each is terminal for its call:
/// "not yet matching" is never an error, only a reason to retry.
#[derive(Clone, Copy, Debug, PartialEq, Eq, Structural)]
pub enum DnsError {
    /// The resolver engine could not be configured.
    ResolverInit,
    /// The NS lookup for the domain returned no nameservers.
    DomainHasNoAuthority,
    /// A DNS query failed at the protocol or network layer.
    Transport,
    /// The retry budget ran out without unanimous agreement.
    AcmeChallengeTimeout,
}

/// Failures of bearer-token decoding.
#[derive(Clone, Copy, Debug, PartialEq, Eq, Structural)]
pub enum TokenError {
    /// The token is not three dot-separated sections.
    Malformed,
    /// The claims section is not valid URL-safe base64.
    Base64,
    /// The claims bytes do not hold a JSON object with an integer `exp`.
    Claims,
    /// Reading or writing the raw token failed.
    Io,
}

} // verus!
