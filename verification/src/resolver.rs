use vstd::prelude::*;

verus! {

/// One nameserver address, IPv4 or IPv6, held as its numeric value.
#[derive(Clone, Copy, Debug, PartialEq, Eq, Structural)]
pub enum IpAddress {
    V4(u32),
    V6(u128),
}

/// Which address families a resolver resolves names to.
#[derive(Clone, Copy, Debug, PartialEq, Eq, Structural)]
pub enum IpStrategy {
    /// Both IPv4 and IPv6 answers are allowed.
    Dual,
    /// Only IPv6 (AAAA) answers are allowed.
    Ipv6Only,
}

/// Configuration for one DNS resolver: the servers it queries, whether it
/// asks them to recurse, and which address families it resolves.
#[derive(Clone, Debug)]
pub struct ResolverConfig {
    pub nameservers: Vec<IpAddress>,
    pub recursion_desired: bool,
    pub strategy: IpStrategy,
    /// Always false: local host overrides must not mask real propagation state.
    pub use_hosts_file: bool,
}

/// The strategy that an `ipv6_only` toggle selects.
pub open spec fn spec_strategy(ipv6_only: bool) -> IpStrategy {
    if ipv6_only {
        IpStrategy::Ipv6Only
    } else {
        IpStrategy::Dual
    }
}

impl ResolverConfig {
    /// A well-formed resolver never consults the local hosts file.
    pub open spec fn wf(&self) -> bool {
        !self.use_hosts_file
    }

    /// An authoritative resolver is pinned to exactly one address and never
    /// recurses, so its answers cannot come from a cache.
    pub open spec fn is_authoritative(&self) -> bool {
        &&& self.wf()
        &&& self.nameservers@.len() == 1
        &&& !self.recursion_desired
    }
}

/// Builds a resolver configuration. The hosts file is always disabled, and
/// `ipv6_only` restricts lookups to AAAA records; otherwise dual-stack is
/// allowed.
pub fn build_resolver_config(
    nameservers: Vec<IpAddress>,
    recursion_desired: bool,
    ipv6_only: bool,
) -> (c: ResolverConfig)
    ensures
        c.nameservers@ == nameservers@,
        c.recursion_desired == recursion_desired,
        c.strategy == spec_strategy(ipv6_only),
        c.wf(),
{
    ResolverConfig {
        nameservers,
        recursion_desired,
        strategy: if ipv6_only {
            IpStrategy::Ipv6Only
        } else {
            IpStrategy::Dual
        },
        use_hosts_file: false,
    }
}

/// Whether `c` is the configuration that pins the single authoritative
/// address `address`: recursion disabled, hosts file disabled.
pub open spec fn spec_pinned_config(c: ResolverConfig, address: IpAddress, ipv6_only: bool) -> bool {
    &&& c.nameservers@ == seq![address]
    &&& !c.recursion_desired
    &&& c.strategy == spec_strategy(ipv6_only)
    &&& !c.use_hosts_file
}

/// A configuration pinned to a single authoritative nameserver address, with
/// recursion disabled so only that server's own answer is accepted.
pub fn pinned_authoritative_config(address: IpAddress, ipv6_only: bool) -> (c: ResolverConfig)
    ensures
        spec_pinned_config(c, address, ipv6_only),
        c.is_authoritative(),
{
    let mut nameservers: Vec<IpAddress> = Vec::new();
    nameservers.push(address);
    let c = build_resolver_config(nameservers, false, ipv6_only);
    proof {
        assert(c.nameservers@ =~= seq![address]);
    }
    c
}

/// The closed set of named public recursive resolvers used only to bootstrap
/// delegation discovery.
#[derive(Clone, Copy, Debug, PartialEq, Eq, Structural)]
pub enum ResolverType {
    Google,
}

/// The fixed bootstrap address group of a named public resolver.
pub open spec fn spec_bootstrap_ips(t: ResolverType) -> Seq<IpAddress> {
    match t {
        ResolverType::Google => seq![
            IpAddress::V4(0x08080808),
            IpAddress::V4(0x08080404),
            IpAddress::V6(0x2001_4860_4860_0000_0000_0000_0000_8888),
            IpAddress::V6(0x2001_4860_4860_0000_0000_0000_0000_8844),
        ],
    }
}

impl ResolverType {
    /// The bootstrap addresses of this resolver service.
    pub fn bootstrap_ips(&self) -> (ips: Vec<IpAddress>)
        ensures
            ips@ == spec_bootstrap_ips(*self),
    {
        match self {
            ResolverType::Google => {
                let mut ips: Vec<IpAddress> = Vec::new();
                ips.push(IpAddress::V4(0x08080808));
                ips.push(IpAddress::V4(0x08080404));
                ips.push(IpAddress::V6(0x2001_4860_4860_0000_0000_0000_0000_8888));
                ips.push(IpAddress::V6(0x2001_4860_4860_0000_0000_0000_0000_8844));
                proof {
                    assert(ips@ =~= spec_bootstrap_ips(*self));
                }
                ips
            },
        }
    }

    /// A recursive resolver pointed at this service's fixed addresses, used
    /// only for delegation discovery: its answers may be cached, so it must
    /// never answer the challenge check itself.
    pub fn recursive_resolver(&self, ipv6_only: bool) -> (c: ResolverConfig)
        ensures
            c.nameservers@ == spec_bootstrap_ips(*self),
            c.recursion_desired,
            c.strategy == spec_strategy(ipv6_only),
            c.wf(),
    {
        build_resolver_config(self.bootstrap_ips(), true, ipv6_only)
    }

    /// A plain resolver against the same addresses, for ancillary lookups
    /// such as address or NS queries; never to be used on the
    /// authoritative-answer path.
    pub fn resolver(&self, ipv6_only: bool) -> (c: ResolverConfig)
        ensures
            c.nameservers@ == spec_bootstrap_ips(*self),
            c.recursion_desired,
            c.strategy == spec_strategy(ipv6_only),
            c.wf(),
    {
        build_resolver_config(self.bootstrap_ips(), true, ipv6_only)
    }
}

} // verus!
