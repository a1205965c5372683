use vstd::prelude::*;

use crate::error::DnsError;
use crate::resolver::{pinned_authoritative_config, spec_pinned_config, IpAddress, ResolverConfig};

verus! {

/// One nameserver hostname from the domain's NS record set, together with
/// the addresses it resolved to, or `None` where resolution failed.
pub struct HostAddresses {
    pub hostname: String,
    pub addresses: Option<Vec<IpAddress>>,
}

/// The addresses a single host contributes: none at all when it failed to
/// resolve.
pub open spec fn spec_host_addresses(h: HostAddresses) -> Seq<IpAddress> {
    match h.addresses {
        Option::None => Seq::empty(),
        Option::Some(addrs) => addrs@,
    }
}

/// The addresses of all hosts that resolved, in discovery order; a host that
/// failed to resolve is skipped rather than treated as fatal.
pub open spec fn spec_reachable_addresses(hosts: Seq<HostAddresses>) -> Seq<IpAddress>
    decreases hosts.len(),
{
    if hosts.len() == 0 {
        Seq::empty()
    } else {
        spec_reachable_addresses(hosts.drop_last()) + spec_host_addresses(hosts.last())
    }
}

/// Builds one non-caching resolver configuration per address of every
/// nameserver that resolved, in discovery order. An empty NS set is the
/// fatal `DomainHasNoAuthority`; a hostname that failed to resolve is
/// skipped, so verification can proceed on the reachable servers. Callers
/// must query every returned entry independently. The skip policy has a
/// corner: where every hostname fails to resolve, the returned set is empty,
/// and a check round over an empty set counts as agreement, so a caller may
/// succeed without one authoritative answer.
pub fn authoritative_resolver_configs(hosts: &Vec<HostAddresses>, ipv6_only: bool) -> (r: Result<
    Vec<ResolverConfig>,
    DnsError,
>)
    ensures
        match r {
            Result::Err(e) => e == DnsError::DomainHasNoAuthority && hosts@.len() == 0,
            Result::Ok(cs) => {
                &&& hosts@.len() > 0
                &&& cs@.len() == spec_reachable_addresses(hosts@).len()
                &&& forall|i: int|
                    0 <= i < cs@.len() ==> spec_pinned_config(
                        #[trigger] cs@[i],
                        spec_reachable_addresses(hosts@)[i],
                        ipv6_only,
                    )
            },
        },
{
    if hosts.len() == 0 {
        return Result::Err(DnsError::DomainHasNoAuthority);
    }
    let mut configs: Vec<ResolverConfig> = Vec::new();
    let mut hi: usize = 0;
    while hi < hosts.len()
        invariant
            0 <= hi <= hosts@.len(),
            configs@.len() == spec_reachable_addresses(hosts@.take(hi as int)).len(),
            forall|i: int|
                0 <= i < configs@.len() ==> spec_pinned_config(
                    #[trigger] configs@[i],
                    spec_reachable_addresses(hosts@.take(hi as int))[i],
                    ipv6_only,
                ),
        decreases hosts@.len() - hi,
    {
        let ghost prefix = spec_reachable_addresses(hosts@.take(hi as int));
        let host = &hosts[hi];
        match &host.addresses {
            Option::None => {
                proof {
                    assert(spec_host_addresses(hosts@[hi as int]) =~= Seq::empty());
                }
            },
            Option::Some(addrs) => {
                let mut ai: usize = 0;
                while ai < addrs.len()
                    invariant
                        0 <= ai <= addrs@.len(),
                        configs@.len() == prefix.len() + ai,
                        forall|i: int|
                            0 <= i < prefix.len() ==> spec_pinned_config(
                                #[trigger] configs@[i],
                                prefix[i],
                                ipv6_only,
                            ),
                        forall|i: int|
                            prefix.len() <= i < configs@.len() ==> spec_pinned_config(
                                #[trigger] configs@[i],
                                addrs@[i - prefix.len()],
                                ipv6_only,
                            ),
                    decreases addrs@.len() - ai,
                {
                    let c = pinned_authoritative_config(addrs[ai], ipv6_only);
                    configs.push(c);
                    ai += 1;
                }
                proof {
                    assert(spec_host_addresses(hosts@[hi as int]) == addrs@);
                }
            },
        }
        proof {
            let taken = hosts@.take(hi + 1 as int);
            assert(taken.drop_last() =~= hosts@.take(hi as int));
            assert(taken.last() == hosts@[hi as int]);
            assert(spec_reachable_addresses(taken) == prefix + spec_host_addresses(
                hosts@[hi as int],
            ));
        }
        hi += 1;
    }
    proof {
        assert(hosts@.take(hosts@.len() as int) =~= hosts@);
    }
    Result::Ok(configs)
}

} // verus!
