use dns_check::discovery::{authoritative_resolver_configs, HostAddresses};
use dns_check::error::DnsError;
use dns_check::matcher::{challenge_record_name, has_single_acme};
use dns_check::poller::{
    poll_step_outcome, round_outcome, PollConfig, PollState, PollStep, RoundOutcome,
};
use dns_check::resolver::{IpAddress, IpStrategy, ResolverType};

#[test]
fn google_bootstrap_addresses() {
    let ips = ResolverType::Google.bootstrap_ips();
    assert_eq!(
        ips,
        vec![
            IpAddress::V4(0x08080808),
            IpAddress::V4(0x08080404),
            IpAddress::V6(0x2001_4860_4860_0000_0000_0000_0000_8888),
            IpAddress::V6(0x2001_4860_4860_0000_0000_0000_0000_8844),
        ]
    );
}

#[test]
fn recursive_resolver_recurses_and_never_reads_hosts_file() {
    let config = ResolverType::Google.recursive_resolver(true);
    assert!(config.recursion_desired);
    assert!(!config.use_hosts_file);
    assert_eq!(config.strategy, IpStrategy::Ipv6Only);
    assert_eq!(config.nameservers.len(), 4);
    let dual = ResolverType::Google.resolver(false);
    assert_eq!(dual.strategy, IpStrategy::Dual);
    assert!(!dual.use_hosts_file);
}

#[test]
fn discovery_with_no_nameservers_is_fatal() {
    let hosts: Vec<HostAddresses> = Vec::new();
    let result = authoritative_resolver_configs(&hosts, true);
    assert!(matches!(result, Err(DnsError::DomainHasNoAuthority)));
}

#[test]
fn discovery_skips_a_host_that_fails_to_resolve() {
    let hosts = vec![
        HostAddresses {
            hostname: "ns0.example.net".to_owned(),
            addresses: Some(vec![IpAddress::V6(0x10), IpAddress::V6(0x11)]),
        },
        HostAddresses {
            hostname: "ns1.example.net".to_owned(),
            addresses: None,
        },
        HostAddresses {
            hostname: "ns2.example.net".to_owned(),
            addresses: Some(vec![IpAddress::V4(0x0a000001)]),
        },
    ];
    let configs = authoritative_resolver_configs(&hosts, true).unwrap();
    // The unresolvable host contributes nothing; the rest stay in order.
    assert_eq!(configs.len(), 3);
    assert_eq!(configs[0].nameservers, vec![IpAddress::V6(0x10)]);
    assert_eq!(configs[1].nameservers, vec![IpAddress::V6(0x11)]);
    assert_eq!(configs[2].nameservers, vec![IpAddress::V4(0x0a000001)]);
    for config in &configs {
        assert!(!config.recursion_desired);
        assert!(!config.use_hosts_file);
    }
}

#[test]
fn challenge_record_name_prefixes_the_domain() {
    assert_eq!(
        challenge_record_name("example.com"),
        "_acme-challenge.example.com"
    );
}

#[test]
fn exact_value_matches() {
    let values = vec!["abc123".to_owned()];
    assert!(has_single_acme(&values, "abc123"));
}

#[test]
fn superstring_and_substring_do_not_match() {
    let values = vec!["abc1234".to_owned(), "abc12".to_owned(), "xabc123".to_owned()];
    assert!(!has_single_acme(&values, "abc123"));
}

#[test]
fn absent_answer_does_not_match() {
    let values: Vec<String> = Vec::new();
    assert!(!has_single_acme(&values, "abc123"));
}

#[test]
fn round_outcome_aggregation() {
    assert_eq!(
        round_outcome(&vec![Ok(true), Ok(true)]),
        RoundOutcome::AllMatched
    );
    assert_eq!(
        round_outcome(&vec![Ok(true), Ok(false)]),
        RoundOutcome::NotAllMatched
    );
    assert_eq!(
        round_outcome(&vec![Ok(true), Err(DnsError::Transport)]),
        RoundOutcome::Failed
    );
    // No servers at all leave nothing that disagrees.
    assert_eq!(round_outcome(&Vec::new()), RoundOutcome::AllMatched);
}

#[test]
fn two_agreeing_nameservers_converge_in_the_first_round() {
    let values = vec!["abc123".to_owned()];
    let results = vec![
        Ok(has_single_acme(&values, "abc123")),
        Ok(has_single_acme(&values, "abc123")),
    ];
    let config = PollConfig::standard();
    let mut state = PollState::new();
    let step = state.decide(&config, round_outcome(&results));
    assert_eq!(step, PollStep::Done);
    assert_eq!(state.failed_attempts, 0);
}

#[test]
fn a_repeated_call_on_a_converged_pair_uses_no_retries() {
    let config = PollConfig::standard();
    let mut state = PollState::new();
    assert_eq!(state.decide(&config, RoundOutcome::AllMatched), PollStep::Done);
    assert_eq!(state.failed_attempts, 0);
    // The next call owns a fresh counter and succeeds the same way.
    let mut again = PollState::new();
    assert_eq!(again.decide(&config, RoundOutcome::AllMatched), PollStep::Done);
    assert_eq!(again.failed_attempts, 0);
}

#[test]
fn transport_failure_aborts_at_once() {
    let config = PollConfig::standard();
    let mut state = PollState::new();
    assert_eq!(state.decide(&config, RoundOutcome::Failed), PollStep::Abort);
    assert_eq!(state.failed_attempts, 0);
}

#[test]
fn full_budget_of_disagreement_times_out_after_720_rounds() {
    let config = PollConfig::standard();
    let mut state = PollState::new();
    let mut rounds: u64 = 0;
    loop {
        rounds += 1;
        match state.decide(&config, RoundOutcome::NotAllMatched) {
            PollStep::Retry { wait_seconds } => {
                assert_eq!(wait_seconds, 5);
            }
            PollStep::Timeout => break,
            step => panic!("unexpected step {:?}", step),
        }
    }
    assert_eq!(rounds, 720);
    assert_eq!(state.failed_attempts, 720);
}

#[test]
fn late_propagation_converges_after_ten_retry_intervals() {
    let config = PollConfig::standard();
    let mut state = PollState::new();
    let mut waited = config.initial_delay_seconds;
    for _ in 0..10 {
        match state.decide(&config, RoundOutcome::NotAllMatched) {
            PollStep::Retry { wait_seconds } => waited += wait_seconds,
            step => panic!("unexpected step {:?}", step),
        }
    }
    assert_eq!(state.decide(&config, RoundOutcome::AllMatched), PollStep::Done);
    assert_eq!(state.failed_attempts, 10);
    // Ten 5 s intervals plus the initial 1 s wait: about 50 s of waiting.
    assert_eq!(waited, 51);
}

#[test]
fn each_poll_step_maps_to_its_own_outcome() {
    assert_eq!(poll_step_outcome(PollStep::Done), Some(Ok(())));
    assert_eq!(
        poll_step_outcome(PollStep::Timeout),
        Some(Err(DnsError::AcmeChallengeTimeout))
    );
    assert_eq!(
        poll_step_outcome(PollStep::Abort),
        Some(Err(DnsError::Transport))
    );
    assert_eq!(poll_step_outcome(PollStep::Retry { wait_seconds: 5 }), None);
}

#[test]
fn a_shrunk_budget_times_out_early() {
    let config = PollConfig {
        max_attempts: 3,
        retry_interval_seconds: 1,
        initial_delay_seconds: 0,
    };
    let mut state = PollState::new();
    assert_eq!(
        state.decide(&config, RoundOutcome::NotAllMatched),
        PollStep::Retry { wait_seconds: 1 }
    );
    assert_eq!(
        state.decide(&config, RoundOutcome::NotAllMatched),
        PollStep::Retry { wait_seconds: 1 }
    );
    assert_eq!(state.decide(&config, RoundOutcome::NotAllMatched), PollStep::Timeout);
    assert_eq!(state.failed_attempts, 3);
}
