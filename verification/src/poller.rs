use vstd::prelude::*;

use crate::discovery::HostAddresses;
use crate::error::DnsError;
use crate::matcher::spec_txt_match;

verus! {

/// Fixed per-call polling parameters. The budget and intervals are explicit
/// configuration so tests can shrink them; production uses `standard`.
#[derive(Clone, Copy, Debug)]
pub struct PollConfig {
    /// Failed CHECK rounds allowed before the call times out.
    pub max_attempts: u64,
    /// Seconds to sleep between two CHECK rounds.
    pub retry_interval_seconds: u64,
    /// Seconds to sleep once before the first CHECK round.
    pub initial_delay_seconds: u64,
}

impl PollConfig {
    /// A usable budget allows at least one failed round before timing out.
    pub open spec fn wf(&self) -> bool {
        self.max_attempts >= 1
    }

    /// The production budget: 720 retries of 5 s after an initial 1 s wait,
    /// so a call is bounded by about one hour of wall clock.
    pub fn standard() -> (c: PollConfig)
        ensures
            c.max_attempts == 720,
            c.retry_interval_seconds == 5,
            c.initial_delay_seconds == 1,
            c.wf(),
    {
        PollConfig { max_attempts: 720, retry_interval_seconds: 5, initial_delay_seconds: 1 }
    }
}

/// What one CHECK round observed across the whole authoritative set.
#[derive(Clone, Copy, Debug, PartialEq, Eq, Structural)]
pub enum RoundOutcome {
    /// Every authoritative resolver returned the expected value.
    AllMatched,
    /// No query failed, but at least one resolver lacks the value yet.
    NotAllMatched,
    /// Some query failed at the transport layer.
    Failed,
}

/// One CHECK round aggregated from the per-resolver match results, in
/// discovery order: a transport failure anywhere dominates, and the round
/// agrees only when every single resolver matched — a quorum is not enough.
pub open spec fn spec_round_outcome(results: Seq<Result<bool, DnsError>>) -> RoundOutcome {
    if exists|i: int| 0 <= i < results.len() && results[i] is Err {
        RoundOutcome::Failed
    } else if forall|i: int|
        0 <= i < results.len() ==> results[i] == Result::<bool, DnsError>::Ok(true) {
        RoundOutcome::AllMatched
    } else {
        RoundOutcome::NotAllMatched
    }
}

/// Aggregates one CHECK round.
pub fn round_outcome(results: &Vec<Result<bool, DnsError>>) -> (o: RoundOutcome)
    ensures
        o == spec_round_outcome(results@),
{
    let mut all: bool = true;
    let mut i: usize = 0;
    while i < results.len()
        invariant
            0 <= i <= results@.len(),
            forall|k: int| 0 <= k < i ==> !(#[trigger] results@[k] is Err),
            all == (forall|k: int|
                0 <= k < i ==> #[trigger] results@[k] == Result::<bool, DnsError>::Ok(true)),
        decreases results@.len() - i,
    {
        match results[i] {
            Result::Err(_) => {
                return RoundOutcome::Failed;
            },
            Result::Ok(b) => {
                if !b {
                    all = false;
                }
            },
        }
        i += 1;
    }
    if all {
        RoundOutcome::AllMatched
    } else {
        RoundOutcome::NotAllMatched
    }
}

/// The attempt counter that one convergence call owns exclusively; it is
/// discarded when the call reaches a terminal outcome.
#[derive(Clone, Copy, Debug)]
pub struct PollState {
    pub failed_attempts: u64,
}

/// What the caller must do after a CHECK round has been decided.
#[derive(Clone, Copy, Debug, PartialEq, Eq, Structural)]
pub enum PollStep {
    /// Unanimous agreement: the call succeeds now.
    Done,
    /// The retry budget is exhausted: fail with `AcmeChallengeTimeout`.
    Timeout,
    /// A transport failure: abort at once, it is not propagation lag.
    Abort,
    /// Sleep for the given seconds, then run the next CHECK round.
    Retry { wait_seconds: u64 },
}

/// DECIDE: unanimity succeeds and a transport failure aborts, both leaving
/// the counter alone; otherwise the counter grows by one and, on reaching
/// the budget, the call times out.
pub open spec fn spec_decide(failed_attempts: int, config: PollConfig, outcome: RoundOutcome) -> (
    int,
    PollStep,
) {
    match outcome {
        RoundOutcome::AllMatched => (failed_attempts, PollStep::Done),
        RoundOutcome::Failed => (failed_attempts, PollStep::Abort),
        RoundOutcome::NotAllMatched => if failed_attempts + 1 >= config.max_attempts {
            (failed_attempts + 1, PollStep::Timeout)
        } else {
            (
                failed_attempts + 1,
                PollStep::Retry { wait_seconds: config.retry_interval_seconds },
            )
        },
    }
}

impl PollState {
    /// A fresh call starts with no failed rounds counted.
    pub fn new() -> (s: PollState)
        ensures
            s.failed_attempts == 0,
    {
        PollState { failed_attempts: 0 }
    }

    /// Applies one DECIDE transition for the round outcome just observed.
    pub fn decide(&mut self, config: &PollConfig, outcome: RoundOutcome) -> (step: PollStep)
        requires
            old(self).failed_attempts < config.max_attempts,
        ensures
            (final(self).failed_attempts as int, step) == spec_decide(
                old(self).failed_attempts as int,
                *config,
                outcome,
            ),
            step matches PollStep::Retry { .. } ==> final(self).failed_attempts
                < config.max_attempts,
    {
        match outcome {
            RoundOutcome::AllMatched => PollStep::Done,
            RoundOutcome::Failed => PollStep::Abort,
            RoundOutcome::NotAllMatched => {
                self.failed_attempts = self.failed_attempts + 1;
                if self.failed_attempts >= config.max_attempts {
                    PollStep::Timeout
                } else {
                    PollStep::Retry { wait_seconds: config.retry_interval_seconds }
                }
            },
        }
    }
}

/// The terminal result a poll step dictates, or `None` while the poll must
/// go on: unanimity succeeds, an exhausted budget is `AcmeChallengeTimeout`
/// — distinguished so callers can tell "still propagating" from "broken" —
/// and a transport failure surfaces as `Transport`.
pub fn poll_step_outcome(step: PollStep) -> (r: Option<Result<(), DnsError>>)
    ensures
        step == PollStep::Done ==> r == Option::Some(Result::<(), DnsError>::Ok(())),
        step == PollStep::Timeout ==> r == Option::Some(
            Result::<(), DnsError>::Err(DnsError::AcmeChallengeTimeout),
        ),
        step == PollStep::Abort ==> r == Option::Some(
            Result::<(), DnsError>::Err(DnsError::Transport),
        ),
        (step matches PollStep::Retry { .. }) ==> r is None,
{
    match step {
        PollStep::Done => Option::Some(Result::Ok(())),
        PollStep::Timeout => Option::Some(Result::Err(DnsError::AcmeChallengeTimeout)),
        PollStep::Abort => Option::Some(Result::Err(DnsError::Transport)),
        PollStep::Retry { .. } => Option::None,
    }
}

/// What a whole polling run came to, with the number of CHECK rounds it
/// performed.
pub enum PollVerdict {
    /// Every nameserver agreed in the last round performed.
    Converged { rounds: nat },
    /// The retry budget ran out; every round performed failed to agree.
    TimedOut { rounds: nat },
    /// A transport failure ended the run.
    Aborted { rounds: nat },
    /// The outcome stream ended before the run reached a terminal state.
    Unfinished { rounds: nat },
}

/// Adds one performed round in front of a later verdict.
pub open spec fn spec_add_round(v: PollVerdict) -> PollVerdict {
    match v {
        PollVerdict::Converged { rounds } => PollVerdict::Converged { rounds: rounds + 1 },
        PollVerdict::TimedOut { rounds } => PollVerdict::TimedOut { rounds: rounds + 1 },
        PollVerdict::Aborted { rounds } => PollVerdict::Aborted { rounds: rounds + 1 },
        PollVerdict::Unfinished { rounds } => PollVerdict::Unfinished { rounds: rounds + 1 },
    }
}

/// The DECIDE machine run over a stream of round outcomes, starting with
/// `failed_attempts` failures already counted.
pub open spec fn spec_poll_from(
    failed_attempts: int,
    max_attempts: int,
    outcomes: Seq<RoundOutcome>,
) -> PollVerdict
    decreases outcomes.len(),
{
    if outcomes.len() == 0 {
        PollVerdict::Unfinished { rounds: 0 }
    } else {
        match outcomes[0] {
            RoundOutcome::AllMatched => PollVerdict::Converged { rounds: 1 },
            RoundOutcome::Failed => PollVerdict::Aborted { rounds: 1 },
            RoundOutcome::NotAllMatched => {
                if failed_attempts + 1 >= max_attempts {
                    PollVerdict::TimedOut { rounds: 1 }
                } else {
                    spec_add_round(
                        spec_poll_from(failed_attempts + 1, max_attempts, outcomes.drop_first()),
                    )
                }
            },
        }
    }
}

/// A fresh call's polling run: the counter starts at zero.
pub open spec fn spec_poll(max_attempts: int, outcomes: Seq<RoundOutcome>) -> PollVerdict {
    spec_poll_from(0, max_attempts, outcomes)
}

/// The whole verification call as a function of the discovery data and the
/// stream of round outcomes: an empty NS set fails in INIT, before any CHECK
/// round; otherwise the DECIDE machine runs on the stream.
pub enum VerificationVerdict {
    /// Discovery found no authoritative nameservers; `rounds` is zero.
    NoAuthority { rounds: nat },
    /// Discovery succeeded and polling ran.
    Polled { verdict: PollVerdict },
}

/// The outcome of one whole call, given what discovery saw and what each
/// CHECK round observed.
pub open spec fn spec_verification(
    hosts: Seq<HostAddresses>,
    max_attempts: int,
    outcomes: Seq<RoundOutcome>,
) -> VerificationVerdict {
    if hosts.len() == 0 {
        VerificationVerdict::NoAuthority { rounds: 0 }
    } else {
        VerificationVerdict::Polled { verdict: spec_poll(max_attempts, outcomes) }
    }
}

/// A round that already agrees lets the call converge at once: if the first
/// CHECK round is unanimous, the run converges in exactly one round,
/// consuming no retries. A second call on an already-converged pair is such
/// a run, so it too succeeds on its first round.
pub proof fn law_first_round_convergence(max_attempts: int, outcomes: Seq<RoundOutcome>)
    requires
        outcomes.len() >= 1,
        outcomes[0] == RoundOutcome::AllMatched,
    ensures
        spec_poll(max_attempts, outcomes) == (PollVerdict::Converged { rounds: 1nat }),
{
}

/// For a domain with at least one authoritative nameserver, if the expected
/// value is present identically on every one of them, the first round is
/// unanimous and the call converges in that round.
pub proof fn law_unanimous_success(
    answers: Seq<Seq<Seq<char>>>,
    challenge: Seq<char>,
    max_attempts: int,
    outcomes: Seq<RoundOutcome>,
)
    requires
        answers.len() >= 1,
        forall|i: int| 0 <= i < answers.len() ==> spec_txt_match(#[trigger] answers[i], challenge),
        outcomes.len() >= 1,
        outcomes[0] == spec_round_outcome(
            Seq::new(
                answers.len(),
                |i: int| Result::<bool, DnsError>::Ok(spec_txt_match(answers[i], challenge)),
            ),
        ),
    ensures
        spec_poll(max_attempts, outcomes) == (PollVerdict::Converged { rounds: 1nat }),
{
    let results = Seq::new(
        answers.len(),
        |i: int| Result::<bool, DnsError>::Ok(spec_txt_match(answers[i], challenge)),
    );
    assert(forall|i: int|
        0 <= i < results.len() ==> results[i] == Result::<bool, DnsError>::Ok(true));
    assert(spec_round_outcome(results) == RoundOutcome::AllMatched);
}

/// If in every round of the whole retry budget at least one nameserver
/// still lacks the value and no query fails, the run times out after
/// exactly `max_attempts` failed CHECK rounds.
pub proof fn law_timeout_after_budget(max_attempts: int, outcomes: Seq<RoundOutcome>)
    requires
        max_attempts >= 1,
        outcomes.len() >= max_attempts,
        forall|i: int| 0 <= i < max_attempts ==> outcomes[i] == RoundOutcome::NotAllMatched,
    ensures
        spec_poll(max_attempts, outcomes) == (PollVerdict::TimedOut {
            rounds: max_attempts as nat,
        }),
{
    lemma_timeout_from(0, max_attempts, outcomes);
}

proof fn lemma_timeout_from(failed_attempts: int, max_attempts: int, outcomes: Seq<RoundOutcome>)
    requires
        0 <= failed_attempts < max_attempts,
        outcomes.len() >= max_attempts - failed_attempts,
        forall|i: int|
            0 <= i < max_attempts - failed_attempts ==> outcomes[i] == RoundOutcome::NotAllMatched,
    ensures
        spec_poll_from(failed_attempts, max_attempts, outcomes) == (PollVerdict::TimedOut {
            rounds: (max_attempts - failed_attempts) as nat,
        }),
    decreases max_attempts - failed_attempts,
{
    if failed_attempts + 1 >= max_attempts {
    } else {
        let rest = outcomes.drop_first();
        assert(forall|i: int|
            0 <= i < max_attempts - (failed_attempts + 1) ==> rest[i] == outcomes[i + 1]);
        lemma_timeout_from(failed_attempts + 1, max_attempts, rest);
    }
}

/// Zero NS records end the call with `DomainHasNoAuthority` in INIT, with
/// zero CHECK rounds performed.
pub proof fn law_no_authority_no_rounds(
    hosts: Seq<HostAddresses>,
    max_attempts: int,
    outcomes: Seq<RoundOutcome>,
)
    requires
        hosts.len() == 0,
    ensures
        spec_verification(hosts, max_attempts, outcomes) == (VerificationVerdict::NoAuthority {
            rounds: 0nat,
        }),
{
}

} // verus!
