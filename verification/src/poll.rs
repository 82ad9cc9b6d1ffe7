//! Bounded readiness polling against the provider's instance-fetch
//! endpoint, modelled over the sequence of fetch outcomes the provider
//! hands back.
//!
//! One attempt fetches the instance once.  A failed fetch is transient: the
//! loop sleeps and retries.  A fetch that shows the instance active decides
//! the poll: ready if a public address is present, a missing-address error
//! otherwise.  After `max_attempts` undecided attempts the poll times out.
//! The designed bound is an interval of 5 seconds and 60 attempts.

use vstd::prelude::*;
use crate::models::Droplet;
use crate::models::DropletModel;
use crate::models::ServerInfo;
use crate::models::spec_public_ip;

verus! {

/// Poll interval, in seconds, between readiness attempts.
pub const POLL_INTERVAL_SECS: u64 = 5;

/// Number of readiness attempts before the poll times out.
pub const MAX_POLL_ATTEMPTS: u64 = 60;

/// The outcome of one status fetch: the instance as reported, or a failed
/// call (treated as transient while the attempt budget lasts).
pub enum FetchOutcome {
    Fetched { droplet: Droplet },
    FetchFailed,
}

/// Mathematical view of a `FetchOutcome`.
pub enum FetchModel {
    Fetched { droplet: DropletModel },
    Failed,
}

impl View for FetchOutcome {
    type V = FetchModel;

    open spec fn view(&self) -> FetchModel {
        match self {
            FetchOutcome::Fetched { droplet } => FetchModel::Fetched { droplet: droplet@ },
            FetchOutcome::FetchFailed => FetchModel::Failed,
        }
    }
}

impl FetchOutcome {
    /// Copies a fetch outcome.
    pub fn duplicate(&self) -> (r: FetchOutcome)
        ensures
            r@ == self@,
    {
        match self {
            FetchOutcome::Fetched { droplet } => FetchOutcome::Fetched {
                droplet: droplet.duplicate(),
            },
            FetchOutcome::FetchFailed => FetchOutcome::FetchFailed,
        }
    }
}

/// What one fetch outcome decides.
pub enum FetchDecision {
    NotReady,
    Ready { info: ServerInfo },
    MissingIp,
}

/// Mathematical view of a `FetchDecision`.
#[verifier::ext_equal]
pub enum DecisionModel {
    NotReady,
    Ready { name: Seq<char>, ip: Seq<char> },
    MissingIp,
}

impl View for FetchDecision {
    type V = DecisionModel;

    open spec fn view(&self) -> DecisionModel {
        match self {
            FetchDecision::NotReady => DecisionModel::NotReady,
            FetchDecision::Ready { info } => DecisionModel::Ready {
                name: info.name@,
                ip: info.ip@,
            },
            FetchDecision::MissingIp => DecisionModel::MissingIp,
        }
    }
}

/// The decision a single fetch outcome leads to: undecided unless the
/// instance reports active; then ready with the first public address, or a
/// missing-address failure if it has none.
pub open spec fn decide(f: FetchModel) -> DecisionModel {
    match f {
        FetchModel::Failed => DecisionModel::NotReady,
        FetchModel::Fetched { droplet } => {
            if droplet.status != "active"@ {
                DecisionModel::NotReady
            } else {
                match spec_public_ip(droplet.networks) {
                    Some(ip) => DecisionModel::Ready { name: droplet.name, ip },
                    None => DecisionModel::MissingIp,
                }
            }
        },
    }
}

/// Applies `decide` to one fetch outcome.
pub fn check_fetch(outcome: &FetchOutcome) -> (d: FetchDecision)
    ensures
        d@ == decide(outcome@),
{
    match outcome {
        FetchOutcome::FetchFailed => FetchDecision::NotReady,
        FetchOutcome::Fetched { droplet } => {
            let active_label: String = "active".to_owned();
            if !(droplet.status == active_label) {
                FetchDecision::NotReady
            } else {
                match crate::models::find_public_ip(&droplet.networks) {
                    Some(ip) => FetchDecision::Ready {
                        info: ServerInfo { name: droplet.name.clone(), ip },
                    },
                    None => FetchDecision::MissingIp,
                }
            }
        },
    }
}

// ---------------------------------------------------------------------------
// The bounded poll over a provider's fetch outcomes
// ---------------------------------------------------------------------------

/// The views of a fetch-outcome sequence, in order.
pub open spec fn fetch_views(v: Seq<FetchOutcome>) -> Seq<FetchModel> {
    v.map_values(|o: FetchOutcome| o@)
}

/// The outcome the provider hands back on the attempt that reads
/// `outcomes[j]`; an attempt beyond the recorded outcomes counts as a
/// failed (transient) fetch.
pub open spec fn outcome_at(outcomes: Seq<FetchModel>, j: int) -> FetchModel {
    if 0 <= j < outcomes.len() {
        outcomes[j]
    } else {
        FetchModel::Failed
    }
}

/// The decision reached on the attempt that reads `outcomes[j]`.
pub open spec fn decision_at(outcomes: Seq<FetchModel>, j: int) -> DecisionModel {
    decide(outcome_at(outcomes, j))
}

/// No attempt among the first `n`, starting at `start`, decides the poll.
pub open spec fn undecided_before(outcomes: Seq<FetchModel>, start: int, n: int) -> bool {
    forall|j: int| 0 <= j < n ==> #[trigger] decision_at(outcomes, start + j) is NotReady
}

/// The result of a bounded readiness poll: how it ended, after how many
/// attempts, and how much time the sleeps between attempts consumed.
pub enum PollResult {
    Ready { info: ServerInfo, attempts: u64, elapsed_secs: u64 },
    NoPublicIp { attempts: u64, elapsed_secs: u64 },
    TimedOut { attempts: u64, elapsed_secs: u64 },
}

/// Polls until the instance is ready, reading the fetch outcomes in order
/// from position `start`.
///
/// Success on attempt `a` comes after `a - 1` sleeps, at `(a - 1) *
/// interval` elapsed seconds — within `ceil(a * interval)` for an instance
/// that is ready on attempt `a`.  Exactly `max_attempts` fetches are made
/// before timing out, and the timeout performs no further sleep.
pub fn poll_until_ready(
    outcomes: &Vec<FetchOutcome>,
    start: usize,
    max_attempts: u64,
    interval_secs: u64,
) -> (r: PollResult)
    requires
        max_attempts >= 1,
        max_attempts * interval_secs <= u64::MAX,
        start + max_attempts <= usize::MAX,
    ensures
        ({
            let models = fetch_views(outcomes@);
            match r {
                PollResult::Ready { info, attempts, elapsed_secs } => {
                    &&& 1 <= attempts <= max_attempts
                    &&& decision_at(models, start + attempts - 1) == (DecisionModel::Ready {
                        name: info.name@,
                        ip: info.ip@,
                    })
                    &&& undecided_before(models, start as int, attempts - 1)
                    &&& elapsed_secs == (attempts - 1) * interval_secs
                },
                PollResult::NoPublicIp { attempts, elapsed_secs } => {
                    &&& 1 <= attempts <= max_attempts
                    &&& decision_at(models, start + attempts - 1) is MissingIp
                    &&& undecided_before(models, start as int, attempts - 1)
                    &&& elapsed_secs == (attempts - 1) * interval_secs
                },
                PollResult::TimedOut { attempts, elapsed_secs } => {
                    &&& attempts == max_attempts
                    &&& undecided_before(models, start as int, max_attempts as int)
                    &&& elapsed_secs == (max_attempts - 1) * interval_secs
                },
            }
        }),
{
    let ghost models = fetch_views(outcomes@);
    let failed = FetchOutcome::FetchFailed;
    let mut failures: u64 = 0;
    let mut elapsed_secs: u64 = 0;
    loop
        invariant
            max_attempts >= 1,
            max_attempts * interval_secs <= u64::MAX,
            start + max_attempts <= usize::MAX,
            failures < max_attempts,
            elapsed_secs == failures * interval_secs,
            failed@ == FetchModel::Failed,
            models == fetch_views(outcomes@),
            undecided_before(models, start as int, failures as int),
        decreases max_attempts - failures,
    {
        let j: usize = start + (failures as usize);
        proof {
            assert(models.len() == outcomes@.len());
        }
        let outcome: &FetchOutcome;
        if j < outcomes.len() {
            outcome = &outcomes[j];
            proof {
                assert(models[j as int] == outcomes@[j as int]@);
            }
        } else {
            outcome = &failed;
        }
        proof {
            assert(outcome@ == outcome_at(models, j as int));
        }
        let attempts: u64 = failures + 1;
        match check_fetch(outcome) {
            FetchDecision::Ready { info } => {
                return PollResult::Ready { info, attempts, elapsed_secs };
            },
            FetchDecision::MissingIp => {
                return PollResult::NoPublicIp { attempts, elapsed_secs };
            },
            FetchDecision::NotReady => {
                proof {
                    assert(decision_at(models, start + failures) is NotReady);
                    assert(undecided_before(models, start as int, failures + 1));
                }
                if attempts >= max_attempts {
                    return PollResult::TimedOut { attempts, elapsed_secs };
                }
                proof {
                    assert((failures + 1) * interval_secs <= max_attempts * interval_secs)
                        by (nonlinear_arith)
                        requires
                            failures + 1 <= max_attempts,
                            interval_secs >= 0,
                    ;
                    assert((failures + 1) * interval_secs == failures * interval_secs
                        + interval_secs) by (nonlinear_arith);
                }
                failures = attempts;
                elapsed_secs = elapsed_secs + interval_secs;
            },
        }
    }
}

} // verus!
