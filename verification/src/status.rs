//! The service-status aggregator: one probe per configured service, run
//! concurrently by the caller, and a report assembled in configuration
//! order.
//!
//! The scheduling layer dispatches the probes and hands back one
//! `Completion` per probe that finished, tagged with the service's index in
//! the configured list and in whatever order the probes happened to finish.
//! `StatusReport::assemble` puts the outcomes back into configuration
//! order. A service whose probe produced no completion before the caller
//! gave up is reported as `Unknown`, never omitted: the report always has
//! exactly one entry per configured service.

use vstd::prelude::*;

verus! {

/// The judged state of one service.
#[derive(Clone, Copy, PartialEq, Eq, Structural, Debug)]
pub enum ServiceState {
    /// The probe got a healthy answer in time.
    Up,
    /// The probe failed: unreachable, refused, or a bad answer.
    Down,
    /// The probe neither succeeded nor failed within its time bound.
    Unknown,
}

/// What a single probe reported. Probes never abort the aggregation: every
/// way a probe can end is a value of this type.
#[derive(Debug)]
pub enum ProbeEvent {
    /// The service answered and is healthy.
    Success,
    /// The service is down; the payload says why.
    Failure(String),
    /// The time bound passed without an answer.
    TimedOut,
}

/// One finished probe: which configured service (by index), and how it
/// ended. Completions arrive in completion order, not configuration order.
#[derive(Debug)]
pub struct Completion {
    pub index: usize,
    pub event: ProbeEvent,
}

/// The reported state of one configured service.
#[derive(Debug)]
pub struct ServiceOutcome {
    pub identifier: String,
    pub state: ServiceState,
    pub detail: Option<String>,
}

/// The ordered status report: one entry per configured service, in
/// configuration order.
#[derive(Debug)]
pub struct StatusReport {
    pub entries: Vec<ServiceOutcome>,
}

/// The state a probe event maps to.
pub open spec fn state_of(ev: ProbeEvent) -> ServiceState {
    match ev {
        ProbeEvent::Success => ServiceState::Up,
        ProbeEvent::Failure(_) => ServiceState::Down,
        ProbeEvent::TimedOut => ServiceState::Unknown,
    }
}

/// The detail a probe event carries: only a failure has one.
pub open spec fn detail_of(ev: ProbeEvent) -> Option<String> {
    match ev {
        ProbeEvent::Failure(d) => Option::Some(d),
        _ => Option::None,
    }
}

/// The event that counts for service `i`: the first completion tagged with
/// `i`, or a timeout when no probe for `i` completed.
pub open spec fn event_for(cs: Seq<Completion>, i: int) -> ProbeEvent
    decreases cs.len(),
{
    if cs.len() == 0 {
        ProbeEvent::TimedOut
    } else if cs[0].index == i {
        cs[0].event
    } else {
        event_for(cs.drop_first(), i)
    }
}

/// Skipping completions for other services does not change the event that
/// counts for service `i`.
proof fn lemma_event_for_skip(cs: Seq<Completion>, i: int, n: int)
    requires
        0 <= n <= cs.len(),
        forall|k: int| 0 <= k < n ==> (#[trigger] cs[k]).index != i,
    ensures
        event_for(cs, i) == event_for(cs.skip(n), i),
    decreases n,
{
    if n > 0 {
        assert(cs[0].index != i);
        assert(cs.drop_first() =~= cs.skip(1));
        lemma_event_for_skip(cs.skip(1), i, n - 1);
        assert(cs.skip(1).skip(n - 1) =~= cs.skip(n));
    } else {
        assert(cs.skip(0) =~= cs);
    }
}

/// Law: a probe that never completed is reported as `Unknown` — when no
/// completion carries a service's index, the event that counts for it is a
/// timeout, so its report entry says `Unknown` rather than being dropped.
pub proof fn lemma_no_completion_reports_unknown(cs: Seq<Completion>, i: int)
    requires
        forall|k: int| 0 <= k < cs.len() ==> (#[trigger] cs[k]).index != i,
    ensures
        event_for(cs, i) == ProbeEvent::TimedOut,
        state_of(event_for(cs, i)) == ServiceState::Unknown,
{
    lemma_event_for_skip(cs, i, cs.len() as int);
    assert(cs.skip(cs.len() as int).len() == 0);
}

/// A copy of a probe event, field for field.
fn clone_event(ev: &ProbeEvent) -> (r: ProbeEvent)
    ensures
        r == *ev,
{
    match ev {
        ProbeEvent::Success => ProbeEvent::Success,
        ProbeEvent::Failure(d) => ProbeEvent::Failure(d.clone()),
        ProbeEvent::TimedOut => ProbeEvent::TimedOut,
    }
}

/// The event that counts for service `index` among the completions: the
/// first completion tagged with it, or `TimedOut` when none is.
pub fn lookup_event(completions: &Vec<Completion>, index: usize) -> (r: ProbeEvent)
    ensures
        r == event_for(completions@, index as int),
{
    let mut i: usize = 0;
    while i < completions.len()
        invariant
            i <= completions@.len(),
            forall|k: int| 0 <= k < i as int ==> (#[trigger] completions@[k]).index != index,
        decreases completions@.len() - i,
    {
        if completions[i].index == index {
            let r = clone_event(&completions[i].event);
            proof {
                lemma_event_for_skip(completions@, index as int, i as int);
                assert(completions@.skip(i as int)[0] == completions@[i as int]);
                assert(completions@.skip(i as int).len() > 0);
            }
            return r;
        }
        i += 1;
    }
    proof {
        lemma_event_for_skip(completions@, index as int, i as int);
        assert(completions@.skip(i as int).len() == 0);
    }
    ProbeEvent::TimedOut
}

/// The report entry a probe event yields for one service.
pub fn outcome_of(identifier: String, event: ProbeEvent) -> (r: ServiceOutcome)
    ensures
        r.identifier == identifier,
        r.state == state_of(event),
        r.detail == detail_of(event),
{
    match event {
        ProbeEvent::Success => ServiceOutcome {
            identifier,
            state: ServiceState::Up,
            detail: Option::None,
        },
        ProbeEvent::Failure(d) => ServiceOutcome {
            identifier,
            state: ServiceState::Down,
            detail: Option::Some(d),
        },
        ProbeEvent::TimedOut => ServiceOutcome {
            identifier,
            state: ServiceState::Unknown,
            detail: Option::None,
        },
    }
}

impl StatusReport {
    /// Assemble the report from the configured service list and the
    /// completions the scheduler gathered, in whatever order they finished:
    /// one entry per configured service, in configuration order, each
    /// carrying the state and detail of its own probe's first completion —
    /// or `Unknown` when its probe never completed. No probe outcome ever
    /// drops an entry or reorders the report.
    pub fn assemble(services: &Vec<String>, completions: &Vec<Completion>) -> (r: StatusReport)
        ensures
            r.entries@.len() == services@.len(),
            forall|j: int|
                0 <= j < services@.len() ==> {
                    &&& (#[trigger] r.entries@[j]).identifier == services@[j]
                    &&& r.entries@[j].state == state_of(event_for(completions@, j))
                    &&& r.entries@[j].detail == detail_of(event_for(completions@, j))
                },
    {
        let mut entries: Vec<ServiceOutcome> = Vec::new();
        let mut j: usize = 0;
        while j < services.len()
            invariant
                j <= services@.len(),
                entries@.len() == j as int,
                forall|k: int|
                    0 <= k < j as int ==> {
                        &&& (#[trigger] entries@[k]).identifier == services@[k]
                        &&& entries@[k].state == state_of(event_for(completions@, k))
                        &&& entries@[k].detail == detail_of(event_for(completions@, k))
                    },
            decreases services@.len() - j,
        {
            let identifier = services[j].clone();
            let event = lookup_event(completions, j);
            let outcome = outcome_of(identifier, event);
            entries.push(outcome);
            assert(entries@[j as int].identifier == services@[j as int]);
            j += 1;
        }
        StatusReport { entries }
    }
}

} // verus!
