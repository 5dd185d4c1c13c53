//! Wireless link bring-up: a state machine from radio events to the next
//! phase and the next action the caller must perform.
//!
//! The radio driver, the inter-attempt delay and the address lease are the
//! caller's job: it performs the returned action (start the station, try
//! to associate after the delay, wait for the lease), reports the outcome
//! as the next event, and starts the command listener once the link is
//! Ready. The machine only moves forward; there is no reconnect path.

use vstd::prelude::*;

verus! {

/// How many association attempts the retry budget allows.
pub const ASSOC_ATTEMPT_LIMIT: u32 = 20;

/// Fixed delay before each association attempt, in milliseconds.
pub const ASSOC_RETRY_DELAY_MS: u64 = 1000;

/// Connection phase of the link.
#[derive(Clone, Copy, Debug, PartialEq, Eq, Structural)]
pub enum LinkPhase {
    /// Nothing armed yet.
    Idle,
    /// Station started; `attempts` association attempts have completed,
    /// all of them failures.
    Associating { attempts: u32 },
    /// Associated (or retry budget spent); waiting for an address lease.
    AddressPending,
    /// Address leased; the link is ready for the command listener.
    Ready { addr: u32 },
    /// The lease completed without an address: unrecoverable.
    Fatal,
}

/// Outcome of the outside work, reported back to the machine.
#[derive(Clone, Copy, Debug, PartialEq, Eq, Structural)]
pub enum LinkEvent {
    /// The station was armed with its credentials and started.
    Started,
    /// One association attempt completed.
    ConnectResult { ok: bool },
    /// The lease process completed, with or without an address.
    LeaseResult { addr: Option<u32> },
}

/// What the caller must do next.
#[derive(Clone, Copy, Debug, PartialEq, Eq, Structural)]
pub enum LinkAction {
    /// Wait `delay_ms` milliseconds, then try one association attempt.
    ConnectAfter { delay_ms: u64 },
    /// Wait for the address lease to complete.
    AwaitLease,
    /// Bring-up is done: start the command listener.
    Listen,
    /// Unrecoverable failure: halt the process.
    Halt,
    /// The event does not belong to the current phase: do nothing.
    Ignore,
}

/// One step of the bring-up machine.
///
/// A failed attempt below the budget schedules the next attempt after the
/// fixed delay. Spending the whole budget does not abort: the machine
/// proceeds to wait for a lease anyway, exactly as on success — bring-up
/// is optimistic, and only a failed lease is fatal. An event that does
/// not belong to the current phase changes nothing.
pub open spec fn spec_link_step(p: LinkPhase, ev: LinkEvent) -> (LinkPhase, LinkAction) {
    match (p, ev) {
        (LinkPhase::Idle, LinkEvent::Started) => (
            LinkPhase::Associating { attempts: 0 },
            LinkAction::ConnectAfter { delay_ms: ASSOC_RETRY_DELAY_MS },
        ),
        (LinkPhase::Associating { attempts }, LinkEvent::ConnectResult { ok }) => {
            if ok {
                (LinkPhase::AddressPending, LinkAction::AwaitLease)
            } else if attempts + 1 < ASSOC_ATTEMPT_LIMIT {
                (
                    LinkPhase::Associating { attempts: (attempts + 1) as u32 },
                    LinkAction::ConnectAfter { delay_ms: ASSOC_RETRY_DELAY_MS },
                )
            } else {
                (LinkPhase::AddressPending, LinkAction::AwaitLease)
            }
        },
        (LinkPhase::AddressPending, LinkEvent::LeaseResult { addr }) => match addr {
            Some(a) => (LinkPhase::Ready { addr: a }, LinkAction::Listen),
            None => (LinkPhase::Fatal, LinkAction::Halt),
        },
        _ => (p, LinkAction::Ignore),
    }
}

/// The wireless link, reduced to its bring-up phase.
#[derive(Clone, Copy, Debug, PartialEq, Eq, Structural)]
pub struct NetworkLink {
    pub phase: LinkPhase,
}

impl NetworkLink {
    /// A link that has not been armed yet.
    pub fn new() -> (l: NetworkLink)
        ensures
            l.phase == LinkPhase::Idle,
    {
        NetworkLink { phase: LinkPhase::Idle }
    }

    /// Feeds one event to the machine and returns the next action.
    pub fn step(&mut self, ev: LinkEvent) -> (a: LinkAction)
        ensures
            final(self).phase == spec_link_step(old(self).phase, ev).0,
            a == spec_link_step(old(self).phase, ev).1,
    {
        match (self.phase, ev) {
            (LinkPhase::Idle, LinkEvent::Started) => {
                self.phase = LinkPhase::Associating { attempts: 0 };
                LinkAction::ConnectAfter { delay_ms: ASSOC_RETRY_DELAY_MS }
            },
            (LinkPhase::Associating { attempts }, LinkEvent::ConnectResult { ok }) => {
                if ok {
                    self.phase = LinkPhase::AddressPending;
                    LinkAction::AwaitLease
                } else if attempts < ASSOC_ATTEMPT_LIMIT - 1 {
                    self.phase = LinkPhase::Associating { attempts: attempts + 1 };
                    LinkAction::ConnectAfter { delay_ms: ASSOC_RETRY_DELAY_MS }
                } else {
                    self.phase = LinkPhase::AddressPending;
                    LinkAction::AwaitLease
                }
            },
            (LinkPhase::AddressPending, LinkEvent::LeaseResult { addr }) => match addr {
                Some(a) => {
                    self.phase = LinkPhase::Ready { addr: a };
                    LinkAction::Listen
                },
                None => {
                    self.phase = LinkPhase::Fatal;
                    LinkAction::Halt
                },
            },
            _ => LinkAction::Ignore,
        }
    }
}

/// Order of the phases along the one-way bring-up path.
pub open spec fn phase_rank(p: LinkPhase) -> int {
    match p {
        LinkPhase::Idle => 0,
        LinkPhase::Associating { .. } => 1,
        LinkPhase::AddressPending => 2,
        LinkPhase::Ready { .. } => 3,
        LinkPhase::Fatal => 3,
    }
}

/// The machine never moves backward: no event lowers the phase rank, and
/// within association the attempt count never decreases.
pub proof fn lemma_link_monotonic(p: LinkPhase, ev: LinkEvent)
    ensures
        phase_rank(spec_link_step(p, ev).0) >= phase_rank(p),
        p matches LinkPhase::Associating { attempts: before } ==> (spec_link_step(
            p,
            ev,
        ).0 matches LinkPhase::Associating { attempts: after } ==> after >= before),
{
}

/// The phase after `k` more failed association attempts.
pub open spec fn spec_after_failures(p: LinkPhase, k: nat) -> LinkPhase
    decreases k,
{
    if k == 0 {
        p
    } else {
        spec_after_failures(
            spec_link_step(p, LinkEvent::ConnectResult { ok: false }).0,
            (k - 1) as nat,
        )
    }
}

/// Retry bound, counted from `attempts` completed failures: as long as
/// the budget is not spent the machine keeps associating and counts every
/// failure; the failure that spends the budget makes it proceed to the
/// address-pending phase regardless.
pub proof fn lemma_failures_from(attempts: u32, k: nat)
    requires
        attempts + k <= ASSOC_ATTEMPT_LIMIT,
    ensures
        attempts + k < ASSOC_ATTEMPT_LIMIT ==> spec_after_failures(
            LinkPhase::Associating { attempts },
            k,
        ) == (LinkPhase::Associating { attempts: (attempts + k) as u32 }),
        attempts + k == ASSOC_ATTEMPT_LIMIT && k > 0 ==> spec_after_failures(
            LinkPhase::Associating { attempts },
            k,
        ) == LinkPhase::AddressPending,
    decreases k,
{
    if k > 0 {
        let next = spec_link_step(
            LinkPhase::Associating { attempts },
            LinkEvent::ConnectResult { ok: false },
        ).0;
        if attempts + 1 < ASSOC_ATTEMPT_LIMIT {
            lemma_failures_from((attempts + 1) as u32, (k - 1) as nat);
        } else {
            assert(next == LinkPhase::AddressPending);
            lemma_pending_ignores_failures((k - 1) as nat);
        }
    }
}

/// Association retry bound from a fresh association: each failure below
/// the budget leaves the machine associating with one more attempt
/// counted, and exactly at the budget it proceeds to the address-pending
/// phase.
pub proof fn lemma_association_retry_bound(k: nat)
    requires
        k <= ASSOC_ATTEMPT_LIMIT,
    ensures
        k < ASSOC_ATTEMPT_LIMIT ==> spec_after_failures(LinkPhase::Associating { attempts: 0 }, k)
            == (LinkPhase::Associating { attempts: k as u32 }),
        k == ASSOC_ATTEMPT_LIMIT ==> spec_after_failures(
            LinkPhase::Associating { attempts: 0 },
            k,
        ) == LinkPhase::AddressPending,
{
    lemma_failures_from(0, k);
}

/// Once the machine waits for a lease, further connect results are
/// ignored.
pub proof fn lemma_pending_ignores_failures(k: nat)
    ensures
        spec_after_failures(LinkPhase::AddressPending, k) == LinkPhase::AddressPending,
    decreases k,
{
    if k > 0 {
        lemma_pending_ignores_failures((k - 1) as nat);
    }
}

/// Every attempt below the budget is scheduled with the fixed delay in
/// front of it; the failure that spends the budget moves on to the lease
/// instead.
pub proof fn lemma_retry_delay(attempts: u32)
    ensures
        attempts + 1 < ASSOC_ATTEMPT_LIMIT ==> spec_link_step(
            LinkPhase::Associating { attempts },
            LinkEvent::ConnectResult { ok: false },
        ).1 == (LinkAction::ConnectAfter { delay_ms: ASSOC_RETRY_DELAY_MS }),
        attempts + 1 >= ASSOC_ATTEMPT_LIMIT ==> spec_link_step(
            LinkPhase::Associating { attempts },
            LinkEvent::ConnectResult { ok: false },
        ).1 == LinkAction::AwaitLease,
{
}

} // verus!
