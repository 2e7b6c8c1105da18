//! Reputation counters: what each completed piece of escrow business adds to
//! an agent's record.
//!
//! A record is optional wherever it is used: an agent that never opted in has
//! none, and an operation that finds none goes on unchanged.

use vstd::prelude::*;
use crate::state::{Identity, ReputationAccount};

verus! {

/// Escrows below this amount leave no trace in creation and completion
/// counters, so that dust escrows cannot inflate a reputation.
pub const MIN_REPUTATION_AMOUNT: u64 = 10_000_000;

/// What happened to an agent.
#[derive(Clone, Copy, Debug, PartialEq, Eq, Structural)]
pub enum ReputationEvent {
    /// The agent funded an escrow.
    EscrowCreated,
    /// The agent was named recipient of an escrow.
    EscrowReceived,
    /// An escrow that the agent funded was paid out.
    EscrowCompleted,
    /// The agent was paid for a task.
    TaskCompleted,
    /// The agent raised a dispute.
    DisputeInitiated,
    /// The arbiter decided for the agent.
    DisputeWon,
    /// The arbiter decided against the agent.
    DisputeLost,
}

impl ReputationEvent {
    /// Creation and completion count only from the minimum amount on;
    /// disputes count whatever the amount.
    pub open spec fn has_floor(self) -> bool {
        self == ReputationEvent::EscrowCreated || self == ReputationEvent::EscrowReceived
            || self == ReputationEvent::EscrowCompleted || self == ReputationEvent::TaskCompleted
    }

    /// Completion adds the escrow's amount to the agent's volume.
    pub open spec fn bears_volume(self) -> bool {
        self == ReputationEvent::EscrowCompleted || self == ReputationEvent::TaskCompleted
    }
}

/// A counter one higher, or unchanged at the top of its range.
pub open spec fn bumped(counter: u32) -> u32 {
    if counter < u32::MAX {
        (counter + 1) as u32
    } else {
        counter
    }
}

/// A volume grown by `volume`, or the top of its range where the sum leaves it.
pub open spec fn grown(total: u64, volume: u64) -> u64 {
    if total + volume <= u64::MAX {
        (total + volume) as u64
    } else {
        u64::MAX
    }
}

impl ReputationAccount {
    /// A record for `agent` with every counter at zero.
    pub open spec fn fresh(agent: Identity, bump: u8, now: i64) -> ReputationAccount {
        ReputationAccount {
            agent,
            escrows_created: 0,
            escrows_completed: 0,
            escrows_received: 0,
            tasks_completed: 0,
            disputes_initiated: 0,
            disputes_won: 0,
            disputes_lost: 0,
            total_volume_lamports: 0,
            last_activity: now,
            bump,
        }
    }

    /// The record after `event` on an escrow of `volume` at time `now`: the
    /// matching counter one higher, the volume added where the event bears
    /// one, the time of last activity set; or the record as it was, where the
    /// event has a floor and `volume` is below it.
    pub open spec fn recorded(self, event: ReputationEvent, volume: u64, now: i64) -> ReputationAccount {
        if event.has_floor() && volume < MIN_REPUTATION_AMOUNT {
            self
        } else {
            let counted = match event {
                ReputationEvent::EscrowCreated => ReputationAccount {
                    escrows_created: bumped(self.escrows_created),
                    ..self
                },
                ReputationEvent::EscrowReceived => ReputationAccount {
                    escrows_received: bumped(self.escrows_received),
                    ..self
                },
                ReputationEvent::EscrowCompleted => ReputationAccount {
                    escrows_completed: bumped(self.escrows_completed),
                    ..self
                },
                ReputationEvent::TaskCompleted => ReputationAccount {
                    tasks_completed: bumped(self.tasks_completed),
                    ..self
                },
                ReputationEvent::DisputeInitiated => ReputationAccount {
                    disputes_initiated: bumped(self.disputes_initiated),
                    ..self
                },
                ReputationEvent::DisputeWon => ReputationAccount {
                    disputes_won: bumped(self.disputes_won),
                    ..self
                },
                ReputationEvent::DisputeLost => ReputationAccount {
                    disputes_lost: bumped(self.disputes_lost),
                    ..self
                },
            };
            ReputationAccount {
                total_volume_lamports: if event.bears_volume() {
                    grown(self.total_volume_lamports, volume)
                } else {
                    self.total_volume_lamports
                },
                last_activity: now,
                ..counted
            }
        }
    }

    /// Whether no counter of `self` is below that of `earlier`, and both
    /// belong to the same agent.
    pub open spec fn extends(self, earlier: ReputationAccount) -> bool {
        &&& self.agent == earlier.agent
        &&& self.bump == earlier.bump
        &&& self.escrows_created >= earlier.escrows_created
        &&& self.escrows_completed >= earlier.escrows_completed
        &&& self.escrows_received >= earlier.escrows_received
        &&& self.tasks_completed >= earlier.tasks_completed
        &&& self.disputes_initiated >= earlier.disputes_initiated
        &&& self.disputes_won >= earlier.disputes_won
        &&& self.disputes_lost >= earlier.disputes_lost
        &&& self.total_volume_lamports >= earlier.total_volume_lamports
    }

    /// Opens the record of `agent`.
    pub fn new(agent: Identity, bump: u8, now: i64) -> (r: Self)
        ensures
            r == Self::fresh(agent, bump, now),
    {
        ReputationAccount {
            agent,
            escrows_created: 0,
            escrows_completed: 0,
            escrows_received: 0,
            tasks_completed: 0,
            disputes_initiated: 0,
            disputes_won: 0,
            disputes_lost: 0,
            total_volume_lamports: 0,
            last_activity: now,
            bump,
        }
    }

    /// Enters `event` on an escrow of `volume` at time `now`. Counters and
    /// volume saturate; the call cannot fail.
    pub fn record(&mut self, event: ReputationEvent, volume: u64, now: i64)
        ensures
            *final(self) == old(self).recorded(event, volume, now),
            final(self).extends(*old(self)),
    {
        match event {
            ReputationEvent::EscrowCreated => {
                if volume >= MIN_REPUTATION_AMOUNT {
                    self.escrows_created = self.escrows_created.saturating_add(1);
                    self.last_activity = now;
                }
            },
            ReputationEvent::EscrowReceived => {
                if volume >= MIN_REPUTATION_AMOUNT {
                    self.escrows_received = self.escrows_received.saturating_add(1);
                    self.last_activity = now;
                }
            },
            ReputationEvent::EscrowCompleted => {
                if volume >= MIN_REPUTATION_AMOUNT {
                    self.escrows_completed = self.escrows_completed.saturating_add(1);
                    self.total_volume_lamports = self.total_volume_lamports.saturating_add(volume);
                    self.last_activity = now;
                }
            },
            ReputationEvent::TaskCompleted => {
                if volume >= MIN_REPUTATION_AMOUNT {
                    self.tasks_completed = self.tasks_completed.saturating_add(1);
                    self.total_volume_lamports = self.total_volume_lamports.saturating_add(volume);
                    self.last_activity = now;
                }
            },
            ReputationEvent::DisputeInitiated => {
                self.disputes_initiated = self.disputes_initiated.saturating_add(1);
                self.last_activity = now;
            },
            ReputationEvent::DisputeWon => {
                self.disputes_won = self.disputes_won.saturating_add(1);
                self.last_activity = now;
            },
            ReputationEvent::DisputeLost => {
                self.disputes_lost = self.disputes_lost.saturating_add(1);
                self.last_activity = now;
            },
        }
    }
}

/// What `record` makes of an optional record: nothing of an absent one.
pub open spec fn recorded_in(
    slot: Option<ReputationAccount>,
    event: ReputationEvent,
    volume: u64,
    now: i64,
) -> Option<ReputationAccount> {
    match slot {
        Some(account) => Some(account.recorded(event, volume, now)),
        None => None,
    }
}

/// Enters `event` in the record in `slot`, if there is one.
pub fn record_in(slot: &mut Option<ReputationAccount>, event: ReputationEvent, volume: u64, now: i64)
    ensures
        *final(slot) == recorded_in(*old(slot), event, volume, now),
{
    match slot {
        Some(account) => {
            account.record(event, volume, now);
        },
        None => {},
    }
}

/// No event lowers a counter or the volume, and none changes whose record it
/// is.
pub proof fn lemma_recorded_extends(
    account: ReputationAccount,
    event: ReputationEvent,
    volume: u64,
    now: i64,
)
    ensures
        account.recorded(event, volume, now).extends(account),
{
}

/// An event with a floor, on an amount below the floor, leaves the record as
/// it was; a dispute is entered whatever the amount.
pub proof fn lemma_floor(account: ReputationAccount, event: ReputationEvent, volume: u64, now: i64)
    ensures
        event.has_floor() && volume < MIN_REPUTATION_AMOUNT ==> account.recorded(event, volume, now)
            == account,
        !event.has_floor() ==> account.recorded(event, volume, now).last_activity == now,
        event == ReputationEvent::DisputeInitiated ==> account.recorded(
            event,
            volume,
            now,
        ).disputes_initiated == bumped(account.disputes_initiated),
{
}

} // verus!
