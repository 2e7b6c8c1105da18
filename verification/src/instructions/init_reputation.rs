//! An agent opts in to reputation.

use vstd::prelude::*;
use crate::state::{Identity, ReputationAccount};

verus! {

/// Whose record is opened.
#[derive(Clone, Copy, Debug, PartialEq, Eq)]
pub struct InitReputation {
    pub agent: Identity,
}

/// Opens the agent's record with every counter at zero and the time of last
/// activity at `now`. Opening is a step of its own: no escrow operation
/// opens a record for a party that has none.
pub fn handler(ctx: &InitReputation, bump: u8, now: i64) -> (r: ReputationAccount)
    ensures
        r == ReputationAccount::fresh(ctx.agent, bump, now),
{
    ReputationAccount::new(ctx.agent, bump, now)
}

} // verus!
