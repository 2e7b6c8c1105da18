//! What a milestone escrow's sums are, how paying out or contesting one
//! milestone changes the record, and why the released amount can neither fall
//! nor pass the total.

use vstd::prelude::*;
use vstd::array::spec_array_update;
use crate::state::{
    all_pending, all_released, fits_status, none_disputed, only_disputed, released_of, total_of,
    EscrowStatus, Milestone, MilestoneEscrowAccount, MilestoneStatus, MAX_MILESTONES,
};

verus! {

/// What a milestone adds to the released amount.
pub open spec fn released_part(m: Milestone) -> int {
    if m.status == MilestoneStatus::Released {
        m.amount as int
    } else {
        0
    }
}

impl MilestoneEscrowAccount {
    /// The record with milestone `index` in status `to`, all else as it was.
    pub open spec fn marked(self, index: int, to: MilestoneStatus) -> MilestoneEscrowAccount {
        MilestoneEscrowAccount {
            milestones: spec_array_update(
                self.milestones,
                index,
                Milestone { status: to, ..self.milestones[index] },
            ),
            ..self
        }
    }

    /// The record after milestone `index` has been paid out: the milestone
    /// released, its amount added to the released amount, and the record
    /// completed if that was the last milestone, else active.
    pub open spec fn paid_out(self, index: int) -> MilestoneEscrowAccount {
        let marked = self.marked(index, MilestoneStatus::Released);
        MilestoneEscrowAccount {
            released_amount: (self.released_amount + self.milestones[index].amount) as u64,
            status: if all_released(marked.live()) {
                EscrowStatus::Completed
            } else {
                EscrowStatus::Active
            },
            ..marked
        }
    }

    /// What has not been released yet.
    pub open spec fn unreleased(self) -> int {
        self.total_amount - self.released_amount
    }
}

/// The released amount lies between zero and the total.
pub proof fn lemma_released_within_total(s: Seq<Milestone>)
    ensures
        0 <= released_of(s) <= total_of(s),
    decreases s.len(),
{
    if s.len() > 0 {
        lemma_released_within_total(s.drop_last());
    }
}

/// Replacing one milestone by another of the same amount keeps the total and
/// moves the released amount by the difference of what the two add to it.
pub proof fn lemma_replace(s: Seq<Milestone>, index: int, m: Milestone)
    requires
        0 <= index < s.len(),
        m.amount == s[index].amount,
    ensures
        total_of(s.update(index, m)) == total_of(s),
        released_of(s.update(index, m)) == released_of(s) - released_part(s[index]) + released_part(
            m,
        ),
    decreases s.len(),
{
    let t = s.update(index, m);
    if index == s.len() - 1 {
        assert(t.drop_last() =~= s.drop_last());
    } else {
        lemma_replace(s.drop_last(), index, m);
        assert(t.drop_last() =~= s.drop_last().update(index, m));
    }
}

/// In a well-formed record the released amount never passes the total, and
/// it is the total once every milestone is released.
pub proof fn lemma_released_never_exceeds_total(account: MilestoneEscrowAccount)
    requires
        account.wf(),
    ensures
        account.released_amount <= account.total_amount,
        all_released(account.live()) ==> account.released_amount == account.total_amount,
{
    lemma_released_within_total(account.live());
    if all_released(account.live()) {
        lemma_all_released_is_total(account.live());
    }
}

/// A milestone that is not released yet fits: its amount and what was
/// released before stay within the total.
pub proof fn lemma_room_for(s: Seq<Milestone>, index: int)
    requires
        0 <= index < s.len(),
        s[index].status != MilestoneStatus::Released,
    ensures
        released_of(s) + s[index].amount <= total_of(s),
{
    let m = Milestone { status: MilestoneStatus::Released, ..s[index] };
    lemma_replace(s, index, m);
    lemma_released_within_total(s.update(index, m));
}

/// Where every milestone is released, the released amount is the total.
pub proof fn lemma_all_released_is_total(s: Seq<Milestone>)
    requires
        all_released(s),
    ensures
        released_of(s) == total_of(s),
    decreases s.len(),
{
    if s.len() > 0 {
        assert(s.last() == s[s.len() - 1]);
        assert forall|i: int| 0 <= i < s.drop_last().len() implies (#[trigger] s.drop_last()[i]).status
            == MilestoneStatus::Released by {
            assert(s.drop_last()[i] == s[i]);
        }
        lemma_all_released_is_total(s.drop_last());
    }
}

/// Pending milestones have released nothing.
pub proof fn lemma_pending_released_nothing(s: Seq<Milestone>)
    requires
        all_pending(s),
    ensures
        released_of(s) == 0,
    decreases s.len(),
{
    if s.len() > 0 {
        assert(s.last() == s[s.len() - 1]);
        assert forall|i: int| 0 <= i < s.drop_last().len() implies (#[trigger] s.drop_last()[i]).status
            == MilestoneStatus::Pending by {
            assert(s.drop_last()[i] == s[i]);
        }
        lemma_pending_released_nothing(s.drop_last());
    }
}

/// Marking a milestone that is in use changes that milestone among those in
/// use, and nothing else.
pub proof fn lemma_marked_live(account: MilestoneEscrowAccount, index: int, to: MilestoneStatus)
    requires
        0 <= index < account.milestone_count <= MAX_MILESTONES,
    ensures
        account.marked(index, to).live() == account.live().update(
            index,
            Milestone { status: to, ..account.milestones[index] },
        ),
        account.live()[index] == account.milestones[index],
        forall|i: int|
            0 <= i < MAX_MILESTONES && i != index ==> #[trigger] account.marked(
                index,
                to,
            ).milestones[i] == account.milestones[i],
{
    let m = Milestone { status: to, ..account.milestones[index] };
    assert(account.marked(index, to).milestones@ == account.milestones@.update(index, m));
    assert(account.marked(index, to).live() =~= account.live().update(index, m));
}

/// Whether milestone `index` of `account` can be paid out: it is in use, and
/// either pending in an active record or under dispute in a disputed one.
pub open spec fn payable(account: MilestoneEscrowAccount, index: int) -> bool {
    &&& 0 <= index < account.milestone_count
    &&& (account.status == EscrowStatus::Active && account.milestones[index].status
        == MilestoneStatus::Pending) || (account.status == EscrowStatus::Disputed
        && account.milestones[index].status == MilestoneStatus::Disputed)
}

/// Paying out a milestone keeps a well-formed record well-formed, and the
/// released amount grows by the milestone's amount without passing the
/// total.
pub proof fn lemma_paid_out(account: MilestoneEscrowAccount, index: int)
    requires
        account.wf(),
        payable(account, index),
    ensures
        account.released_amount + account.milestones[index].amount <= account.total_amount,
        account.paid_out(index).wf(),
        account.paid_out(index).released_amount == account.released_amount
            + account.milestones[index].amount,
        account.paid_out(index).total_amount == account.total_amount,
{
    let m = Milestone { status: MilestoneStatus::Released, ..account.milestones[index] };
    lemma_marked_live(account, index, MilestoneStatus::Released);
    lemma_room_for(account.live(), index);
    lemma_replace(account.live(), index, m);
    let after = account.paid_out(index);
    let before = account.live();
    let live = after.live();
    assert(live == account.marked(index, MilestoneStatus::Released).live());
    assert(live == before.update(index, m));
    assert forall|i: int| after.milestone_count <= i < MAX_MILESTONES implies (
    #[trigger] after.milestones[i]).is_empty() by {
        assert(after.milestones[i] == account.marked(index, MilestoneStatus::Released).milestones[i]);
        assert(account.milestones[i].is_empty());
    }
    if !all_released(live) {
        if account.status == EscrowStatus::Disputed {
            let d = choose|d: int| only_disputed(before, d);
            assert(d == index);
        }
        assert forall|i: int| 0 <= i < live.len() implies (#[trigger] live[i]).status
            != MilestoneStatus::Disputed by {
            if i != index {
                assert(live[i] == before[i]);
            }
        }
    }
}

/// Contesting a pending milestone of an active record keeps a well-formed
/// record well-formed and moves no amount.
pub proof fn lemma_contested(account: MilestoneEscrowAccount, index: int)
    requires
        account.wf(),
        0 <= index < account.milestone_count,
        account.status == EscrowStatus::Active,
        account.milestones[index].status == MilestoneStatus::Pending,
    ensures
        (MilestoneEscrowAccount {
            status: EscrowStatus::Disputed,
            ..account.marked(index, MilestoneStatus::Disputed)
        }).wf(),
{
    let m = Milestone { status: MilestoneStatus::Disputed, ..account.milestones[index] };
    lemma_marked_live(account, index, MilestoneStatus::Disputed);
    lemma_replace(account.live(), index, m);
    let marked = account.marked(index, MilestoneStatus::Disputed);
    let after = MilestoneEscrowAccount { status: EscrowStatus::Disputed, ..marked };
    let before = account.live();
    let live = after.live();
    assert(live == marked.live());
    assert forall|i: int| after.milestone_count <= i < MAX_MILESTONES implies (
    #[trigger] after.milestones[i]).is_empty() by {
        assert(after.milestones[i] == marked.milestones[i]);
        assert(account.milestones[i].is_empty());
    }
    assert forall|i: int| 0 <= i < live.len() && i != index implies (#[trigger] live[i]).status
        != MilestoneStatus::Disputed by {
        assert(live[i] == before[i]);
    }
    assert(only_disputed(live, index));
}

/// A change of status alone, to one that the milestones fit, keeps a
/// well-formed record well-formed.
pub proof fn lemma_status_alone(account: MilestoneEscrowAccount, status: EscrowStatus)
    requires
        account.wf(),
        fits_status(account.live(), status),
    ensures
        (MilestoneEscrowAccount { status, ..account }).wf(),
{
    let after = MilestoneEscrowAccount { status, ..account };
    assert(after.live() == account.live());
    assert forall|i: int| after.milestone_count <= i < MAX_MILESTONES implies (
    #[trigger] after.milestones[i]).is_empty() by {
        assert(account.milestones[i].is_empty());
    }
}

/// Milestones that are all pending are neither under dispute nor, if there
/// are any, all released.
pub proof fn lemma_all_pending(s: Seq<Milestone>)
    requires
        all_pending(s),
        s.len() > 0,
    ensures
        none_disputed(s),
        !all_released(s),
{
    assert(s[0].status == MilestoneStatus::Pending);
}

/// Whether every milestone in use is released.
pub fn every_milestone_released(account: &MilestoneEscrowAccount) -> (r: bool)
    requires
        account.milestone_count <= MAX_MILESTONES,
    ensures
        r == all_released(account.live()),
{
    let count: usize = account.milestone_count as usize;
    let mut i: usize = 0;
    while i < count
        invariant
            i <= count,
            count == account.milestone_count,
            count <= MAX_MILESTONES,
            forall|j: int| 0 <= j < i ==> (#[trigger] account.live()[j]).status == MilestoneStatus::Released,
        decreases count - i,
    {
        if account.milestones[i].status != MilestoneStatus::Released {
            assert(account.live()[i as int] == account.milestones[i as int]);
            return false;
        }
        assert(account.live()[i as int] == account.milestones[i as int]);
        i = i + 1;
    }
    true
}

} // verus!
