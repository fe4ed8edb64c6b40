use vstd::prelude::*;
use crate::account::AccountId;

verus! {

/// Capacity given to every new campaign.
pub const FIXED_MAX_USERS: u64 = 10;

/// Stake that a participant posts on joining and reclaims on leaving, in the
/// minor unit of the native currency.
pub const STAKE_AMOUNT: u64 = 1_000_000_000;

/// Mathematical model of a campaign record.
#[verifier::ext_equal]
pub struct Campaign {
    /// Enrolled participants, in the order in which they joined.
    pub roster: Seq<AccountId>,
    /// Largest number of participants the roster may hold.
    pub capacity: nat,
    /// The asset that the campaign gives away.
    pub reward_asset_id: AccountId,
    /// Units of the reward asset deposited when the campaign was opened.
    pub reward_pool_amount: nat,
    /// Whether the pool has been paid out.
    pub distributed: bool,
}

impl Campaign {
    /// The invariant of a campaign: the roster respects the capacity and
    /// names nobody twice.
    pub open spec fn wf(self) -> bool {
        &&& self.roster.len() <= self.capacity
        &&& self.roster.no_duplicates()
    }

    /// The campaign as it is right after opening: nobody enrolled, nothing
    /// paid out.
    pub open spec fn opened(reward_asset_id: AccountId, reward_pool_amount: nat) -> Campaign {
        Campaign {
            roster: Seq::empty(),
            capacity: FIXED_MAX_USERS as nat,
            reward_asset_id,
            reward_pool_amount,
            distributed: false,
        }
    }

    /// The campaign with `participant` appended to the roster.
    pub open spec fn enroll(self, participant: AccountId) -> Campaign {
        Campaign { roster: self.roster.push(participant), ..self }
    }

    /// The campaign without the first roster entry equal to `participant`;
    /// the entries that remain keep their order.
    pub open spec fn withdraw(self, participant: AccountId) -> Campaign {
        Campaign { roster: self.roster.remove_value(participant), ..self }
    }

    /// The campaign marked as paid out.
    pub open spec fn paid_out(self) -> Campaign {
        Campaign { distributed: true, ..self }
    }

    /// What each enrolled participant receives: the pool divided evenly,
    /// rounded down.
    pub open spec fn share(self) -> nat
        recommends
            self.roster.len() > 0,
    {
        self.reward_pool_amount / self.roster.len()
    }

    /// What stays in custody after every participant got a share: the pool
    /// less one share per roster entry.
    pub open spec fn retained(self) -> nat
        recommends
            self.roster.len() > 0,
    {
        (self.reward_pool_amount - self.share() * self.roster.len()) as nat
    }
}

/// A campaign record: one per airdrop.
#[derive(Debug, PartialEq, Eq)]
pub struct Airdrop {
    /// Enrolled participants, in the order in which they joined.
    pub roster: Vec<AccountId>,
    /// Largest number of participants the roster may hold.
    pub capacity: u64,
    /// The asset that the campaign gives away.
    pub reward_asset_id: AccountId,
    /// Units of the reward asset deposited when the campaign was opened.
    pub reward_pool_amount: u64,
    /// Whether the pool has been paid out.
    pub distributed: bool,
}

impl View for Airdrop {
    type V = Campaign;

    open spec fn view(&self) -> Campaign {
        Campaign {
            roster: self.roster@,
            capacity: self.capacity as nat,
            reward_asset_id: self.reward_asset_id,
            reward_pool_amount: self.reward_pool_amount as nat,
            distributed: self.distributed,
        }
    }
}

impl Clone for Airdrop {
    /// A copy of the record with the same roster, in the same order.
    fn clone(&self) -> (copy: Airdrop)
        ensures
            copy@ == self@,
    {
        let mut roster: Vec<AccountId> = Vec::new();
        let mut i: usize = 0;
        while i < self.roster.len()
            invariant
                i <= self.roster.len(),
                roster@ == self.roster@.take(i as int),
            decreases self.roster.len() - i,
        {
            roster.push(self.roster[i]);
            i += 1;
        }
        Airdrop {
            roster,
            capacity: self.capacity,
            reward_asset_id: self.reward_asset_id,
            reward_pool_amount: self.reward_pool_amount,
            distributed: self.distributed,
        }
    }
}

impl Airdrop {
    /// The record of a newly opened campaign for `reward_pool_amount` units
    /// of the asset `reward_asset_id`. Opening a campaign together with the
    /// deposit of its pool is what `initialize` does.
    pub fn new(reward_asset_id: AccountId, reward_pool_amount: u64) -> (campaign: Airdrop)
        ensures
            campaign@ == Campaign::opened(reward_asset_id, reward_pool_amount as nat),
            campaign@.wf(),
    {
        Airdrop {
            roster: Vec::new(),
            capacity: FIXED_MAX_USERS,
            reward_asset_id,
            reward_pool_amount,
            distributed: false,
        }
    }

    /// Whether the record satisfies the campaign invariant: the roster
    /// respects the capacity and names nobody twice.
    pub fn is_well_formed(&self) -> (ok: bool)
        ensures
            ok == self@.wf(),
    {
        let count = self.roster.len();
        if count as u64 > self.capacity {
            return false;
        }
        let mut i: usize = 0;
        while i < count
            invariant
                i <= count,
                count == self.roster.len(),
                forall|a: int, b: int| 0 <= a < b < i ==> self.roster@[a] != self.roster@[b],
            decreases count - i,
        {
            let mut j: usize = 0;
            while j < i
                invariant
                    j <= i,
                    i < count,
                    count == self.roster.len(),
                    forall|a: int| 0 <= a < j ==> self.roster@[a] != self.roster@[i as int],
                decreases i - j,
            {
                if self.roster[j] == self.roster[i] {
                    return false;
                }
                j += 1;
            }
            i += 1;
        }
        true
    }

    /// Where `participant` first stands in the roster, found by a scan from
    /// the front; `None` when not enrolled.
    pub fn position(&self, participant: &AccountId) -> (found: Option<usize>)
        ensures
            found is None <==> !self@.roster.contains(*participant),
            found matches Some(i) ==> ({
                &&& i < self@.roster.len()
                &&& self@.roster[i as int] == *participant
                &&& forall|j: int| 0 <= j < i ==> self@.roster[j] != *participant
                &&& self@.roster.index_of_first(*participant) == Some(i as int)
            }),
    {
        let mut i: usize = 0;
        while i < self.roster.len()
            invariant
                i <= self.roster.len(),
                forall|j: int| 0 <= j < i ==> self.roster@[j] != *participant,
            decreases self.roster.len() - i,
        {
            if self.roster[i] == *participant {
                proof {
                    self.roster@.index_of_first_ensures(*participant);
                }
                return Some(i);
            }
            i += 1;
        }
        None
    }

    /// Whether `participant` is enrolled.
    pub fn is_enrolled(&self, participant: &AccountId) -> (enrolled: bool)
        ensures
            enrolled == self@.roster.contains(*participant),
    {
        self.position(participant).is_some()
    }

    /// Whether the roster has reached the capacity.
    pub fn is_full(&self) -> (full: bool)
        ensures
            full == (self@.roster.len() >= self@.capacity),
    {
        self.roster.len() as u64 >= self.capacity
    }
}

} // verus!
