use vstd::prelude::*;
use crate::account::AccountId;
use crate::campaign::{Campaign, STAKE_AMOUNT};
use crate::stake::{lemma_remove_value_keeps_no_duplicates, StakeState};

verus! {

/// Mathematical model of the campaign ledger: a campaign together with the
/// native currency that its custody account holds for stakes.
#[verifier::ext_equal]
pub struct Ledger {
    /// The campaign.
    pub campaign: Campaign,
    /// Native currency held in custody for stakes.
    pub escrow: nat,
}

/// A request made to the ledger after it was opened.
pub enum Request {
    /// `participant`, whose account holds `balance`, asks to join.
    Join { participant: AccountId, balance: nat },
    /// `participant`, whose account holds `balance`, asks to leave.
    Leave { participant: AccountId, balance: nat },
    /// The reward pool is to be paid out.
    Distribute,
}

impl Ledger {
    /// The ledger of a campaign that was just opened: no stakes in custody.
    pub open spec fn opened(reward_asset_id: AccountId, reward_pool_amount: nat) -> Ledger {
        Ledger { campaign: Campaign::opened(reward_asset_id, reward_pool_amount), escrow: 0 }
    }

    /// The invariant of the ledger: the campaign is well formed and custody
    /// holds exactly one stake for every roster entry.
    pub open spec fn inv(self) -> bool {
        &&& self.campaign.wf()
        &&& self.escrow == self.campaign.roster.len() * STAKE_AMOUNT
    }

    /// What a join or a leave of `participant`, holding `balance`, works on.
    pub open spec fn stake_state(self, participant: AccountId, balance: nat) -> StakeState {
        StakeState {
            participant,
            participant_balance: balance,
            campaign: self.campaign,
            custody_balance: self.escrow,
        }
    }

    /// The ledger after `request` was handled, whether it was accepted or
    /// rejected.
    pub open spec fn handle(self, request: Request) -> Ledger {
        match request {
            Request::Join { participant, balance } => {
                let after = self.stake_state(participant, balance).after_join();
                Ledger { campaign: after.campaign, escrow: after.custody_balance }
            },
            Request::Leave { participant, balance } => {
                let after = self.stake_state(participant, balance).after_leave();
                Ledger { campaign: after.campaign, escrow: after.custody_balance }
            },
            Request::Distribute => Ledger { campaign: self.campaign.after_distribute(), ..self },
        }
    }

    /// The ledger after `requests` were handled one after the other.
    pub open spec fn run(self, requests: Seq<Request>) -> Ledger
        decreases requests.len(),
    {
        if requests.len() == 0 {
            self
        } else {
            self.run(requests.drop_last()).handle(requests.last())
        }
    }

    /// A ledger is reachable when some campaign was opened and some requests
    /// were handled since.
    pub open spec fn reachable(self) -> bool {
        exists|reward_asset_id: AccountId, reward_pool_amount: nat, requests: Seq<Request>|
            self == #[trigger] Ledger::opened(reward_asset_id, reward_pool_amount).run(requests)
    }
}

/// Handling one request, accepted or rejected, keeps the invariant.
pub proof fn lemma_handle_keeps_invariant(ledger: Ledger, request: Request)
    requires
        ledger.inv(),
    ensures
        ledger.handle(request).inv(),
{
    match request {
        Request::Leave { participant, balance } => {
            if ledger.stake_state(participant, balance).leave_error() is None {
                lemma_remove_value_keeps_no_duplicates(ledger.campaign.roster, participant);
            }
        },
        _ => {},
    }
}

/// Handling any number of requests keeps the invariant.
pub proof fn lemma_run_keeps_invariant(ledger: Ledger, requests: Seq<Request>)
    requires
        ledger.inv(),
    ensures
        ledger.run(requests).inv(),
    decreases requests.len(),
{
    if requests.len() > 0 {
        lemma_run_keeps_invariant(ledger, requests.drop_last());
        lemma_handle_keeps_invariant(ledger.run(requests.drop_last()), requests.last());
    }
}

/// In every reachable state the roster respects the capacity and names nobody
/// twice, and custody holds exactly `len(roster) * STAKE_AMOUNT` for stakes.
pub proof fn lemma_reachable_satisfies_invariant(ledger: Ledger)
    requires
        ledger.reachable(),
    ensures
        ledger.campaign.roster.len() <= ledger.campaign.capacity,
        ledger.campaign.roster.no_duplicates(),
        ledger.escrow == ledger.campaign.roster.len() * STAKE_AMOUNT,
{
    let (reward_asset_id, reward_pool_amount, requests) = choose|
        reward_asset_id: AccountId,
        reward_pool_amount: nat,
        requests: Seq<Request>,
    |
        ledger == #[trigger] Ledger::opened(reward_asset_id, reward_pool_amount).run(requests);
    lemma_run_keeps_invariant(Ledger::opened(reward_asset_id, reward_pool_amount), requests);
}

} // verus!
