use vstd::prelude::*;
use crate::account::AccountId;
use crate::balance::{transfer, transfer_allowed};
use crate::campaign::{Airdrop, Campaign};
use crate::error::ErrorCode;

verus! {

/// Mathematical model of what opening a campaign works on: the sponsor's
/// holdings of the reward asset and the holdings in custody.
#[verifier::ext_equal]
pub struct FundingState {
    /// Who deposits the reward pool.
    pub sponsor: AccountId,
    /// The asset that the campaign will give away.
    pub reward_asset_id: AccountId,
    /// Units of the reward asset that the sponsor holds.
    pub sponsor_tokens: nat,
    /// Units of the reward asset held in custody.
    pub custody_tokens: nat,
}

impl FundingState {
    /// Why opening a campaign for `reward_amount` units is rejected in this
    /// state, if it is: only because the deposit cannot be made.
    pub open spec fn initialize_error(self, reward_amount: nat) -> Option<ErrorCode> {
        if !transfer_allowed(self.sponsor_tokens, self.custody_tokens, reward_amount) {
            Some(ErrorCode::TransferFailed)
        } else {
            None
        }
    }

    /// The state after the deposit: `reward_amount` units have moved from the
    /// sponsor into custody.
    pub open spec fn funded(self, reward_amount: nat) -> FundingState {
        FundingState {
            sponsor_tokens: (self.sponsor_tokens - reward_amount) as nat,
            custody_tokens: self.custody_tokens + reward_amount,
            ..self
        }
    }

    /// The state after an attempt to open a campaign: `funded` when accepted,
    /// unchanged when rejected.
    pub open spec fn after_initialize(self, reward_amount: nat) -> FundingState {
        if self.initialize_error(reward_amount) is None {
            self.funded(reward_amount)
        } else {
            self
        }
    }
}

/// A campaign can always be opened with an empty pool: a deposit of zero
/// units is never rejected and moves nothing.
pub proof fn lemma_empty_pool_is_accepted(s: FundingState)
    requires
        s.custody_tokens <= u64::MAX,
    ensures
        s.initialize_error(0) is None,
        s.after_initialize(0) == s,
{
}

/// The accounts that opening a campaign touches.
#[derive(Clone, Copy, Debug, PartialEq, Eq)]
pub struct Initialize {
    /// Who deposits the reward pool.
    pub sponsor: AccountId,
    /// The asset that the campaign will give away.
    pub reward_asset_id: AccountId,
    /// Units of the reward asset that the sponsor holds.
    pub sponsor_tokens: u64,
    /// Units of the reward asset held in custody.
    pub custody_tokens: u64,
}

impl View for Initialize {
    type V = FundingState;

    open spec fn view(&self) -> FundingState {
        FundingState {
            sponsor: self.sponsor,
            reward_asset_id: self.reward_asset_id,
            sponsor_tokens: self.sponsor_tokens as nat,
            custody_tokens: self.custody_tokens as nat,
        }
    }
}

/// Opens a campaign and deposits its reward pool, or does neither.
///
/// `reward_amount` units of the reward asset move from the sponsor into
/// custody, and the new campaign is returned: empty roster, capacity
/// `FIXED_MAX_USERS`, the asset and the amount on record. An amount of zero is
/// accepted. When the sponsor holds less than `reward_amount`, or custody
/// cannot hold that much more, nothing moves and no campaign comes into
/// being.
pub fn initialize(ctx: &mut Initialize, reward_amount: u64) -> (res: Result<Airdrop, ErrorCode>)
    ensures
        (match res {
            Ok(campaign) => {
                &&& old(ctx)@.initialize_error(reward_amount as nat) is None
                &&& campaign@ == Campaign::opened(old(ctx)@.reward_asset_id, reward_amount as nat)
                &&& campaign@.wf()
            },
            Err(e) => old(ctx)@.initialize_error(reward_amount as nat) == Some(e),
        }),
        final(ctx)@ == old(ctx)@.after_initialize(reward_amount as nat),
{
    match transfer(&mut ctx.sponsor_tokens, &mut ctx.custody_tokens, reward_amount) {
        Ok(()) => {},
        Err(e) => {
            return Err(e);
        },
    }
    Ok(Airdrop::new(ctx.reward_asset_id, reward_amount))
}

} // verus!
