use vstd::prelude::*;
use crate::account::AccountId;
use crate::campaign::{Airdrop, Campaign};
use crate::error::ErrorCode;

verus! {

/// Mathematical model of one payment of the reward asset.
pub struct Payment {
    /// Who is paid.
    pub recipient: AccountId,
    /// How many units.
    pub amount: nat,
}

/// An order to pay `amount` units of the reward asset out of custody to
/// `recipient`.
#[derive(Clone, Copy, Debug, PartialEq, Eq)]
pub struct Payout {
    /// Who is paid.
    pub recipient: AccountId,
    /// How many units.
    pub amount: u64,
}

impl View for Payout {
    type V = Payment;

    open spec fn view(&self) -> Payment {
        Payment { recipient: self.recipient, amount: self.amount as nat }
    }
}

impl Campaign {
    /// Why a distribution is rejected for this campaign, if it is. An empty
    /// roster is reported first, in every state.
    pub open spec fn distribute_error(self) -> Option<ErrorCode> {
        if self.roster.len() == 0 {
            Some(ErrorCode::EmptyRoster)
        } else if self.distributed {
            Some(ErrorCode::AlreadyDistributed)
        } else {
            None
        }
    }

    /// The payments of a distribution: one per roster entry, in roster order,
    /// each of `share()` units.
    pub open spec fn payouts(self) -> Seq<Payment> {
        Seq::new(
            self.roster.len(),
            |i: int| Payment { recipient: self.roster[i], amount: self.share() },
        )
    }

    /// The campaign after a distribution attempt: marked as paid out when
    /// accepted, unchanged when rejected.
    pub open spec fn after_distribute(self) -> Campaign {
        if self.distribute_error() is None {
            self.paid_out()
        } else {
            self
        }
    }
}

/// The sum of the amounts of `payments`.
pub open spec fn total_paid(payments: Seq<Payment>) -> nat
    decreases payments.len(),
{
    if payments.len() == 0 {
        0
    } else {
        total_paid(payments.drop_last()) + payments.last().amount
    }
}

/// Payments that are all of `amount` units sum to their number times `amount`.
pub proof fn lemma_total_of_equal_payments(payments: Seq<Payment>, amount: nat)
    requires
        forall|i: int| 0 <= i < payments.len() ==> payments[i].amount == amount,
    ensures
        total_paid(payments) == payments.len() * amount,
    decreases payments.len(),
{
    if payments.len() > 0 {
        lemma_total_of_equal_payments(payments.drop_last(), amount);
        assert(payments.len() * amount == (payments.len() - 1) * amount + amount)
            by (nonlinear_arith);
    }
}

/// A distribution accounts for the whole pool: what is paid out and what is
/// retained in custody add up to the pool. The retained part is the remainder
/// of the division, so it is smaller than the number of participants.
pub proof fn lemma_distribution_accounts_for_pool(campaign: Campaign)
    requires
        campaign.roster.len() > 0,
    ensures
        total_paid(campaign.payouts()) == campaign.roster.len() * campaign.share(),
        total_paid(campaign.payouts()) + campaign.retained() == campaign.reward_pool_amount,
        campaign.retained() == campaign.reward_pool_amount % campaign.roster.len(),
        campaign.retained() < campaign.roster.len(),
{
    lemma_total_of_equal_payments(campaign.payouts(), campaign.share());
    let pool = campaign.reward_pool_amount as int;
    let count = campaign.roster.len() as int;
    assert((pool / count) * count + pool % count == pool && 0 <= pool % count < count
        && count * (pool / count) == (pool / count) * count) by (nonlinear_arith)
        requires
            count > 0,
            pool >= 0,
    ;
}

/// With nobody enrolled a distribution is rejected with `EmptyRoster`,
/// whatever else the campaign holds, and changes nothing.
pub proof fn lemma_empty_roster_rejects_distribution(campaign: Campaign)
    requires
        campaign.roster.len() == 0,
    ensures
        campaign.distribute_error() == Some(ErrorCode::EmptyRoster),
        campaign.after_distribute() == campaign,
{
}

/// A campaign with an empty pool distributes without failure: everyone
/// enrolled is paid nothing.
pub proof fn lemma_empty_pool_pays_nothing(campaign: Campaign)
    requires
        campaign.reward_pool_amount == 0,
        campaign.roster.len() > 0,
        !campaign.distributed,
    ensures
        campaign.distribute_error() is None,
        campaign.payouts().len() == campaign.roster.len(),
        forall|i: int| 0 <= i < campaign.payouts().len() ==> campaign.payouts()[i].amount == 0,
{
    let count = campaign.roster.len() as int;
    assert(0int / count == 0) by (nonlinear_arith)
        requires
            count > 0,
    ;
}

/// The accounts that a distribution touches.
#[derive(Debug, PartialEq, Eq)]
pub struct Distribute {
    /// The campaign whose pool is paid out.
    pub campaign: Airdrop,
}

impl View for Distribute {
    type V = Campaign;

    open spec fn view(&self) -> Campaign {
        self.campaign@
    }
}

/// Splits the reward pool evenly over the roster, once.
///
/// Every enrolled participant is owed `reward_pool_amount / len(roster)`
/// units, rounded down; the remainder of the division stays in custody. The
/// payments are returned in roster order for the caller to carry out, and the
/// campaign is marked as paid out, so that a second distribution is rejected
/// with `AlreadyDistributed`. With nobody enrolled the distribution is
/// rejected with `EmptyRoster`. A rejected distribution leaves the campaign
/// untouched.
pub fn distribute(ctx: &mut Distribute) -> (res: Result<Vec<Payout>, ErrorCode>)
    ensures
        (match res {
            Ok(list) => {
                &&& old(ctx)@.distribute_error() is None
                &&& list@.len() == old(ctx)@.payouts().len()
                &&& forall|i: int| 0 <= i < list@.len() ==> list@[i]@ == old(ctx)@.payouts()[i]
            },
            Err(e) => old(ctx)@.distribute_error() == Some(e),
        }),
        final(ctx)@ == old(ctx)@.after_distribute(),
        old(ctx)@.wf() ==> final(ctx)@.wf(),
{
    let count = ctx.campaign.roster.len();
    if count == 0 {
        return Err(ErrorCode::EmptyRoster);
    }
    if ctx.campaign.distributed {
        return Err(ErrorCode::AlreadyDistributed);
    }
    let share = ctx.campaign.reward_pool_amount / (count as u64);
    let mut list: Vec<Payout> = Vec::new();
    let mut i: usize = 0;
    while i < count
        invariant
            i <= count,
            count == ctx.campaign.roster.len(),
            *ctx == *old(ctx),
            share == old(ctx)@.share(),
            list@.len() == i,
            forall|j: int| 0 <= j < i ==> list@[j]@ == old(ctx)@.payouts()[j],
        decreases count - i,
    {
        list.push(Payout { recipient: ctx.campaign.roster[i], amount: share });
        i += 1;
    }
    ctx.campaign.distributed = true;
    Ok(list)
}

} // verus!
