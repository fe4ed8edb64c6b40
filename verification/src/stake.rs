use vstd::prelude::*;
use crate::account::AccountId;
use crate::balance::{transfer, transfer_allowed};
use crate::campaign::{Airdrop, Campaign, STAKE_AMOUNT};
use crate::error::ErrorCode;

verus! {

/// Mathematical model of what a join or a leave works on: one participant
/// with a native-currency balance, and a campaign with the native currency it
/// holds in custody.
#[verifier::ext_equal]
pub struct StakeState {
    /// Who joins or leaves.
    pub participant: AccountId,
    /// Native currency on the participant's account.
    pub participant_balance: nat,
    /// The campaign.
    pub campaign: Campaign,
    /// Native currency that the campaign holds in custody.
    pub custody_balance: nat,
}

impl StakeState {
    /// The escrow is balanced when custody holds exactly one stake for every
    /// roster entry.
    pub open spec fn escrow_balanced(self) -> bool {
        self.custody_balance == self.campaign.roster.len() * STAKE_AMOUNT
    }

    /// Why a join is rejected in this state, if it is. The checks come in
    /// this order: capacity, then duplicate, then the stake transfer.
    pub open spec fn join_error(self) -> Option<ErrorCode> {
        if self.campaign.roster.len() >= self.campaign.capacity {
            Some(ErrorCode::RosterFull)
        } else if self.campaign.roster.contains(self.participant) {
            Some(ErrorCode::DuplicateParticipant)
        } else if !transfer_allowed(
            self.participant_balance,
            self.custody_balance,
            STAKE_AMOUNT as nat,
        ) {
            Some(ErrorCode::TransferFailed)
        } else {
            None
        }
    }

    /// The state after an accepted join: one stake has moved from the
    /// participant into custody and the participant stands last in the roster.
    pub open spec fn joined(self) -> StakeState {
        StakeState {
            participant_balance: (self.participant_balance - STAKE_AMOUNT) as nat,
            campaign: self.campaign.enroll(self.participant),
            custody_balance: (self.custody_balance + STAKE_AMOUNT) as nat,
            ..self
        }
    }

    /// The state after a join attempt: `joined` when accepted, unchanged when
    /// rejected.
    pub open spec fn after_join(self) -> StakeState {
        if self.join_error() is None {
            self.joined()
        } else {
            self
        }
    }

    /// Why a leave is rejected in this state, if it is. The checks come in
    /// this order: membership, then the stake refund.
    pub open spec fn leave_error(self) -> Option<ErrorCode> {
        if !self.campaign.roster.contains(self.participant) {
            Some(ErrorCode::ParticipantNotFound)
        } else if !transfer_allowed(
            self.custody_balance,
            self.participant_balance,
            STAKE_AMOUNT as nat,
        ) {
            Some(ErrorCode::TransferFailed)
        } else {
            None
        }
    }

    /// The state after an accepted leave: the participant is off the roster,
    /// the others keep their order, and one stake has moved from custody back
    /// to the participant.
    pub open spec fn left(self) -> StakeState {
        StakeState {
            participant_balance: (self.participant_balance + STAKE_AMOUNT) as nat,
            campaign: self.campaign.withdraw(self.participant),
            custody_balance: (self.custody_balance - STAKE_AMOUNT) as nat,
            ..self
        }
    }

    /// The state after a leave attempt: `left` when accepted, unchanged when
    /// rejected.
    pub open spec fn after_leave(self) -> StakeState {
        if self.leave_error() is None {
            self.left()
        } else {
            self
        }
    }
}

/// The result that reports `error`: `Ok` when there is none.
pub open spec fn outcome(error: Option<ErrorCode>) -> Result<(), ErrorCode> {
    match error {
        None => Ok(()),
        Some(e) => Err(e),
    }
}

/// The accounts that a join touches.
#[derive(Debug, PartialEq, Eq)]
pub struct Join {
    /// Who joins.
    pub participant: AccountId,
    /// Native currency on the participant's account; the stake is taken from it.
    pub participant_balance: u64,
    /// The campaign to join.
    pub campaign: Airdrop,
    /// Native currency that the campaign holds in custody.
    pub custody_balance: u64,
}

impl View for Join {
    type V = StakeState;

    open spec fn view(&self) -> StakeState {
        StakeState {
            participant: self.participant,
            participant_balance: self.participant_balance as nat,
            campaign: self.campaign@,
            custody_balance: self.custody_balance as nat,
        }
    }
}

/// The accounts that a leave touches.
#[derive(Debug, PartialEq, Eq)]
pub struct Leave {
    /// Who leaves.
    pub participant: AccountId,
    /// Native currency on the participant's account; the stake is refunded to it.
    pub participant_balance: u64,
    /// The campaign to leave.
    pub campaign: Airdrop,
    /// Native currency that the campaign holds in custody.
    pub custody_balance: u64,
}

impl View for Leave {
    type V = StakeState;

    open spec fn view(&self) -> StakeState {
        StakeState {
            participant: self.participant,
            participant_balance: self.participant_balance as nat,
            campaign: self.campaign@,
            custody_balance: self.custody_balance as nat,
        }
    }
}

/// Removing the first entry equal to `participant` shortens a sequence that
/// holds it by one, keeps it duplicate-free, and leaves no trace of the
/// participant when there were no duplicates.
pub proof fn lemma_remove_value_keeps_no_duplicates(roster: Seq<AccountId>, participant: AccountId)
    requires
        roster.contains(participant),
    ensures
        roster.remove_value(participant).len() == roster.len() - 1,
        roster.no_duplicates() ==> roster.remove_value(participant).no_duplicates(),
        roster.no_duplicates() ==> !roster.remove_value(participant).contains(participant),
{
    roster.index_of_first_ensures(participant);
}

/// A join followed by a leave of the same participant restores the state: the
/// roster with its order, the participant's balance and the custody balance.
///
/// The law needs that the participant could not already leave before the
/// join. Someone enrolled beforehand is turned away by the join, and the
/// leave that follows then takes the earlier entry off the roster.
pub proof fn lemma_join_then_leave_restores(s: StakeState)
    requires
        s.participant_balance <= u64::MAX,
        s.leave_error() is Some,
    ensures
        s.after_join().after_leave() == s,
        s.join_error() is None ==> s.after_join().leave_error() is None,
{
    if s.join_error() is None {
        let roster = s.campaign.roster;
        let grown = roster.push(s.participant);
        assert(grown[roster.len() as int] == s.participant);
        grown.index_of_first_ensures(s.participant);
    }
}

/// A join on a roster that has reached the capacity is rejected with
/// `RosterFull`, whoever asks, and changes nothing.
pub proof fn lemma_full_roster_rejects_join(s: StakeState)
    requires
        s.campaign.roster.len() >= s.campaign.capacity,
    ensures
        s.join_error() == Some(ErrorCode::RosterFull),
        s.after_join() == s,
{
}

/// A participant who has just joined cannot join again: the second attempt
/// is rejected and changes nothing. It is rejected as a duplicate as long as
/// the first join left room on the roster; when the first join took the last
/// place, the full roster is reported instead.
pub proof fn lemma_second_join_is_rejected(s: StakeState)
    requires
        s.join_error() is None,
    ensures
        s.after_join().join_error() == Some(
            if s.campaign.roster.len() + 1 < s.campaign.capacity {
                ErrorCode::DuplicateParticipant
            } else {
                ErrorCode::RosterFull
            },
        ),
        s.after_join().after_join() == s.after_join(),
        s.after_join().campaign.roster.len() == s.campaign.roster.len() + 1,
{
    let grown = s.campaign.roster.push(s.participant);
    assert(grown[s.campaign.roster.len() as int] == s.participant);
}

/// Enrolls the participant and takes the stake, or does neither.
///
/// The roster must have room and must not hold the participant yet; the
/// participant must be able to pay `STAKE_AMOUNT` into custody. When all
/// three hold, the stake moves and the participant is appended to the roster.
/// Otherwise the first failing check is reported and `ctx` is left untouched.
pub fn join(ctx: &mut Join) -> (res: Result<(), ErrorCode>)
    ensures
        res == outcome(old(ctx)@.join_error()),
        final(ctx)@ == old(ctx)@.after_join(),
        old(ctx)@.campaign.wf() ==> final(ctx)@.campaign.wf(),
        old(ctx)@.escrow_balanced() ==> final(ctx)@.escrow_balanced(),
{
    if ctx.campaign.is_full() {
        return Err(ErrorCode::RosterFull);
    }
    if ctx.campaign.is_enrolled(&ctx.participant) {
        return Err(ErrorCode::DuplicateParticipant);
    }
    match transfer(&mut ctx.participant_balance, &mut ctx.custody_balance, STAKE_AMOUNT) {
        Ok(()) => {},
        Err(e) => {
            return Err(e);
        },
    }
    ctx.campaign.roster.push(ctx.participant);
    Ok(())
}

/// Takes the participant off the roster and refunds the stake, or does
/// neither.
///
/// The participant must be enrolled and custody must be able to pay
/// `STAKE_AMOUNT` back. When both hold, the participant's first roster entry
/// is removed, the remaining entries keep their order, and the stake moves
/// back. Otherwise the first failing check is reported and `ctx` is left
/// untouched.
pub fn leave(ctx: &mut Leave) -> (res: Result<(), ErrorCode>)
    ensures
        res == outcome(old(ctx)@.leave_error()),
        final(ctx)@ == old(ctx)@.after_leave(),
        old(ctx)@.campaign.wf() ==> final(ctx)@.campaign.wf(),
        old(ctx)@.escrow_balanced() ==> final(ctx)@.escrow_balanced(),
{
    let index = match ctx.campaign.position(&ctx.participant) {
        Some(i) => i,
        None => {
            return Err(ErrorCode::ParticipantNotFound);
        },
    };
    match transfer(&mut ctx.custody_balance, &mut ctx.participant_balance, STAKE_AMOUNT) {
        Ok(()) => {},
        Err(e) => {
            return Err(e);
        },
    }
    ctx.campaign.roster.remove(index);
    Ok(())
}

} // verus!
