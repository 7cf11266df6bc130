//! The steps of one workflow: look up whether the account has claimed, claim
//! if it has not, and move what it holds to the recipient.
//!
//! The driver performs each step and reports what it found. A step that fails
//! ends the workflow with that failure; the orchestrator then starts it anew.

use vstd::prelude::*;

verus! {

/// The pause between a claim and the transfer that follows, in milliseconds.
pub const CLAIM_SETTLE_MS: u64 = 500;

/// A token amount of 256 bits, as four limbs of 64 bits.
#[derive(Clone, Copy, Debug, PartialEq, Eq, Structural)]
pub struct Amount {
    /// The least significant limb.
    pub limb0: u64,
    pub limb1: u64,
    pub limb2: u64,
    /// The most significant limb.
    pub limb3: u64,
}

impl Amount {
    /// The amount as a number.
    pub open spec fn value(&self) -> nat {
        (self.limb0 as nat) + (self.limb1 as nat) * 0x1_0000_0000_0000_0000 + (self.limb2 as nat)
            * 0x1_0000_0000_0000_0000_0000_0000_0000_0000 + (self.limb3 as nat)
            * 0x1_0000_0000_0000_0000_0000_0000_0000_0000_0000_0000_0000_0000
    }

    /// Whether the amount is nothing.
    pub fn is_zero(&self) -> (zero: bool)
        ensures
            zero == (self.value() == 0),
    {
        self.limb0 == 0 && self.limb1 == 0 && self.limb2 == 0 && self.limb3 == 0
    }
}

/// Where a workflow stands.
#[derive(Clone, Copy, Debug, PartialEq, Eq, Structural)]
pub enum WorkflowState {
    /// Waiting to hear whether the account has claimed.
    CheckingClaimed,
    /// The account has claimed: waiting for its token balance.
    ReadingBalance,
    /// The account has not claimed: waiting for its proof and allocation.
    FetchingProof,
    /// Waiting for the claim of this allocation to be sent.
    Claiming { allocation: Amount },
    /// The claim is sent: pausing before the transfer.
    Settling { allocation: Amount },
    /// Waiting for the transfer to be sent.
    Transferring,
    /// Nothing is left to do.
    Done,
}

/// What the driver reports.
#[derive(Clone, Copy, Debug, PartialEq, Eq, Structural)]
pub enum WorkflowEvent {
    /// The distributor's answer to whether the account has claimed.
    ClaimStatus { has_claimed: bool },
    /// The token balance of the account.
    Balance { balance: Amount },
    /// The allocation that the proof lookup gave.
    Allocation { allocation: Amount },
    /// The claim transaction was sent, whatever its receipt says.
    ClaimSent,
    /// The pause is over.
    Settled,
    /// The transfer transaction was sent.
    TransferSent,
}

/// What the driver does next.
#[derive(Clone, Copy, Debug, PartialEq, Eq, Structural)]
pub enum WorkflowAction {
    /// Ask the distributor whether the account has claimed.
    CheckClaimed,
    /// Read the account's token balance.
    ReadBalance,
    /// Look up the account's proof and allocation.
    FetchProof,
    /// Send the claim for this allocation.
    Claim { allocation: Amount },
    /// Pause.
    Sleep { millis: u64 },
    /// Send this amount to the recipient.
    Transfer { amount: Amount },
    /// The workflow has succeeded.
    Finish,
}

/// What follows once the amount to move is known: a transfer, unless it is
/// nothing.
pub open spec fn after_amount(amount: Amount) -> (WorkflowState, WorkflowAction) {
    if amount.value() == 0 {
        (WorkflowState::Done, WorkflowAction::Finish)
    } else {
        (WorkflowState::Transferring, WorkflowAction::Transfer { amount })
    }
}

/// The state and action that follow an event, or `None` where the event does
/// not belong to the state.
pub open spec fn transition(state: WorkflowState, event: WorkflowEvent) -> Option<
    (WorkflowState, WorkflowAction),
> {
    match (state, event) {
        (WorkflowState::CheckingClaimed, WorkflowEvent::ClaimStatus { has_claimed }) => {
            if has_claimed {
                Some((WorkflowState::ReadingBalance, WorkflowAction::ReadBalance))
            } else {
                Some((WorkflowState::FetchingProof, WorkflowAction::FetchProof))
            }
        },
        (WorkflowState::ReadingBalance, WorkflowEvent::Balance { balance }) => Some(
            after_amount(balance),
        ),
        (WorkflowState::FetchingProof, WorkflowEvent::Allocation { allocation }) => Some(
            (WorkflowState::Claiming { allocation }, WorkflowAction::Claim { allocation }),
        ),
        (WorkflowState::Claiming { allocation }, WorkflowEvent::ClaimSent) => Some(
            (
                WorkflowState::Settling { allocation },
                WorkflowAction::Sleep { millis: CLAIM_SETTLE_MS },
            ),
        ),
        (WorkflowState::Settling { allocation }, WorkflowEvent::Settled) => Some(
            after_amount(allocation),
        ),
        (WorkflowState::Transferring, WorkflowEvent::TransferSent) => Some(
            (WorkflowState::Done, WorkflowAction::Finish),
        ),
        _ => None,
    }
}

/// The state and first action of a workflow.
pub fn start() -> (first: (WorkflowState, WorkflowAction))
    ensures
        first == (WorkflowState::CheckingClaimed, WorkflowAction::CheckClaimed),
{
    (WorkflowState::CheckingClaimed, WorkflowAction::CheckClaimed)
}

fn settle_amount(amount: Amount) -> (next: (WorkflowState, WorkflowAction))
    ensures
        next == after_amount(amount),
{
    if amount.is_zero() {
        (WorkflowState::Done, WorkflowAction::Finish)
    } else {
        (WorkflowState::Transferring, WorkflowAction::Transfer { amount })
    }
}

/// The state and action that follow an event. An event that does not belong
/// to the state gives `None`.
pub fn advance(state: WorkflowState, event: WorkflowEvent) -> (next: Option<
    (WorkflowState, WorkflowAction),
>)
    ensures
        next == transition(state, event),
{
    match state {
        WorkflowState::CheckingClaimed => match event {
            WorkflowEvent::ClaimStatus { has_claimed } => {
                if has_claimed {
                    Some((WorkflowState::ReadingBalance, WorkflowAction::ReadBalance))
                } else {
                    Some((WorkflowState::FetchingProof, WorkflowAction::FetchProof))
                }
            },
            _ => None,
        },
        WorkflowState::ReadingBalance => match event {
            WorkflowEvent::Balance { balance } => Some(settle_amount(balance)),
            _ => None,
        },
        WorkflowState::FetchingProof => match event {
            WorkflowEvent::Allocation { allocation } => Some(
                (WorkflowState::Claiming { allocation }, WorkflowAction::Claim { allocation }),
            ),
            _ => None,
        },
        WorkflowState::Claiming { allocation } => match event {
            WorkflowEvent::ClaimSent => Some(
                (
                    WorkflowState::Settling { allocation },
                    WorkflowAction::Sleep { millis: CLAIM_SETTLE_MS },
                ),
            ),
            _ => None,
        },
        WorkflowState::Settling { allocation } => match event {
            WorkflowEvent::Settled => Some(settle_amount(allocation)),
            _ => None,
        },
        WorkflowState::Transferring => match event {
            WorkflowEvent::TransferSent => Some((WorkflowState::Done, WorkflowAction::Finish)),
            _ => None,
        },
        WorkflowState::Done => None,
    }
}

/// Nothing is ever transferred that is nothing, and what is transferred is the
/// balance that was read or the allocation that was claimed.
pub proof fn lemma_transfers_are_never_empty(state: WorkflowState, event: WorkflowEvent)
    ensures
        match transition(state, event) {
            Some((_, WorkflowAction::Transfer { amount })) => {
                &&& amount.value() > 0
                &&& (event == WorkflowEvent::Balance { balance: amount } || state
                    == WorkflowState::Settling { allocation: amount })
            },
            _ => true,
        },
{
}

/// A claim is sent only for an account that has not claimed: the one state
/// from which a claim follows is reached only by that answer.
pub proof fn lemma_claim_only_when_unclaimed(state: WorkflowState, event: WorkflowEvent)
    ensures
        match transition(state, event) {
            Some((_, WorkflowAction::Claim { allocation })) => state == WorkflowState::FetchingProof
                && event == WorkflowEvent::Allocation { allocation },
            Some((WorkflowState::FetchingProof, _)) => state == WorkflowState::CheckingClaimed
                && event == WorkflowEvent::ClaimStatus { has_claimed: false },
            _ => true,
        },
{
}

/// A finished workflow takes no further event.
pub proof fn lemma_done_is_final(event: WorkflowEvent)
    ensures
        transition(WorkflowState::Done, event) is None,
{
}

} // verus!
