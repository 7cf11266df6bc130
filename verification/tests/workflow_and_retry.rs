use claim_orchestrator::constants::{
    CLAIMER_CONTRACT_ADDRESS, CONFIG_FILE_PATH, PRIVATE_KEYS_FILE_PATH, RECIPIENTS_FILE_PATH,
    REQUEST_PROOF_URL, SCROLL_CHAIN_ID, SCROLL_EXPLORER_URL, TOKEN_CONTRACT_ADDRESS,
};
use claim_orchestrator::retry::{
    RetryPolicy, RetryStep, DEFAULT_MAX_RETRIES, DEFAULT_RETRY_DELAY_MS,
};
use claim_orchestrator::workflow::{
    advance, start, Amount, WorkflowAction, WorkflowEvent, WorkflowState, CLAIM_SETTLE_MS,
};

fn amount(n: u64) -> Amount {
    Amount { limb0: n, limb1: 0, limb2: 0, limb3: 0 }
}

#[test]
fn deployment_constants() {
    assert_eq!(CLAIMER_CONTRACT_ADDRESS, "E8bE8eB940c0ca3BD19D911CD3bEBc97Bea0ED62");
    assert_eq!(TOKEN_CONTRACT_ADDRESS, "d29687c813D741E2F938F4aC377128810E217b1b");
    assert_eq!(REQUEST_PROOF_URL, "https://claim.scroll.io/");
    assert_eq!(PRIVATE_KEYS_FILE_PATH, "data/private_keys.txt");
    assert_eq!(RECIPIENTS_FILE_PATH, "data/recipients.txt");
    assert_eq!(CONFIG_FILE_PATH, "data/config.toml");
    assert_eq!(SCROLL_CHAIN_ID, 534352);
    assert_eq!(SCROLL_EXPLORER_URL, "https://scrollscan.com");
}

#[test]
fn only_an_amount_of_nothing_is_zero() {
    assert!(amount(0).is_zero());
    assert!(!amount(1).is_zero());
    assert!(!Amount { limb0: 0, limb1: 1, limb2: 0, limb3: 0 }.is_zero());
    assert!(!Amount { limb0: 0, limb1: 0, limb2: 1, limb3: 0 }.is_zero());
    assert!(!Amount { limb0: 0, limb1: 0, limb2: 0, limb3: u64::MAX }.is_zero());
}

#[test]
fn an_account_that_has_claimed_transfers_its_balance() {
    let (state, action) = start();
    assert_eq!(state, WorkflowState::CheckingClaimed);
    assert_eq!(action, WorkflowAction::CheckClaimed);
    let (state, action) =
        advance(state, WorkflowEvent::ClaimStatus { has_claimed: true }).unwrap();
    assert_eq!(action, WorkflowAction::ReadBalance);
    let (state, action) = advance(state, WorkflowEvent::Balance { balance: amount(97) }).unwrap();
    assert_eq!(action, WorkflowAction::Transfer { amount: amount(97) });
    assert_eq!(state, WorkflowState::Transferring);
    let (state, action) = advance(state, WorkflowEvent::TransferSent).unwrap();
    assert_eq!((state, action), (WorkflowState::Done, WorkflowAction::Finish));
}

#[test]
fn an_empty_balance_is_not_transferred() {
    let next = advance(WorkflowState::ReadingBalance, WorkflowEvent::Balance { balance: amount(0) });
    assert_eq!(next, Some((WorkflowState::Done, WorkflowAction::Finish)));
}

#[test]
fn an_account_that_has_not_claimed_claims_then_pauses_then_transfers() {
    let (state, _) = start();
    let (state, action) =
        advance(state, WorkflowEvent::ClaimStatus { has_claimed: false }).unwrap();
    assert_eq!(action, WorkflowAction::FetchProof);
    let (state, action) =
        advance(state, WorkflowEvent::Allocation { allocation: amount(500) }).unwrap();
    assert_eq!(action, WorkflowAction::Claim { allocation: amount(500) });
    let (state, action) = advance(state, WorkflowEvent::ClaimSent).unwrap();
    assert_eq!(action, WorkflowAction::Sleep { millis: 500 });
    assert_eq!(CLAIM_SETTLE_MS, 500);
    let (state, action) = advance(state, WorkflowEvent::Settled).unwrap();
    assert_eq!(action, WorkflowAction::Transfer { amount: amount(500) });
    let (state, action) = advance(state, WorkflowEvent::TransferSent).unwrap();
    assert_eq!((state, action), (WorkflowState::Done, WorkflowAction::Finish));
}

#[test]
fn an_allocation_of_nothing_is_claimed_and_not_transferred() {
    let state = WorkflowState::FetchingProof;
    let (state, action) =
        advance(state, WorkflowEvent::Allocation { allocation: amount(0) }).unwrap();
    assert_eq!(action, WorkflowAction::Claim { allocation: amount(0) });
    let (state, _) = advance(state, WorkflowEvent::ClaimSent).unwrap();
    assert_eq!(
        advance(state, WorkflowEvent::Settled),
        Some((WorkflowState::Done, WorkflowAction::Finish))
    );
}

#[test]
fn an_event_out_of_place_is_refused() {
    assert_eq!(advance(WorkflowState::CheckingClaimed, WorkflowEvent::TransferSent), None);
    assert_eq!(advance(WorkflowState::ReadingBalance, WorkflowEvent::ClaimSent), None);
    assert_eq!(
        advance(WorkflowState::FetchingProof, WorkflowEvent::Balance { balance: amount(1) }),
        None
    );
    assert_eq!(
        advance(WorkflowState::Claiming { allocation: amount(1) }, WorkflowEvent::Settled),
        None
    );
    assert_eq!(
        advance(WorkflowState::Settling { allocation: amount(1) }, WorkflowEvent::ClaimSent),
        None
    );
    assert_eq!(advance(WorkflowState::Transferring, WorkflowEvent::Settled), None);
    assert_eq!(advance(WorkflowState::Done, WorkflowEvent::TransferSent), None);
    assert_eq!(
        advance(WorkflowState::Done, WorkflowEvent::ClaimStatus { has_claimed: true }),
        None
    );
}

#[test]
fn retry_defaults() {
    assert_eq!(DEFAULT_MAX_RETRIES, 5);
    assert_eq!(DEFAULT_RETRY_DELAY_MS, 3000);
    let policy = RetryPolicy::new(None, None);
    assert_eq!(policy, RetryPolicy { max_retries: 5, retry_delay_ms: 3000 });
    let policy = RetryPolicy::new(Some(2), None);
    assert_eq!(policy, RetryPolicy { max_retries: 2, retry_delay_ms: 3000 });
    let policy = RetryPolicy::new(None, Some(10));
    assert_eq!(policy, RetryPolicy { max_retries: 5, retry_delay_ms: 10 });
}

#[test]
fn a_lookup_is_sent_at_most_as_often_as_allowed() {
    let policy = RetryPolicy::new(None, None);
    for failures in 0..5 {
        assert_eq!(policy.next_step(failures), RetryStep::Send);
    }
    assert_eq!(policy.next_step(5), RetryStep::GiveUp);
    assert_eq!(policy.next_step(6), RetryStep::GiveUp);
    assert_eq!(policy.next_step(usize::MAX), RetryStep::GiveUp);
}

#[test]
fn with_no_tries_allowed_nothing_is_sent() {
    let policy = RetryPolicy::new(Some(0), Some(1));
    assert_eq!(policy.next_step(0), RetryStep::GiveUp);
}
