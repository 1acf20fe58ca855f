use pwnforge::blocked_email::{next_domain_check, unblock_verdict, DomainCheck, DomainQuery};
use pwnforge::errors::BlockedEmailError;
use pwnforge::types::BlockSource;

/// Runs the check against a store that answers each lookup, in order, with
/// the next of `counts`; returns the verdict and the lookups asked.
fn run_check(counts: &[u64], block_disposable_emails: bool) -> (Result<(), BlockedEmailError>, Vec<DomainQuery>) {
    let mut answered: Vec<u64> = Vec::new();
    let mut asked = Vec::new();
    loop {
        match next_domain_check(block_disposable_emails, &answered) {
            DomainCheck::Ask(q) => {
                asked.push(q);
                answered.push(counts[answered.len()]);
            }
            DomainCheck::Verdict(v) => return (v, asked),
        }
    }
}

#[test]
fn manual_block_applies_even_when_disposable_check_is_off() {
    let (result, _) = run_check(&[1], false);
    assert!(matches!(result, Err(BlockedEmailError::DomainNotAllowed)));
}

#[test]
fn allowlist_wins_over_disposable_list() {
    let (result, _) = run_check(&[0, 1], true);
    assert!(result.is_ok());
}

#[test]
fn disposable_domain_is_rejected() {
    let (result, _) = run_check(&[0, 0, 1], true);
    assert!(matches!(result, Err(BlockedEmailError::DomainNotAllowed)));
}

#[test]
fn unknown_domain_passes() {
    let (result, _) = run_check(&[0, 0, 0], true);
    assert!(result.is_ok());
}

#[test]
fn lookups_stop_once_the_answer_is_known() {
    assert_eq!(run_check(&[1, 0, 0], true).1, vec![DomainQuery::ManualBlock]);
    assert_eq!(run_check(&[0, 0, 0], false).1, vec![DomainQuery::ManualBlock]);
    assert_eq!(run_check(&[0, 3, 0], true).1, vec![DomainQuery::ManualBlock, DomainQuery::Allowed]);
    assert_eq!(
        run_check(&[0, 0, 5], true).1,
        vec![DomainQuery::ManualBlock, DomainQuery::Allowed, DomainQuery::AnyBlock]
    );
}

#[test]
fn disposable_check_off_lets_listed_domains_through() {
    let (result, _) = run_check(&[0, 0, 1], false);
    assert!(result.is_ok());
}

#[test]
fn manual_lookup_narrows_to_manual_source() {
    assert_eq!(DomainQuery::ManualBlock.block_source(), Some(BlockSource::Manual));
    assert_eq!(DomainQuery::AnyBlock.block_source(), None);
    assert_eq!(DomainQuery::Allowed.block_source(), None);
}

#[test]
fn only_manual_blocks_can_be_removed_by_hand() {
    assert_eq!(unblock_verdict(None), Err(BlockedEmailError::NotFound));
    assert_eq!(unblock_verdict(Some(BlockSource::DisposableList)), Err(BlockedEmailError::DisposableListEntry));
    assert_eq!(unblock_verdict(Some(BlockSource::Manual)), Ok(()));
}
