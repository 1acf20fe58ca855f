//! Whether an email domain may register.
//!
//! Manual blocks always apply. The public disposable list is consulted only
//! when enabled, and can be overridden per domain by the allowlist. Each rule
//! needs a lookup in the database; the lookups are run by the caller, one at
//! a time, in the order [`next_domain_check`] asks for them, and stop as soon
//! as the answer is known.
use vstd::prelude::*;
use crate::errors::BlockedEmailError;
use crate::types::BlockSource;

verus! {

/// A lookup the check needs. Each is a count of matching rows; the domain
/// comparison is case-insensitive (the columns are `citext`).
#[derive(Debug, Clone, Copy, PartialEq, Eq, Structural)]
pub enum DomainQuery {
    /// Blocks of the domain whose source is `manual`.
    ManualBlock,
    /// Allowlist entries for the domain.
    Allowed,
    /// Blocks of the domain, whatever their source.
    AnyBlock,
}

impl DomainQuery {
    /// The block source the lookup narrows to, if any.
    pub fn block_source(self) -> (s: Option<BlockSource>)
        ensures
            self is ManualBlock ==> s == Some(BlockSource::Manual),
            !(self is ManualBlock) ==> s is None,
    {
        match self {
            DomainQuery::ManualBlock => Some(BlockSource::Manual),
            _ => None,
        }
    }
}

/// What the check does next.
#[derive(Debug, Clone, Copy)]
pub enum DomainCheck {
    /// Run this lookup and hand its count back.
    Ask(DomainQuery),
    /// The check is over.
    Verdict(Result<(), BlockedEmailError>),
}

/// The answer owed once every relevant fact is known.
pub open spec fn domain_verdict(block_disposable_emails: bool, manual: bool, allowed: bool, blocked: bool)
    -> Result<(), BlockedEmailError>
{
    if manual {
        Err(BlockedEmailError::DomainNotAllowed)
    } else if !block_disposable_emails || allowed {
        Ok(())
    } else if blocked {
        Err(BlockedEmailError::DomainNotAllowed)
    } else {
        Ok(())
    }
}

/// The lookups that have to be run, in order, for the given facts.
pub open spec fn lookups_needed(block_disposable_emails: bool, manual: bool, allowed: bool) -> Seq<DomainQuery> {
    if manual || !block_disposable_emails {
        seq![DomainQuery::ManualBlock]
    } else if allowed {
        seq![DomainQuery::ManualBlock, DomainQuery::Allowed]
    } else {
        seq![DomainQuery::ManualBlock, DomainQuery::Allowed, DomainQuery::AnyBlock]
    }
}

/// The step after the counts `answered`, given in the order the lookups
/// were asked: the next lookup, or the verdict once it is known.
pub open spec fn domain_check_after(block_disposable_emails: bool, answered: Seq<u64>) -> DomainCheck {
    if answered.len() == 0 {
        DomainCheck::Ask(DomainQuery::ManualBlock)
    } else if answered[0] > 0 || !block_disposable_emails {
        DomainCheck::Verdict(domain_verdict(block_disposable_emails, answered[0] > 0, false, false))
    } else if answered.len() == 1 {
        DomainCheck::Ask(DomainQuery::Allowed)
    } else if answered[1] > 0 {
        DomainCheck::Verdict(Ok(()))
    } else if answered.len() == 2 {
        DomainCheck::Ask(DomainQuery::AnyBlock)
    } else {
        DomainCheck::Verdict(domain_verdict(true, false, false, answered[2] > 0))
    }
}

/// Decides the next step of the check from the counts answered so far.
/// Counts beyond those the verdict needs are ignored.
pub fn next_domain_check(block_disposable_emails: bool, answered: &[u64]) -> (c: DomainCheck)
    ensures
        c == domain_check_after(block_disposable_emails, answered@),
{
    if answered.len() == 0 {
        return DomainCheck::Ask(DomainQuery::ManualBlock);
    }
    if answered[0] > 0 {
        return DomainCheck::Verdict(Err(BlockedEmailError::DomainNotAllowed));
    }
    if !block_disposable_emails {
        return DomainCheck::Verdict(Ok(()));
    }
    if answered.len() == 1 {
        return DomainCheck::Ask(DomainQuery::Allowed);
    }
    if answered[1] > 0 {
        return DomainCheck::Verdict(Ok(()));
    }
    if answered.len() == 2 {
        return DomainCheck::Ask(DomainQuery::AnyBlock);
    }
    if answered[2] > 0 {
        DomainCheck::Verdict(Err(BlockedEmailError::DomainNotAllowed))
    } else {
        DomainCheck::Verdict(Ok(()))
    }
}

/// Whether a blocked domain may be removed from the list by hand: only
/// manual blocks can; entries of the disposable list are replaced by
/// re-seeding the list.
pub fn unblock_verdict(existing: Option<BlockSource>) -> (r: Result<(), BlockedEmailError>)
    ensures
        existing is None ==> r == Err::<(), BlockedEmailError>(BlockedEmailError::NotFound),
        existing == Some(BlockSource::DisposableList) ==> r == Err::<(), BlockedEmailError>(BlockedEmailError::DisposableListEntry),
        existing == Some(BlockSource::Manual) ==> r is Ok,
{
    match existing {
        None => Err(BlockedEmailError::NotFound),
        Some(BlockSource::DisposableList) => Err(BlockedEmailError::DisposableListEntry),
        Some(BlockSource::Manual) => Ok(()),
    }
}

/// Answering the lookups from a store in which the domain has `manual`
/// manual blocks, `allowed` allowlist entries and `blocked` blocks in all,
/// the check asks exactly the lookups it needs, in order, and ends with the
/// verdict owed for those facts.
pub proof fn driven_check_reaches_the_verdict(block_disposable_emails: bool, manual: u64, allowed: u64, blocked: u64)
    ensures
        ({
            let answers = seq![manual, allowed, blocked];
            let needed = lookups_needed(block_disposable_emails, manual > 0, allowed > 0);
            &&& forall|k: int| 0 <= k < needed.len() ==>
                domain_check_after(block_disposable_emails, #[trigger] answers.take(k)) == DomainCheck::Ask(needed[k])
            &&& domain_check_after(block_disposable_emails, answers.take(needed.len() as int))
                == DomainCheck::Verdict(domain_verdict(block_disposable_emails, manual > 0, allowed > 0, blocked > 0))
        }),
{
    let answers = seq![manual, allowed, blocked];
    assert(answers.take(0).len() == 0);
    assert(answers.take(1) =~= seq![manual]);
    assert(answers.take(2) =~= seq![manual, allowed]);
    assert(answers.take(3) =~= answers);
}

/// A manual block rejects the domain whatever the other settings and lists say.
pub proof fn manual_block_always_rejects(block_disposable_emails: bool, allowed: bool, blocked: bool)
    ensures
        domain_verdict(block_disposable_emails, true, allowed, blocked) == Err::<(), BlockedEmailError>(BlockedEmailError::DomainNotAllowed),
{
}

/// With the disposable check off, only manual blocks count.
pub proof fn disposable_off_only_manual_counts(manual: bool, allowed: bool, blocked: bool)
    ensures
        domain_verdict(false, manual, allowed, blocked) is Err <==> manual,
{
}

/// An allowlisted domain passes unless it is blocked by hand.
pub proof fn allowlist_wins_over_the_list(block_disposable_emails: bool, blocked: bool)
    ensures
        domain_verdict(block_disposable_emails, false, true, blocked) is Ok,
{
}

/// The only refusal the check gives is `DomainNotAllowed`: the caller can
/// never tell which list matched.
pub proof fn refusal_does_not_name_the_list(block_disposable_emails: bool, manual: bool, allowed: bool, blocked: bool)
    ensures
        domain_verdict(block_disposable_emails, manual, allowed, blocked) is Err ==>
            domain_verdict(block_disposable_emails, manual, allowed, blocked) == Err::<(), BlockedEmailError>(BlockedEmailError::DomainNotAllowed),
{
}

} // verus!
