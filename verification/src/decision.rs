//! The closed-decision → criome verdict mapping.
//!
//! A Mentci verdict is a closed choice over [`ApprovalDecision`]; when the
//! question originated as a criome escalation, answering it means handing
//! criome an [`AuthorizationApprovalDecision`] keyed by the
//! [`AuthorizationRequestSlot`] criome parked. This is the one place both the
//! daemon and any control client read that projection from.

use vstd::prelude::*;

use crate::contract::{ApprovalDecision, AuthorizationApprovalDecision, AuthorizationRequestSlot};

verus! {

/// The criome decision a closed Mentci decision stands for: approving the
/// suggested answer approves, rejecting rejects, deferring defers.
pub open spec fn criome_decision_for(decision: ApprovalDecision) -> AuthorizationApprovalDecision {
    match decision {
        ApprovalDecision::ApproveSuggestedAnswer => AuthorizationApprovalDecision::Approve,
        ApprovalDecision::Reject => AuthorizationApprovalDecision::Reject,
        ApprovalDecision::Defer => AuthorizationApprovalDecision::Defer,
    }
}

/// The mapping is one-to-one and onto: distinct Mentci decisions give distinct
/// criome decisions, and every criome decision is given by one.
pub proof fn lemma_criome_decision_bijective(a: ApprovalDecision, b: ApprovalDecision, target: AuthorizationApprovalDecision)
    ensures
        criome_decision_for(a) == criome_decision_for(b) ==> a == b,
        exists|d: ApprovalDecision| criome_decision_for(d) == target,
{
    match target {
        AuthorizationApprovalDecision::Approve => {
            assert(criome_decision_for(ApprovalDecision::ApproveSuggestedAnswer) == target);
        },
        AuthorizationApprovalDecision::Reject => {
            assert(criome_decision_for(ApprovalDecision::Reject) == target);
        },
        AuthorizationApprovalDecision::Defer => {
            assert(criome_decision_for(ApprovalDecision::Defer) == target);
        },
    }
}

/// A verdict ready to deliver to criome's meta socket: the request slot criome
/// parked, and the closed decision projected into criome's authorization
/// vocabulary.
#[derive(Debug, Clone, PartialEq, Eq)]
pub struct CriomeVerdict {
    request_slot: AuthorizationRequestSlot,
    decision: AuthorizationApprovalDecision,
}

impl CriomeVerdict {
    pub closed spec fn verdict_slot(self) -> AuthorizationRequestSlot {
        self.request_slot
    }

    pub closed spec fn verdict_decision(self) -> AuthorizationApprovalDecision {
        self.decision
    }

    /// Project a closed Mentci decision onto the criome request slot it
    /// answers.
    pub fn from_decision(request_slot: AuthorizationRequestSlot, decision: ApprovalDecision) -> (verdict: Self)
        ensures
            verdict.verdict_slot() == request_slot,
            verdict.verdict_decision() == criome_decision_for(decision),
    {
        CriomeVerdict { request_slot, decision: CriomeDecision::from(decision).into_inner() }
    }

    pub fn request_slot(&self) -> (slot: &AuthorizationRequestSlot)
        ensures
            *slot == self.verdict_slot(),
    {
        &self.request_slot
    }

    pub fn decision(&self) -> (decision: &AuthorizationApprovalDecision)
        ensures
            *decision == self.verdict_decision(),
    {
        &self.decision
    }
}

/// The named contact point between Mentci's closed verdict set and criome's
/// authorization decision set; the two-enum match lives only here.
#[derive(Debug, Clone, Copy, PartialEq, Eq)]
pub struct CriomeDecision(AuthorizationApprovalDecision);

impl CriomeDecision {
    pub closed spec fn inner(self) -> AuthorizationApprovalDecision {
        self.0
    }

    pub fn into_inner(self) -> (decision: AuthorizationApprovalDecision)
        ensures
            decision == self.inner(),
    {
        self.0
    }
}

impl From<ApprovalDecision> for CriomeDecision {
    fn from(decision: ApprovalDecision) -> (mapped: Self)
        ensures
            mapped.inner() == criome_decision_for(decision),
    {
        CriomeDecision(
            match decision {
                ApprovalDecision::ApproveSuggestedAnswer => AuthorizationApprovalDecision::Approve,
                ApprovalDecision::Reject => AuthorizationApprovalDecision::Reject,
                ApprovalDecision::Defer => AuthorizationApprovalDecision::Defer,
            },
        )
    }
}

impl vstd::std_specs::convert::FromSpecImpl<ApprovalDecision> for CriomeDecision {
    open spec fn obeys_from_spec() -> bool {
        true
    }

    closed spec fn from_spec(decision: ApprovalDecision) -> CriomeDecision {
        CriomeDecision(criome_decision_for(decision))
    }
}

} // verus!
