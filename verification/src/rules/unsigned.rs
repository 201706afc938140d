//! Unsigned / untrusted-signature heuristic.

use vstd::prelude::*;

use crate::ports::{KnownProcessView, ProcessKnowledgeRepository, RiskRule};
use crate::process::{
    ProcessInfo, ProcessInfoView, RiskFinding, RiskFindingView, RiskLevel, SignatureStatus,
    SignatureStatusView,
};

verus! {

/// What the unsigned-binary rule concludes from a signature status: `Review`
/// for an unsigned program, `Suspicious` for a signature that is present but
/// not trusted, nothing otherwise -- including `Unchecked` and `Unknown`,
/// which mean the check did not (or could not) happen.
pub open spec fn unsigned_finding(signature: SignatureStatusView) -> Option<RiskFindingView> {
    match signature {
        SignatureStatusView::Unsigned => Some(
            RiskFindingView {
                severity: RiskLevel::Review,
                summary: "This program has no digital signature, so its publisher cannot be verified."@,
            },
        ),
        SignatureStatusView::Untrusted => Some(
            RiskFindingView {
                severity: RiskLevel::Suspicious,
                summary: "This program's digital signature is present but not trusted -- it may have been tampered with or self-signed."@,
            },
        ),
        _ => None,
    }
}

/// The unsigned-binary rule never penalises a process for a check that did
/// not (or could not) happen, nor a trusted signature; an unsigned program
/// is only worth a review, and only an untrusted signature is suspicious.
pub proof fn lemma_unsigned_rule_severities(signature: SignatureStatusView)
    ensures
        signature is Unchecked || signature is Unknown || signature is Signed ==> unsigned_finding(
            signature,
        ) is None,
        signature is Unsigned ==> (unsigned_finding(signature) matches Some(f) && f.severity
            == RiskLevel::Review),
        signature is Untrusted ==> (unsigned_finding(signature) matches Some(f) && f.severity
            == RiskLevel::Suspicious),
{
}

/// Flags a process whose executable is unsigned, or whose signature is present
/// but not trusted.
///
/// Plenty of legitimate small tools are unsigned, so an unsigned finding is
/// only `Review`. Until a signature verifier has run the status is
/// `Unchecked`, and this rule stays silent.
pub struct UnsignedBinaryRule;

impl RiskRule for UnsignedBinaryRule {
    open spec fn finding_for(
        &self,
        process: ProcessInfoView,
        known: Option<KnownProcessView>,
    ) -> Option<RiskFindingView> {
        unsigned_finding(process.signature)
    }

    fn evaluate<K: ProcessKnowledgeRepository>(
        &self,
        process: &ProcessInfo,
        knowledge: &K,
    ) -> (finding: Option<RiskFinding>) {
        match &process.signature {
            SignatureStatus::Unsigned => Some(
                RiskFinding::new(
                    RiskLevel::Review,
                    "This program has no digital signature, so its publisher cannot be verified.",
                ),
            ),
            SignatureStatus::Untrusted => Some(
                RiskFinding::new(
                    RiskLevel::Suspicious,
                    "This program's digital signature is present but not trusted -- it may have been tampered with or self-signed.",
                ),
            ),
            SignatureStatus::Signed { .. } | SignatureStatus::Unchecked | SignatureStatus::Unknown => None,
        }
    }
}

} // verus!
