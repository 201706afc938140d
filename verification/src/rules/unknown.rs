//! Unknown-process heuristic.

use vstd::prelude::*;

use crate::ports::{KnownProcessView, ProcessKnowledgeRepository, RiskRule};
use crate::process::{
    ProcessInfo, ProcessInfoView, RiskFinding, RiskFindingView, RiskLevel, SignatureStatus,
    SignatureStatusView,
};

verus! {

/// The explanation given for an unknown process.
pub open spec fn unknown_summary(name: Seq<char>) -> Seq<char> {
    "'"@ + name
        + "' is not in hightower's list of known programs and has no recognized publisher. This is common for third-party apps -- review it manually if you do not recognize it."@
}

/// What the unknown-process rule concludes: nothing for a process in the
/// database or with a trusted signature, otherwise a `Review` finding.
pub open spec fn unknown_finding(process: ProcessInfoView, known: Option<KnownProcessView>) -> Option<
    RiskFindingView,
> {
    if known is Some {
        None
    } else if process.signature is Signed {
        None
    } else {
        Some(RiskFindingView { severity: RiskLevel::Review, summary: unknown_summary(process.name) })
    }
}

/// The unknown-process rule flags exactly the processes that are neither in
/// the database nor validly signed, and only ever for a review.
pub proof fn lemma_unknown_rule_flags_only_unrecognized(
    process: ProcessInfoView,
    known: Option<KnownProcessView>,
)
    ensures
        unknown_finding(process, known) is Some <==> (known is None && !(process.signature is Signed)),
        unknown_finding(process, known) matches Some(f) ==> f.severity == RiskLevel::Review,
{
}

/// Flags a process that is neither in the known-process database nor backed by
/// a trusted signature -- reported as "review manually", never as malware.
///
/// Most third-party software is legitimately unknown to the small curated
/// database, so this fires often and is only `Review`; a trusted signature is
/// itself a form of recognition, so a signed process is not flagged.
pub struct UnknownProcessRule;

impl RiskRule for UnknownProcessRule {
    open spec fn finding_for(
        &self,
        process: ProcessInfoView,
        known: Option<KnownProcessView>,
    ) -> Option<RiskFindingView> {
        unknown_finding(process, known)
    }

    fn evaluate<K: ProcessKnowledgeRepository>(
        &self,
        process: &ProcessInfo,
        knowledge: &K,
    ) -> (finding: Option<RiskFinding>) {
        if knowledge.lookup(process.name.as_str()).is_some() {
            return None;
        }
        if let SignatureStatus::Signed { .. } = &process.signature {
            return None;
        }
        let mut summary = String::from_str("'");
        summary.append(process.name.as_str());
        summary.append(
            "' is not in hightower's list of known programs and has no recognized publisher. This is common for third-party apps -- review it manually if you do not recognize it.",
        );
        Some(RiskFinding::new(RiskLevel::Review, summary.as_str()))
    }
}

} // verus!
