//! The risk heuristics: one small [`RiskRule`](crate::ports::RiskRule) per
//! concern, combined by the [`Classifier`](crate::classify::Classifier).
//!
//! These heuristics are intentionally simple and err toward flagging for
//! review rather than staying silent. A finding is a prompt for a human to
//! look, never a verdict of "malware".

pub mod masquerading;
pub mod unknown;
pub mod unsigned;

pub use masquerading::PathMasqueradingRule;
pub use unknown::UnknownProcessRule;
pub use unsigned::UnsignedBinaryRule;

use vstd::prelude::*;

use crate::classify::{lemma_rule_findings_are_reported, lemma_verdict_risk_is_worst_finding, verdict_for};
use crate::environment::Environment;
use crate::ports::{KnownProcessView, ProcessKnowledgeRepository, RiskRule};
use crate::process::{
    ProcessInfo, ProcessInfoView, RiskFinding, RiskFindingView, RiskLevel, SignatureStatusView,
    opt_finding,
};
use crate::rules::masquerading::{lemma_masquerading_judges_only_known_paths, masquerading_finding};
use crate::rules::unknown::unknown_finding;
use crate::rules::unsigned::unsigned_finding;

verus! {

/// One of the standard rules. The classifier runs a list of rules of one
/// type; this enum lets the standard set share a list, and a caller with a
/// rule of its own can wrap it together with these in an enum of its own.
pub enum StandardRule {
    /// See [`PathMasqueradingRule`].
    PathMasquerading(PathMasqueradingRule),
    /// See [`UnsignedBinaryRule`].
    UnsignedBinary(UnsignedBinaryRule),
    /// See [`UnknownProcessRule`].
    UnknownProcess(UnknownProcessRule),
}

impl RiskRule for StandardRule {
    open spec fn finding_for(
        &self,
        process: ProcessInfoView,
        known: Option<KnownProcessView>,
    ) -> Option<RiskFindingView> {
        match self {
            StandardRule::PathMasquerading(rule) => rule.finding_for(process, known),
            StandardRule::UnsignedBinary(rule) => rule.finding_for(process, known),
            StandardRule::UnknownProcess(rule) => rule.finding_for(process, known),
        }
    }

    fn evaluate<K: ProcessKnowledgeRepository>(
        &self,
        process: &ProcessInfo,
        knowledge: &K,
    ) -> (finding: Option<RiskFinding>) {
        match self {
            StandardRule::PathMasquerading(rule) => rule.evaluate(process, knowledge),
            StandardRule::UnsignedBinary(rule) => rule.evaluate(process, knowledge),
            StandardRule::UnknownProcess(rule) => rule.evaluate(process, knowledge),
        }
    }
}

/// The standard set of rules, in the order the classifier runs them: path
/// masquerading (expanding placeholders from `environment`), unsigned binary,
/// unknown process.
pub fn default_rules(environment: Environment) -> (rules: Vec<StandardRule>)
    ensures
        rules@.len() == 3,
        forall|process, known| #[trigger]
            rules@[0].finding_for(process, known) == masquerading_finding(
                process,
                known,
                environment.variables(),
            ),
        forall|process, known| #[trigger]
            rules@[1].finding_for(process, known) == unsigned_finding(process.signature),
        forall|process, known| #[trigger]
            rules@[2].finding_for(process, known) == unknown_finding(process, known),
{
    let mut rules: Vec<StandardRule> = Vec::new();
    rules.push(StandardRule::PathMasquerading(PathMasqueradingRule::new(environment)));
    rules.push(StandardRule::UnsignedBinary(UnsignedBinaryRule));
    rules.push(StandardRule::UnknownProcess(UnknownProcessRule));
    rules
}

/// The heuristics, as the classifier applies the standard rules: a known
/// name running outside its expected directories makes the verdict
/// `Suspicious`, and so does an untrusted signature; an unsigned program, or
/// a name the database does not know that no valid signature vouches for,
/// is at least worth a review; and a known process in its expected place
/// whose signature is valid, unchecked or undetermined is `Trusted`.
pub proof fn lemma_standard_verdicts(
    rules: Seq<StandardRule>,
    variables: Seq<(Seq<char>, Seq<char>)>,
    process: ProcessInfoView,
    known: Option<KnownProcessView>,
)
    requires
        rules.len() == 3,
        forall|p: ProcessInfoView, k: Option<KnownProcessView>| #[trigger]
            rules[0].finding_for(p, k) == masquerading_finding(p, k, variables),
        forall|p: ProcessInfoView, k: Option<KnownProcessView>| #[trigger]
            rules[1].finding_for(p, k) == unsigned_finding(p.signature),
        forall|p: ProcessInfoView, k: Option<KnownProcessView>| #[trigger]
            rules[2].finding_for(p, k) == unknown_finding(p, k),
    ensures
        masquerading_finding(process, known, variables) is Some ==> verdict_for(
            rules,
            process,
            known,
        ).risk == RiskLevel::Suspicious,
        process.signature is Untrusted ==> verdict_for(rules, process, known).risk
            == RiskLevel::Suspicious,
        process.signature is Unsigned ==> verdict_for(rules, process, known).risk.rank() >= 1,
        unknown_finding(process, known) is Some ==> verdict_for(rules, process, known).risk.rank()
            >= 1,
        (masquerading_finding(process, known, variables) is None && known is Some && !(
        process.signature is Unsigned) && !(process.signature is Untrusted)) ==> verdict_for(
            rules,
            process,
            known,
        ).risk == RiskLevel::Trusted,
{
    let verdict = verdict_for(rules, process, known);
    lemma_verdict_risk_is_worst_finding(rules, process, known);
    lemma_rule_findings_are_reported(rules, process, known);
    lemma_masquerading_judges_only_known_paths(process, known, variables);
    let m = rules[0].finding_for(process, known);
    let u = rules[1].finding_for(process, known);
    let k = rules[2].finding_for(process, known);
    if m is Some {
        let f = m->0;
        assert(verdict.findings.contains(f));
        let i = choose|i: int| 0 <= i < verdict.findings.len() && verdict.findings[i] == f;
        assert(verdict.findings[i].severity.rank() <= verdict.risk.rank());
    }
    if u is Some {
        let f = u->0;
        assert(verdict.findings.contains(f));
        let i = choose|i: int| 0 <= i < verdict.findings.len() && verdict.findings[i] == f;
        assert(verdict.findings[i].severity.rank() <= verdict.risk.rank());
    }
    if k is Some {
        let f = k->0;
        assert(verdict.findings.contains(f));
        let i = choose|i: int| 0 <= i < verdict.findings.len() && verdict.findings[i] == f;
        assert(verdict.findings[i].severity.rank() <= verdict.risk.rank());
    }
    if m is None && u is None && k is None {
        if verdict.findings.len() > 0 {
            let f = verdict.findings[0];
            assert(verdict.findings.contains(f));
            let j = choose|j: int| 0 <= j < rules.len() && #[trigger] rules[j].finding_for(process, known) == Some(f);
            assert(j == 0 || j == 1 || j == 2);
        }
    }
}

} // verus!
