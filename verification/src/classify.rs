//! The classifier: runs every risk rule over a process and turns the findings,
//! plus the known-process lookup, into a single [`ProcessVerdict`].

use vstd::prelude::*;

use crate::ports::{KnownProcess, KnownProcessView, ProcessKnowledgeRepository, RiskRule};
use crate::process::{
    ProcessCategory, ProcessInfo, ProcessInfoView, ProcessVerdict, ProcessVerdictView,
    RiskFinding, RiskFindingView, RiskLevel, SignatureStatus, SignatureStatusView, copy_opt_text,
    findings_view, lemma_worst_severity_is_maximum, opt_finding, opt_text, worst_severity,
};

verus! {

/// The findings the rules raise about a process, in rule order; a rule that
/// has nothing to say contributes nothing.
pub open spec fn collected_findings<R: RiskRule>(
    rules: Seq<R>,
    process: ProcessInfoView,
    known: Option<KnownProcessView>,
) -> Seq<RiskFindingView>
    decreases rules.len(),
{
    if rules.len() == 0 {
        Seq::empty()
    } else {
        let earlier = collected_findings(rules.drop_last(), process, known);
        match rules.last().finding_for(process, known) {
            Some(finding) => earlier.push(finding),
            None => earlier,
        }
    }
}

/// The category of a process: the database's category for a known name,
/// `Unknown` otherwise.
pub open spec fn category_for(known: Option<KnownProcessView>) -> ProcessCategory {
    match known {
        Some(entry) => entry.category,
        None => ProcessCategory::Unknown,
    }
}

/// The best publisher that can be named: the one a trusted signature names,
/// otherwise the expected publisher from the database.
pub open spec fn publisher_for(
    known: Option<KnownProcessView>,
    signature: SignatureStatusView,
) -> Option<Seq<char>> {
    match signature {
        SignatureStatusView::Signed { publisher: Some(name) } => Some(name),
        _ => match known {
            Some(entry) => Some(entry.publisher),
            None => None,
        },
    }
}

/// The verdict reached about a process, given the rules and the database
/// entry for its name.
pub open spec fn verdict_for<R: RiskRule>(
    rules: Seq<R>,
    process: ProcessInfoView,
    known: Option<KnownProcessView>,
) -> ProcessVerdictView {
    let findings = collected_findings(rules, process, known);
    ProcessVerdictView {
        process,
        category: category_for(known),
        publisher: publisher_for(known, process.signature),
        risk: worst_severity(findings),
        findings,
    }
}

/// Holds the rule set and the knowledge repository, and produces a verdict
/// for each process.
///
/// It depends only on the `RiskRule` and `ProcessKnowledgeRepository` traits,
/// so tests build it from in-memory data and the real program builds it from
/// the embedded database -- same code path.
pub struct Classifier<R: RiskRule, K: ProcessKnowledgeRepository> {
    rules: Vec<R>,
    knowledge: K,
}

impl<R: RiskRule, K: ProcessKnowledgeRepository> Classifier<R, K> {
    /// The rules, in the order they run.
    pub closed spec fn rules(&self) -> Seq<R> {
        self.rules@
    }

    /// The knowledge repository.
    pub closed spec fn knowledge(&self) -> K {
        self.knowledge
    }

    /// Builds a classifier from a set of rules and a knowledge repository.
    pub fn new(rules: Vec<R>, knowledge: K) -> (classifier: Self)
        ensures
            classifier.rules() == rules@,
            classifier.knowledge() == knowledge,
    {
        Classifier { rules, knowledge }
    }

    /// Classifies one process: runs each rule, then packages the findings
    /// with the process's category and publisher into a verdict whose overall
    /// risk is the worst finding.
    pub fn classify(&self, process: &ProcessInfo) -> (verdict: ProcessVerdict)
        ensures
            verdict@ == verdict_for(
                self.rules(),
                process@,
                self.knowledge().known_entry(process@.name),
            ),
    {
        let ghost known = self.knowledge.known_entry(process@.name);
        let mut findings: Vec<RiskFinding> = Vec::new();
        let mut i: usize = 0;
        while i < self.rules.len()
            invariant
                i <= self.rules@.len(),
                known == self.knowledge.known_entry(process@.name),
                findings_view(findings@) == collected_findings(
                    self.rules@.take(i as int),
                    process@,
                    known,
                ),
            decreases self.rules@.len() - i,
        {
            let finding = self.rules[i].evaluate(process, &self.knowledge);
            proof {
                let seen = self.rules@.take(i as int + 1);
                assert(seen.drop_last() == self.rules@.take(i as int));
                assert(seen.last() == self.rules@[i as int]);
            }
            match finding {
                Some(finding) => {
                    let ghost before = findings@;
                    findings.push(finding);
                    assert(findings_view(findings@) == findings_view(before).push(findings@.last()@));
                },
                None => {},
            }
            i = i + 1;
        }
        assert(self.rules@.take(self.rules@.len() as int) == self.rules@);

        let entry = self.knowledge.lookup(process.name.as_str());
        let category = match &entry {
            Some(e) => e.category,
            None => ProcessCategory::Unknown,
        };
        let publisher = resolve_publisher(&entry, &process.signature);
        ProcessVerdict::new(process.clone(), category, publisher, findings)
    }
}

impl<R: RiskRule, K: ProcessKnowledgeRepository> Classifier<R, K> {
    /// The verdicts this classifier reaches about a list of processes, in
    /// order.
    pub open spec fn verdicts_for(&self, processes: Seq<ProcessInfo>) -> Seq<ProcessVerdictView> {
        processes.map_values(
            |p: ProcessInfo| verdict_for(self.rules(), p@, self.knowledge().known_entry(p@.name)),
        )
    }

    /// Classifies every process, keeping their order.
    pub fn classify_all(&self, processes: &[ProcessInfo]) -> (verdicts: Vec<ProcessVerdict>)
        ensures
            verdicts@.map_values(|v: ProcessVerdict| v@) == self.verdicts_for(processes@),
    {
        let mut verdicts: Vec<ProcessVerdict> = Vec::new();
        let mut i: usize = 0;
        while i < processes.len()
            invariant
                i <= processes@.len(),
                verdicts@.len() == i,
                forall|j: int|
                    0 <= j < i ==> (#[trigger] verdicts@[j])@ == self.verdicts_for(processes@)[j],
            decreases processes@.len() - i,
        {
            verdicts.push(self.classify(&processes[i]));
            i = i + 1;
        }
        assert(verdicts@.map_values(|v: ProcessVerdict| v@) =~= self.verdicts_for(processes@));
        verdicts
    }
}

/// The view of an optional entry, by reference.
pub open spec fn opt_known_ref(entry: &Option<KnownProcess>) -> Option<KnownProcessView> {
    match entry {
        Some(e) => Some(e@),
        None => None,
    }
}

/// Picks the best publisher that can be named: a validly signed publisher if
/// the signature provides one, otherwise the expected publisher from the
/// database.
fn resolve_publisher(known: &Option<KnownProcess>, signature: &SignatureStatus) -> (publisher:
    Option<String>)
    ensures
        opt_text(publisher) == publisher_for(opt_known_ref(known), signature@),
{
    if let SignatureStatus::Signed { publisher: Some(name) } = signature {
        return Some(name.clone());
    }
    match known {
        Some(entry) => Some(entry.publisher.clone()),
        None => None,
    }
}

/// A verdict's category is the database's category for a known name --
/// whatever that category is -- and `Unknown` for a name the database does
/// not know.
pub proof fn lemma_verdict_category_is_the_entry_category<R: RiskRule>(
    rules: Seq<R>,
    process: ProcessInfoView,
    known: Option<KnownProcessView>,
)
    ensures
        known matches Some(entry) ==> verdict_for(rules, process, known).category == entry.category,
        known is None ==> verdict_for(rules, process, known).category == ProcessCategory::Unknown,
{
}

/// A verdict's publisher: the signer a trusted signature names; otherwise
/// -- no signature, an untrusted one, or a trusted one that names nobody
/// (as for a catalog-signed file) -- the database's expected publisher for
/// a known name, and none for an unknown one.
pub proof fn lemma_verdict_publisher<R: RiskRule>(
    rules: Seq<R>,
    process: ProcessInfoView,
    known: Option<KnownProcessView>,
)
    ensures
        process.signature matches SignatureStatusView::Signed { publisher: Some(name) } ==> verdict_for(
            rules,
            process,
            known,
        ).publisher == Some(name),
        !(process.signature matches SignatureStatusView::Signed { publisher: Some(_) }) ==> (
        known matches Some(entry) ==> verdict_for(rules, process, known).publisher == Some(
            entry.publisher,
        )),
        !(process.signature matches SignatureStatusView::Signed { publisher: Some(_) }) ==> (
        known is None ==> verdict_for(rules, process, known).publisher is None),
{
}

/// The overall risk of every verdict is its worst finding: no finding is more
/// concerning than the verdict's risk, the risk is the severity of one of the
/// findings when there is any, and a process no rule flags is `Trusted`.
pub proof fn lemma_verdict_risk_is_worst_finding<R: RiskRule>(
    rules: Seq<R>,
    process: ProcessInfoView,
    known: Option<KnownProcessView>,
)
    ensures
        ({
            let verdict = verdict_for(rules, process, known);
            &&& forall|i: int|
                0 <= i < verdict.findings.len() ==> #[trigger] verdict.findings[i].severity.rank()
                    <= verdict.risk.rank()
            &&& verdict.findings.len() == 0 ==> verdict.risk == RiskLevel::Trusted
            &&& verdict.findings.len() > 0 ==> exists|i: int|
                0 <= i < verdict.findings.len() && #[trigger] verdict.findings[i].severity
                    == verdict.risk
        }),
{
    lemma_worst_severity_is_maximum(collected_findings(rules, process, known));
}

/// Every finding in a verdict comes from one of the rules, and each rule that
/// has something to say is heard: a rule's finding appears in the verdict.
pub proof fn lemma_rule_findings_are_reported<R: RiskRule>(
    rules: Seq<R>,
    process: ProcessInfoView,
    known: Option<KnownProcessView>,
)
    ensures
        forall|j: int|
            0 <= j < rules.len() && (#[trigger] rules[j].finding_for(process, known)) is Some
                ==> collected_findings(rules, process, known).contains(
                rules[j].finding_for(process, known)->0,
            ),
        forall|f: RiskFindingView|
            collected_findings(rules, process, known).contains(f) ==> exists|j: int|
                0 <= j < rules.len() && #[trigger] rules[j].finding_for(process, known) == Some(f),
    decreases rules.len(),
{
    if rules.len() > 0 {
        let earlier = rules.drop_last();
        lemma_rule_findings_are_reported(earlier, process, known);
        let found = collected_findings(earlier, process, known);
        assert forall|j: int|
            0 <= j < rules.len() && (#[trigger] rules[j].finding_for(process, known)) is Some
                implies collected_findings(rules, process, known).contains(
            rules[j].finding_for(process, known)->0,
        ) by {
            if j < rules.len() - 1 {
                assert(rules[j] == earlier[j]);
                let f = rules[j].finding_for(process, known)->0;
                let k = choose|k: int| 0 <= k < found.len() && found[k] == f;
                match rules.last().finding_for(process, known) {
                    Some(g) => {
                        assert(found.push(g)[k] == f);
                    },
                    None => {},
                }
            } else {
                let f = rules[j].finding_for(process, known)->0;
                assert(found.push(f)[found.len() as int] == f);
            }
        }
        assert forall|f: RiskFindingView|
            collected_findings(rules, process, known).contains(f) implies exists|j: int|
                0 <= j < rules.len() && #[trigger] rules[j].finding_for(process, known) == Some(
                    f,
                ) by {
            match rules.last().finding_for(process, known) {
                Some(g) => {
                    let all = found.push(g);
                    let k = choose|k: int| 0 <= k < all.len() && all[k] == f;
                    if k < found.len() {
                        assert(found[k] == f);
                        assert(found.contains(f));
                        let j = choose|j: int|
                            0 <= j < earlier.len() && #[trigger] earlier[j].finding_for(
                                process,
                                known,
                            ) == Some(f);
                        assert(rules[j] == earlier[j]);
                    } else {
                        assert(rules[rules.len() - 1].finding_for(process, known) == Some(f));
                    }
                },
                None => {
                    assert(found.contains(f));
                    let j = choose|j: int|
                        0 <= j < earlier.len() && #[trigger] earlier[j].finding_for(process, known)
                            == Some(f);
                    assert(rules[j] == earlier[j]);
                },
            }
        }
    }
}

} // verus!
