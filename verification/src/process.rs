//! The domain model: what hightower knows about a running process, and the
//! verdict it reaches about that process.
//!
//! Everything here is plain data plus the aggregation of risk. The fields are
//! filled in by the process lister and the signature verifier; the classifier
//! turns them into a [`ProcessVerdict`].

use vstd::prelude::*;

verus! {

/// How trustworthy a process looks, from best to worst.
///
/// The variants are declared in ascending order of concern, so the derived
/// order gives `Suspicious > Review > Trusted`; many findings are aggregated
/// into one verdict by taking the worst of them.
#[derive(Debug, Clone, Copy, PartialEq, Eq, PartialOrd, Ord, Structural)]
pub enum RiskLevel {
    /// Recognized and in its expected place -- nothing stood out.
    Trusted,
    /// Nothing alarming, but something is worth a human glance.
    Review,
    /// One or more strong warning signs (e.g. masquerading). Not a malware
    /// verdict -- a strong prompt to investigate.
    Suspicious,
}

impl RiskLevel {
    /// The position of the level in the order of concern.
    pub open spec fn rank(self) -> nat {
        match self {
            RiskLevel::Trusted => 0,
            RiskLevel::Review => 1,
            RiskLevel::Suspicious => 2,
        }
    }

    /// Whether `self` is strictly more concerning than `other`.
    pub fn is_worse_than(self, other: RiskLevel) -> (worse: bool)
        ensures
            worse == (self.rank() > other.rank()),
    {
        match (self, other) {
            (RiskLevel::Review, RiskLevel::Trusted) => true,
            (RiskLevel::Suspicious, RiskLevel::Trusted) => true,
            (RiskLevel::Suspicious, RiskLevel::Review) => true,
            _ => false,
        }
    }
}

/// The bucket a process falls into, used for grouping and plain-language output.
#[derive(Debug, Clone, Copy, PartialEq, Eq, Structural)]
pub enum ProcessCategory {
    /// A core part of Windows itself (e.g. `svchost.exe`, `csrss.exe`).
    CoreWindows,
    /// A device driver / kernel-level component.
    Driver,
    /// Third-party software recognized from the known-process database.
    ThirdPartyKnown,
    /// Not in the database and not otherwise identifiable -- review manually.
    Unknown,
}

/// What could be determined about an executable's digital signature.
///
/// A signature that could not be read is not an error: it is `Unknown`.
#[derive(Debug, PartialEq, Eq)]
pub enum SignatureStatus {
    /// Not looked at yet: the value a freshly listed process carries.
    Unchecked,
    /// Validly signed and trusted, with the signer's name when the certificate
    /// exposes one.
    Signed {
        /// The publisher taken from the signing certificate, when available.
        publisher: Option<String>,
    },
    /// A signature is present but not trusted.
    Untrusted,
    /// No signature at all.
    Unsigned,
    /// The signature could not be determined.
    Unknown,
}

/// The view of an optional string: its characters, if present.
pub open spec fn opt_text(value: Option<String>) -> Option<Seq<char>> {
    match value {
        Some(text) => Some(text@),
        None => None,
    }
}

/// Copies an optional string.
pub fn copy_opt_text(value: &Option<String>) -> (copy: Option<String>)
    ensures
        opt_text(copy) == opt_text(*value),
{
    match value {
        Some(text) => Some(text.clone()),
        None => None,
    }
}

/// The mathematical value of a [`SignatureStatus`].
pub enum SignatureStatusView {
    Unchecked,
    Signed { publisher: Option<Seq<char>> },
    Untrusted,
    Unsigned,
    Unknown,
}

impl View for SignatureStatus {
    type V = SignatureStatusView;

    open spec fn view(&self) -> SignatureStatusView {
        match self {
            SignatureStatus::Unchecked => SignatureStatusView::Unchecked,
            SignatureStatus::Signed { publisher } => SignatureStatusView::Signed {
                publisher: opt_text(*publisher),
            },
            SignatureStatus::Untrusted => SignatureStatusView::Untrusted,
            SignatureStatus::Unsigned => SignatureStatusView::Unsigned,
            SignatureStatus::Unknown => SignatureStatusView::Unknown,
        }
    }
}

impl Clone for SignatureStatus {
    fn clone(&self) -> (copy: Self)
        ensures
            copy@ == self@,
    {
        match self {
            SignatureStatus::Unchecked => SignatureStatus::Unchecked,
            SignatureStatus::Signed { publisher } => SignatureStatus::Signed {
                publisher: copy_opt_text(publisher),
            },
            SignatureStatus::Untrusted => SignatureStatus::Untrusted,
            SignatureStatus::Unsigned => SignatureStatus::Unsigned,
            SignatureStatus::Unknown => SignatureStatus::Unknown,
        }
    }
}

/// Everything hightower knows about one running process.
///
/// The process lister fills in `pid`, `name`, `executable_path` and
/// `restricted`; the signature verifier later fills in `signature`.
#[derive(Debug, PartialEq, Eq)]
pub struct ProcessInfo {
    /// The operating-system process id.
    pub pid: u32,
    /// The image/base name as the OS reports it, e.g. `"svchost.exe"`.
    pub name: String,
    /// Full path to the executable on disk. `None` when the OS refused to
    /// reveal it (a protected process without an elevated terminal).
    pub executable_path: Option<String>,
    /// `true` when the OS denied full details for this process. Such a process
    /// is still listed, just with less known about it.
    pub restricted: bool,
    /// Result of the digital-signature check, or `Unchecked` before it ran.
    pub signature: SignatureStatus,
}

/// The mathematical value of a [`ProcessInfo`].
pub struct ProcessInfoView {
    pub pid: u32,
    pub name: Seq<char>,
    pub executable_path: Option<Seq<char>>,
    pub restricted: bool,
    pub signature: SignatureStatusView,
}

impl View for ProcessInfo {
    type V = ProcessInfoView;

    open spec fn view(&self) -> ProcessInfoView {
        ProcessInfoView {
            pid: self.pid,
            name: self.name@,
            executable_path: opt_text(self.executable_path),
            restricted: self.restricted,
            signature: self.signature@,
        }
    }
}

impl Clone for ProcessInfo {
    fn clone(&self) -> (copy: Self)
        ensures
            copy@ == self@,
    {
        ProcessInfo {
            pid: self.pid,
            name: self.name.clone(),
            executable_path: copy_opt_text(&self.executable_path),
            restricted: self.restricted,
            signature: self.signature.clone(),
        }
    }
}

/// A single thing a risk rule noticed about a process.
#[derive(Debug, PartialEq, Eq)]
pub struct RiskFinding {
    /// How serious this particular observation is on its own.
    pub severity: RiskLevel,
    /// A short, plain-language explanation aimed at a non-technical reader.
    pub summary: String,
}

/// The mathematical value of a [`RiskFinding`].
pub struct RiskFindingView {
    pub severity: RiskLevel,
    pub summary: Seq<char>,
}

impl View for RiskFinding {
    type V = RiskFindingView;

    open spec fn view(&self) -> RiskFindingView {
        RiskFindingView { severity: self.severity, summary: self.summary@ }
    }
}

impl Clone for RiskFinding {
    fn clone(&self) -> (copy: Self)
        ensures
            copy@ == self@,
    {
        RiskFinding { severity: self.severity, summary: self.summary.clone() }
    }
}

impl RiskFinding {
    /// Builds a finding from its severity and its summary text.
    pub fn new(severity: RiskLevel, summary: &str) -> (finding: Self)
        ensures
            finding@ == (RiskFindingView { severity, summary: summary@ }),
    {
        RiskFinding { severity, summary: summary.to_owned() }
    }
}

/// The view of an optional finding.
pub open spec fn opt_finding(finding: Option<RiskFinding>) -> Option<RiskFindingView> {
    match finding {
        Some(f) => Some(f@),
        None => None,
    }
}

/// The views of a sequence of findings.
pub open spec fn findings_view(findings: Seq<RiskFinding>) -> Seq<RiskFindingView> {
    findings.map_values(|f: RiskFinding| f@)
}

/// The worst severity among `findings`, scanning from first to last and
/// replacing the running level only by a strictly worse one; `Trusted` when
/// there is nothing to flag.
pub open spec fn worst_severity(findings: Seq<RiskFindingView>) -> RiskLevel
    decreases findings.len(),
{
    if findings.len() == 0 {
        RiskLevel::Trusted
    } else {
        let earlier = worst_severity(findings.drop_last());
        let last = findings.last().severity;
        if last.rank() > earlier.rank() {
            last
        } else {
            earlier
        }
    }
}

/// The overall risk is the worst finding: no finding is more concerning than
/// it, it is one of the findings' severities when there is any finding, and it
/// is `Trusted` when there is none.
pub proof fn lemma_worst_severity_is_maximum(findings: Seq<RiskFindingView>)
    ensures
        forall|i: int|
            0 <= i < findings.len() ==> #[trigger] findings[i].severity.rank() <= worst_severity(
                findings,
            ).rank(),
        findings.len() == 0 ==> worst_severity(findings) == RiskLevel::Trusted,
        findings.len() > 0 ==> exists|i: int|
            0 <= i < findings.len() && #[trigger] findings[i].severity == worst_severity(findings),
    decreases findings.len(),
{
    if findings.len() > 0 {
        let earlier = findings.drop_last();
        lemma_worst_severity_is_maximum(earlier);
        assert forall|i: int| 0 <= i < findings.len() implies #[trigger] findings[i].severity.rank()
            <= worst_severity(findings).rank() by {
            if i < findings.len() - 1 {
                assert(findings[i] == earlier[i]);
            }
        }
        if findings.last().severity.rank() > worst_severity(earlier).rank() {
            assert(findings[findings.len() - 1].severity == worst_severity(findings));
        } else if earlier.len() == 0 {
            assert(findings[0].severity.rank() <= 0);
            assert(findings[0].severity == worst_severity(findings));
        } else {
            let i = choose|i: int|
                0 <= i < earlier.len() && #[trigger] earlier[i].severity == worst_severity(earlier);
            assert(findings[i] == earlier[i]);
        }
    }
}

/// The classifier's conclusion about one process: its category, publisher, an
/// overall [`RiskLevel`], and the findings that justify it.
#[derive(Debug, PartialEq, Eq)]
pub struct ProcessVerdict {
    /// The process this verdict is about.
    pub process: ProcessInfo,
    /// Which bucket the process was placed in.
    pub category: ProcessCategory,
    /// The recognized publisher, if any (from the signature or the database).
    pub publisher: Option<String>,
    /// The overall risk level: the worst severity among the findings.
    pub risk: RiskLevel,
    /// The individual observations behind the verdict; empty means nothing
    /// was flagged.
    pub findings: Vec<RiskFinding>,
}

/// The mathematical value of a [`ProcessVerdict`].
pub struct ProcessVerdictView {
    pub process: ProcessInfoView,
    pub category: ProcessCategory,
    pub publisher: Option<Seq<char>>,
    pub risk: RiskLevel,
    pub findings: Seq<RiskFindingView>,
}

impl View for ProcessVerdict {
    type V = ProcessVerdictView;

    open spec fn view(&self) -> ProcessVerdictView {
        ProcessVerdictView {
            process: self.process@,
            category: self.category,
            publisher: opt_text(self.publisher),
            risk: self.risk,
            findings: findings_view(self.findings@),
        }
    }
}

/// Copies a list of findings.
pub fn copy_findings(findings: &Vec<RiskFinding>) -> (copy: Vec<RiskFinding>)
    ensures
        findings_view(copy@) == findings_view(findings@),
{
    let mut copy: Vec<RiskFinding> = Vec::new();
    let mut i: usize = 0;
    while i < findings.len()
        invariant
            i <= findings@.len(),
            copy@.len() == i,
            forall|j: int| 0 <= j < i ==> (#[trigger] copy@[j])@ == findings@[j]@,
        decreases findings@.len() - i,
    {
        copy.push(findings[i].clone());
        i = i + 1;
    }
    assert(findings_view(copy@) =~= findings_view(findings@));
    copy
}

impl Clone for ProcessVerdict {
    fn clone(&self) -> (copy: Self)
        ensures
            copy@ == self@,
    {
        ProcessVerdict {
            process: self.process.clone(),
            category: self.category,
            publisher: copy_opt_text(&self.publisher),
            risk: self.risk,
            findings: copy_findings(&self.findings),
        }
    }
}

impl ProcessVerdict {
    /// Builds a verdict, deriving the overall risk from the findings: the worst
    /// severity present, or `Trusted` when there is nothing to flag.
    pub fn new(
        process: ProcessInfo,
        category: ProcessCategory,
        publisher: Option<String>,
        findings: Vec<RiskFinding>,
    ) -> (verdict: Self)
        ensures
            verdict.process == process,
            verdict.category == category,
            verdict.publisher == publisher,
            verdict.findings == findings,
            verdict.risk == worst_severity(findings_view(findings@)),
    {
        let mut risk = RiskLevel::Trusted;
        let mut i: usize = 0;
        while i < findings.len()
            invariant
                i <= findings@.len(),
                risk == worst_severity(findings_view(findings@).take(i as int)),
            decreases findings@.len() - i,
        {
            let severity = findings[i].severity;
            proof {
                let seen = findings_view(findings@).take(i as int + 1);
                assert(seen.drop_last() == findings_view(findings@).take(i as int));
                assert(seen.last() == findings[i as int]@);
            }
            if severity.is_worse_than(risk) {
                risk = severity;
            }
            i = i + 1;
        }
        assert(findings_view(findings@).take(findings@.len() as int) == findings_view(findings@));
        ProcessVerdict { process, category, publisher, risk, findings }
    }
}

} // verus!
