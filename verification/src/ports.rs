//! Ports: the boundary between the pure domain and the outside world.
//!
//! Each trait describes what a capability does, never how. The process lister
//! and the signature verifier are implemented by the Windows front end; the
//! knowledge repository and the risk rules are implemented here, and each of
//! their methods states what it returns.

use vstd::prelude::*;

use crate::error::HightowerError;
use crate::text::texts_view;
use crate::process::{
    ProcessCategory, ProcessInfo, ProcessInfoView, RiskFinding, RiskFindingView, SignatureStatus,
    opt_finding,
};

verus! {

/// Enumerates the processes currently running on the machine.
pub trait ProcessLister {
    /// Returns every process visible to this user account. A process the OS
    /// refuses to describe must still appear, with `restricted` set; `Err` is
    /// reserved for a failure of the whole enumeration.
    fn list(&self) -> Result<Vec<ProcessInfo>, HightowerError>;
}

/// Checks the digital signature of an executable on disk.
pub trait SignatureVerifier {
    /// Returns what could be determined about the executable's signature. A
    /// file that cannot be read yields `SignatureStatus::Unknown`, never an
    /// error, so one unreadable binary never aborts a whole scan.
    fn verify(&self, executable_path: &str) -> SignatureStatus;
}

/// One entry in the curated database of well-known Windows processes.
#[derive(Debug, PartialEq, Eq)]
pub struct KnownProcess {
    /// The executable's base name, e.g. `"svchost.exe"`.
    pub process_name: String,
    /// Directories the process is legitimately expected to run from. Entries
    /// may contain environment placeholders such as `%SystemRoot%\System32`.
    pub expected_directories: Vec<String>,
    /// The expected publisher, e.g. `"Microsoft Windows"`.
    pub publisher: String,
    /// The category this process belongs to.
    pub category: ProcessCategory,
    /// Plain-language description in English.
    pub description_en: String,
    /// Plain-language description in Portuguese.
    pub description_pt: String,
}

/// The mathematical value of a [`KnownProcess`].
pub struct KnownProcessView {
    pub process_name: Seq<char>,
    pub expected_directories: Seq<Seq<char>>,
    pub publisher: Seq<char>,
    pub category: ProcessCategory,
    pub description_en: Seq<char>,
    pub description_pt: Seq<char>,
}

impl View for KnownProcess {
    type V = KnownProcessView;

    open spec fn view(&self) -> KnownProcessView {
        KnownProcessView {
            process_name: self.process_name@,
            expected_directories: texts_view(self.expected_directories@),
            publisher: self.publisher@,
            category: self.category,
            description_en: self.description_en@,
            description_pt: self.description_pt@,
        }
    }
}

/// Copies a vector of strings.
pub fn copy_texts(texts: &Vec<String>) -> (copy: Vec<String>)
    ensures
        texts_view(copy@) == texts_view(texts@),
{
    let mut copy: Vec<String> = Vec::new();
    let mut i: usize = 0;
    while i < texts.len()
        invariant
            i <= texts@.len(),
            copy@.len() == i,
            forall|j: int| 0 <= j < i ==> #[trigger] copy@[j]@ == texts@[j]@,
        decreases texts@.len() - i,
    {
        copy.push(texts[i].clone());
        i = i + 1;
    }
    assert(texts_view(copy@) =~= texts_view(texts@));
    copy
}

impl Clone for KnownProcess {
    fn clone(&self) -> (copy: Self)
        ensures
            copy@ == self@,
    {
        KnownProcess {
            process_name: self.process_name.clone(),
            expected_directories: copy_texts(&self.expected_directories),
            publisher: self.publisher.clone(),
            category: self.category,
            description_en: self.description_en.clone(),
            description_pt: self.description_pt.clone(),
        }
    }
}

/// The view of an optional database entry.
pub open spec fn opt_known(entry: Option<KnownProcess>) -> Option<KnownProcessView> {
    match entry {
        Some(e) => Some(e@),
        None => None,
    }
}

/// Looks up what is known about a process by name.
pub trait ProcessKnowledgeRepository {
    /// The entry the repository holds for a process name, if any.
    spec fn known_entry(&self, process_name: Seq<char>) -> Option<KnownProcessView>;

    /// Returns the database entry for `process_name`, or `None` when the
    /// process is not in the curated list.
    fn lookup(&self, process_name: &str) -> (entry: Option<KnownProcess>)
        ensures
            opt_known(entry) == self.known_entry(process_name@),
    ;
}

/// A single risk heuristic: looks at one process and optionally raises a
/// finding.
///
/// A rule consults the knowledge base about the process it judges: what it
/// concludes is a function of the process and of the database entry for the
/// process's name.
pub trait RiskRule {
    /// What the rule concludes about a process, given the database entry for
    /// its name (`None` when the name is not in the database).
    spec fn finding_for(
        &self,
        process: ProcessInfoView,
        known: Option<KnownProcessView>,
    ) -> Option<RiskFindingView>;

    /// Evaluates one process, returning `Some(finding)` when the rule has a
    /// concern and `None` when it has nothing to say.
    fn evaluate<K: ProcessKnowledgeRepository>(
        &self,
        process: &ProcessInfo,
        knowledge: &K,
    ) -> (finding: Option<RiskFinding>)
        ensures
            opt_finding(finding) == self.finding_for(
                process@,
                knowledge.known_entry(process@.name),
            ),
    ;
}

} // verus!
