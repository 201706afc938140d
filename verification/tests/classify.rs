use hightower::classify::Classifier;
use hightower::environment::Environment;
use hightower::knowledge::EmbeddedKnowledgeRepository;
use hightower::ports::KnownProcess;
use hightower::process::{ProcessCategory, ProcessInfo, RiskLevel, SignatureStatus};
use hightower::rules::{default_rules, StandardRule};

fn known(process_name: &str, expected_directories: &[&str]) -> KnownProcess {
    KnownProcess {
        process_name: process_name.to_string(),
        expected_directories: expected_directories.iter().map(|d| d.to_string()).collect(),
        publisher: "Microsoft Windows".to_string(),
        category: ProcessCategory::CoreWindows,
        description_en: "test".to_string(),
        description_pt: "teste".to_string(),
    }
}

fn process(name: &str, path: &str) -> ProcessInfo {
    ProcessInfo {
        pid: 100,
        name: name.to_string(),
        executable_path: Some(path.to_string()),
        restricted: false,
        signature: SignatureStatus::Unchecked,
    }
}

fn classifier() -> Classifier<StandardRule, EmbeddedKnowledgeRepository> {
    let knowledge =
        EmbeddedKnowledgeRepository::new(Ok(vec![known("svchost.exe", &[r"C:\Windows\System32"])]))
            .unwrap();
    Classifier::new(default_rules(Environment::empty()), knowledge)
}

#[test]
fn known_process_in_place_is_trusted() {
    let verdict =
        classifier().classify(&process("svchost.exe", r"C:\Windows\System32\svchost.exe"));
    assert_eq!(verdict.risk, RiskLevel::Trusted);
    assert_eq!(verdict.category, ProcessCategory::CoreWindows);
    assert_eq!(verdict.publisher.as_deref(), Some("Microsoft Windows"));
    assert!(verdict.findings.is_empty());
}

#[test]
fn masquerading_process_is_suspicious() {
    let verdict = classifier().classify(&process(
        "svchost.exe",
        r"C:\Users\me\Downloads\svchost.exe",
    ));
    assert_eq!(verdict.risk, RiskLevel::Suspicious);
}

#[test]
fn unknown_process_is_review_and_categorised_unknown() {
    let verdict = classifier().classify(&process("mystery.exe", r"C:\apps\mystery.exe"));
    assert_eq!(verdict.risk, RiskLevel::Review);
    assert_eq!(verdict.category, ProcessCategory::Unknown);
}

#[test]
fn a_signed_publisher_wins_over_the_database() {
    let mut signed = process("svchost.exe", r"C:\Windows\System32\svchost.exe");
    signed.signature = SignatureStatus::Signed {
        publisher: Some("Microsoft Windows Publisher".to_string()),
    };
    let verdict = classifier().classify(&signed);
    assert_eq!(
        verdict.publisher.as_deref(),
        Some("Microsoft Windows Publisher")
    );
    let unknown = classifier().classify(&process("mystery.exe", r"C:\apps\mystery.exe"));
    assert_eq!(unknown.publisher, None);
}

#[test]
fn findings_come_in_rule_order_and_the_worst_wins() {
    // Masquerading (suspicious) then unsigned (review): both reported, in rule
    // order, and the verdict is the worst of them.
    let mut copy = process("svchost.exe", r"C:\Users\me\svchost.exe");
    copy.signature = SignatureStatus::Unsigned;
    let verdict = classifier().classify(&copy);
    let severities: Vec<RiskLevel> = verdict.findings.iter().map(|f| f.severity).collect();
    assert_eq!(severities, vec![RiskLevel::Suspicious, RiskLevel::Review]);
    assert_eq!(verdict.risk, RiskLevel::Suspicious);
}

#[test]
fn classify_all_keeps_the_order() {
    let processes = [
        process("mystery.exe", r"C:\apps\mystery.exe"),
        process("svchost.exe", r"C:\Windows\System32\svchost.exe"),
    ];
    let verdicts = classifier().classify_all(&processes);
    assert_eq!(verdicts.len(), 2);
    assert_eq!(verdicts[0].process.name, "mystery.exe");
    assert_eq!(verdicts[0].risk, RiskLevel::Review);
    assert_eq!(verdicts[1].risk, RiskLevel::Trusted);
}
