use hightower::environment::Environment;
use hightower::knowledge::EmbeddedKnowledgeRepository;
use hightower::ports::{KnownProcess, RiskRule};
use hightower::process::{ProcessCategory, ProcessInfo, RiskLevel, SignatureStatus};
use hightower::rules::masquerading::{expand_env_placeholders, normalize_directory, parent_directory};
use hightower::rules::{PathMasqueradingRule, UnknownProcessRule, UnsignedBinaryRule};

/// A database entry with literal directories (no placeholders), so path
/// comparisons do not depend on the environment.
fn known(process_name: &str, expected_directories: &[&str]) -> KnownProcess {
    KnownProcess {
        process_name: process_name.to_string(),
        expected_directories: expected_directories.iter().map(|d| d.to_string()).collect(),
        publisher: "Microsoft Windows".to_string(),
        category: ProcessCategory::CoreWindows,
        description_en: "test".to_string(),
        description_pt: "teste".to_string(),
    }
}

fn knowledge() -> EmbeddedKnowledgeRepository {
    EmbeddedKnowledgeRepository::new(Ok(vec![known("svchost.exe", &[r"C:\Windows\System32"])]))
        .unwrap()
}

fn empty_knowledge() -> EmbeddedKnowledgeRepository {
    EmbeddedKnowledgeRepository::new(Ok(Vec::new())).unwrap()
}

fn masquerading() -> PathMasqueradingRule {
    PathMasqueradingRule::new(Environment::empty())
}

fn process_at(name: &str, path: Option<&str>) -> ProcessInfo {
    ProcessInfo {
        pid: 100,
        name: name.to_string(),
        executable_path: path.map(|p| p.to_string()),
        restricted: path.is_none(),
        signature: SignatureStatus::Unchecked,
    }
}

fn process(name: &str, signature: SignatureStatus) -> ProcessInfo {
    ProcessInfo {
        pid: 100,
        name: name.to_string(),
        executable_path: Some(format!(r"C:\apps\{name}")),
        restricted: false,
        signature,
    }
}

fn process_with(signature: SignatureStatus) -> ProcessInfo {
    ProcessInfo {
        pid: 100,
        name: "example.exe".to_string(),
        executable_path: Some(r"C:\Users\me\example.exe".to_string()),
        restricted: false,
        signature,
    }
}

#[test]
fn known_process_in_expected_directory_is_fine() {
    let finding = masquerading().evaluate(
        &process_at("svchost.exe", Some(r"C:\Windows\System32\svchost.exe")),
        &knowledge(),
    );
    assert!(finding.is_none());
}

#[test]
fn comparison_ignores_case() {
    let finding = masquerading().evaluate(
        &process_at("svchost.exe", Some(r"C:\WINDOWS\system32\svchost.exe")),
        &knowledge(),
    );
    assert!(finding.is_none());
}

#[test]
fn known_process_in_wrong_directory_is_suspicious() {
    let finding = masquerading()
        .evaluate(
            &process_at("svchost.exe", Some(r"C:\Users\me\Downloads\svchost.exe")),
            &knowledge(),
        )
        .expect("masquerading should be flagged");
    assert_eq!(finding.severity, RiskLevel::Suspicious);
}

#[test]
fn unknown_process_is_not_this_rules_concern() {
    let finding = masquerading().evaluate(
        &process_at("random.exe", Some(r"C:\Users\me\Downloads\random.exe")),
        &knowledge(),
    );
    assert!(finding.is_none());
}

#[test]
fn restricted_process_is_not_judged() {
    let finding = masquerading().evaluate(&process_at("svchost.exe", None), &knowledge());
    assert!(finding.is_none());
}

#[test]
fn empty_knowledge_flags_nothing() {
    let finding = masquerading().evaluate(
        &process_at("svchost.exe", Some(r"C:\Users\me\Downloads\svchost.exe")),
        &empty_knowledge(),
    );
    assert!(finding.is_none());
}

#[test]
fn known_process_is_not_flagged() {
    let finding = UnknownProcessRule.evaluate(
        &process("svchost.exe", SignatureStatus::Unchecked),
        &knowledge(),
    );
    assert!(finding.is_none());
}

#[test]
fn unknown_and_unchecked_is_review() {
    let finding = UnknownProcessRule
        .evaluate(&process("mystery.exe", SignatureStatus::Unchecked), &knowledge())
        .expect("unknown process should be flagged");
    assert_eq!(finding.severity, RiskLevel::Review);
}

#[test]
fn unknown_but_validly_signed_is_not_flagged() {
    let signed = SignatureStatus::Signed {
        publisher: Some("Google LLC".to_string()),
    };
    let finding = UnknownProcessRule.evaluate(&process("chrome.exe", signed), &knowledge());
    assert!(finding.is_none());
}

#[test]
fn signature_status_maps_to_expected_finding() {
    let cases = [
        (SignatureStatus::Unsigned, Some(RiskLevel::Review)),
        (SignatureStatus::Untrusted, Some(RiskLevel::Suspicious)),
        (
            SignatureStatus::Signed {
                publisher: Some("Acme".to_string()),
            },
            None,
        ),
        (SignatureStatus::Unchecked, None),
        (SignatureStatus::Unknown, None),
    ];

    for (signature, expected) in cases {
        let finding = UnsignedBinaryRule.evaluate(&process_with(signature), &empty_knowledge());
        assert_eq!(finding.map(|f| f.severity), expected);
    }
}

#[test]
fn masquerading_summary_names_both_places() {
    let repository = EmbeddedKnowledgeRepository::new(Ok(vec![known(
        "svchost.exe",
        &[r"%SystemRoot%\System32", r"%SystemRoot%\SysWOW64"],
    )]))
    .unwrap();
    let rule = PathMasqueradingRule::new(Environment::new(vec![(
        "SystemRoot".to_string(),
        r"C:\Windows".to_string(),
    )]));
    let finding = rule
        .evaluate(
            &process_at("svchost.exe", Some(r"C:\Users\me\Downloads\svchost.exe")),
            &repository,
        )
        .unwrap();
    assert_eq!(
        finding.summary,
        r"'svchost.exe' normally runs from C:\Windows\System32 or C:\Windows\SysWOW64, but this copy is in C:\Users\me\Downloads. A trusted system name in an unexpected folder is a common malware disguise."
    );
    let fine = rule.evaluate(
        &process_at("svchost.exe", Some(r"c:/windows/syswow64/svchost.exe")),
        &repository,
    );
    assert!(fine.is_none());
}

#[test]
fn unknown_summary_quotes_the_name() {
    let finding = UnknownProcessRule
        .evaluate(&process("mystery.exe", SignatureStatus::Unsigned), &knowledge())
        .unwrap();
    assert_eq!(
        finding.summary,
        "'mystery.exe' is not in hightower's list of known programs and has no recognized publisher. This is common for third-party apps -- review it manually if you do not recognize it."
    );
}

#[test]
fn a_path_without_a_separator_has_no_directory() {
    assert_eq!(parent_directory(r"C:\a\b.exe").as_deref(), Some(r"C:\a"));
    assert_eq!(parent_directory("C:/a/b.exe").as_deref(), Some("C:/a"));
    assert_eq!(parent_directory(r"a/b\c").as_deref(), Some(r"a/b"));
    assert_eq!(parent_directory("plain.exe"), None);
    let finding = masquerading().evaluate(&process_at("svchost.exe", Some("svchost.exe")), &knowledge());
    assert!(finding.is_none());
}

#[test]
fn directories_normalize_case_separators_and_trailing_slashes() {
    assert_eq!(normalize_directory(r"C:/Windows/System32\\"), r"c:\windows\system32");
    assert_eq!(normalize_directory(r"C:\"), "c:");
    assert_eq!(normalize_directory(""), "");
}

#[test]
fn placeholders_expand_from_the_environment() {
    let environment = Environment::new(vec![
        ("SystemRoot".to_string(), r"C:\Windows".to_string()),
        ("EMPTY".to_string(), String::new()),
    ]);
    assert_eq!(
        expand_env_placeholders(r"%SystemRoot%\System32", &environment),
        r"C:\Windows\System32"
    );
    assert_eq!(expand_env_placeholders("%MISSING%\\x", &environment), "%MISSING%\\x");
    assert_eq!(expand_env_placeholders("a%EMPTY%b", &environment), "ab");
    assert_eq!(expand_env_placeholders("50% off", &environment), "50% off");
    assert_eq!(expand_env_placeholders("%%", &environment), "%%");
    assert_eq!(expand_env_placeholders("no placeholders", &environment), "no placeholders");
}

#[test]
fn variable_names_ignore_ascii_case() {
    let environment = Environment::new(vec![
        ("SystemRoot".to_string(), r"C:\Windows".to_string()),
        ("systemroot".to_string(), r"D:\Other".to_string()),
    ]);
    assert_eq!(
        expand_env_placeholders(r"%SYSTEMROOT%\System32", &environment),
        r"C:\Windows\System32"
    );
    assert_eq!(
        environment.get(&"SYSTEMROOT".to_string()).as_deref(),
        Some(r"C:\Windows")
    );
    assert_eq!(environment.get(&"Windir".to_string()), None);
}
