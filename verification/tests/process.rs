use hightower::process::{
    ProcessCategory, ProcessInfo, ProcessVerdict, RiskFinding, RiskLevel, SignatureStatus,
};

fn sample_process() -> ProcessInfo {
    ProcessInfo {
        pid: 1234,
        name: "example.exe".to_string(),
        executable_path: None,
        restricted: false,
        signature: SignatureStatus::Unchecked,
    }
}

#[test]
fn no_findings_is_trusted() {
    let verdict = ProcessVerdict::new(sample_process(), ProcessCategory::CoreWindows, None, vec![]);
    assert_eq!(verdict.risk, RiskLevel::Trusted);
}

#[test]
fn overall_risk_is_the_worst_finding() {
    let cases = [
        (vec![RiskLevel::Review], RiskLevel::Review),
        (
            vec![RiskLevel::Review, RiskLevel::Suspicious],
            RiskLevel::Suspicious,
        ),
        (
            vec![RiskLevel::Suspicious, RiskLevel::Review, RiskLevel::Trusted],
            RiskLevel::Suspicious,
        ),
        (vec![RiskLevel::Trusted], RiskLevel::Trusted),
    ];

    for (severities, expected) in cases {
        let findings = severities
            .into_iter()
            .map(|severity| RiskFinding::new(severity, "test"))
            .collect();
        let verdict = ProcessVerdict::new(sample_process(), ProcessCategory::Unknown, None, findings);
        assert_eq!(verdict.risk, expected);
    }
}

#[test]
fn risk_levels_order_worst_last() {
    assert!(RiskLevel::Suspicious > RiskLevel::Review);
    assert!(RiskLevel::Review > RiskLevel::Trusted);
}

#[test]
fn is_worse_than_follows_the_order() {
    assert!(RiskLevel::Suspicious.is_worse_than(RiskLevel::Trusted));
    assert!(!RiskLevel::Review.is_worse_than(RiskLevel::Review));
    assert!(!RiskLevel::Trusted.is_worse_than(RiskLevel::Suspicious));
}

#[test]
fn a_verdict_keeps_what_it_was_built_from() {
    let verdict = ProcessVerdict::new(
        sample_process(),
        ProcessCategory::Driver,
        Some("Acme".to_string()),
        vec![RiskFinding::new(RiskLevel::Review, "look")],
    );
    assert_eq!(verdict.process, sample_process());
    assert_eq!(verdict.category, ProcessCategory::Driver);
    assert_eq!(verdict.publisher.as_deref(), Some("Acme"));
    assert_eq!(verdict.findings, vec![RiskFinding::new(RiskLevel::Review, "look")]);
    assert_eq!(verdict.clone(), verdict);
}
