use hightower::classify::Classifier;
use hightower::environment::Environment;
use hightower::knowledge::EmbeddedKnowledgeRepository;
use hightower::ports::KnownProcess;
use hightower::process::{
    ProcessCategory, ProcessInfo, ProcessVerdict, RiskLevel, SignatureStatus,
};
use hightower::render::RenderStyle;
use hightower::rules::default_rules;
use hightower::scan::{count_at_level, scan_report, scan_summary, sort_worst_first};

fn verdict(pid: u32, risk: RiskLevel) -> ProcessVerdict {
    ProcessVerdict {
        process: ProcessInfo {
            pid,
            name: format!("p{pid}.exe"),
            executable_path: None,
            restricted: true,
            signature: SignatureStatus::Unchecked,
        },
        category: ProcessCategory::Unknown,
        publisher: None,
        risk,
        findings: Vec::new(),
    }
}

#[test]
fn worst_first_is_stable_within_a_level() {
    let mut verdicts = vec![
        verdict(1, RiskLevel::Trusted),
        verdict(2, RiskLevel::Suspicious),
        verdict(3, RiskLevel::Review),
        verdict(4, RiskLevel::Suspicious),
        verdict(5, RiskLevel::Trusted),
        verdict(6, RiskLevel::Review),
    ];
    sort_worst_first(&mut verdicts);
    let pids: Vec<u32> = verdicts.iter().map(|v| v.process.pid).collect();
    assert_eq!(pids, vec![2, 4, 3, 6, 1, 5]);
}

#[test]
fn the_summary_counts_each_level() {
    let verdicts = vec![
        verdict(1, RiskLevel::Trusted),
        verdict(2, RiskLevel::Suspicious),
        verdict(3, RiskLevel::Review),
        verdict(4, RiskLevel::Review),
    ];
    assert_eq!(count_at_level(&verdicts, RiskLevel::Review), 2);
    assert_eq!(
        scan_summary(&verdicts),
        "Scanned 4 processes: 1 suspicious, 2 to review.\n\n"
    );
    assert_eq!(
        scan_summary(&Vec::new()),
        "Scanned 0 processes: 0 suspicious, 0 to review.\n\n"
    );
}

#[test]
fn the_scan_report_puts_the_flagged_processes_first() {
    let knowledge = EmbeddedKnowledgeRepository::new(Ok(vec![KnownProcess {
        process_name: "svchost.exe".to_string(),
        expected_directories: vec![r"C:\Windows\System32".to_string()],
        publisher: "Microsoft Windows".to_string(),
        category: ProcessCategory::CoreWindows,
        description_en: "test".to_string(),
        description_pt: "teste".to_string(),
    }]))
    .unwrap();
    let classifier = Classifier::new(default_rules(Environment::empty()), knowledge);
    let processes = [
        ProcessInfo {
            pid: 10,
            name: "svchost.exe".to_string(),
            executable_path: Some(r"C:\Windows\System32\svchost.exe".to_string()),
            restricted: false,
            signature: SignatureStatus::Unchecked,
        },
        ProcessInfo {
            pid: 20,
            name: "svchost.exe".to_string(),
            executable_path: Some(r"C:\Temp\svchost.exe".to_string()),
            restricted: false,
            signature: SignatureStatus::Unchecked,
        },
    ];
    let report = scan_report(&processes, &classifier, RenderStyle::plain());
    let expected = [
        "Scanned 2 processes: 1 suspicious, 0 to review.\n\n",
        "RISK        PID  NAME         CATEGORY      PATH\n",
        "suspicious   20  svchost.exe  core-windows  C:\\Temp\\svchost.exe\n",
        "trusted      10  svchost.exe  core-windows  C:\\Windows\\System32\\svchost.exe\n",
    ]
    .concat();
    assert_eq!(report, expected);
}
