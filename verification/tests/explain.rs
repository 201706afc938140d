use hightower::classify::Classifier;
use hightower::environment::Environment;
use hightower::explain::{
    explain_report, guidance, not_running_report, parse_pid, path_display, render_detail,
    render_instances, select_matches, signature_label,
};
use hightower::knowledge::EmbeddedKnowledgeRepository;
use hightower::ports::KnownProcess;
use hightower::process::{
    ProcessCategory, ProcessInfo, ProcessVerdict, RiskFinding, RiskLevel, SignatureStatus,
};
use hightower::render::RenderStyle;
use hightower::rules::default_rules;

fn verdict(name: &str, risk: RiskLevel, findings_text: &[&str]) -> ProcessVerdict {
    let findings = findings_text
        .iter()
        .map(|text| RiskFinding::new(risk, text))
        .collect();
    ProcessVerdict {
        process: ProcessInfo {
            pid: 4321,
            name: name.to_string(),
            executable_path: Some(r"C:\Windows\System32\svchost.exe".to_string()),
            restricted: false,
            signature: SignatureStatus::Signed { publisher: None },
        },
        category: ProcessCategory::CoreWindows,
        publisher: Some("Microsoft Windows".to_string()),
        risk,
        findings,
    }
}

fn known_svchost() -> KnownProcess {
    KnownProcess {
        process_name: "svchost.exe".to_string(),
        expected_directories: vec![
            r"C:\Windows\System32".to_string(),
            r"C:\Windows\SysWOW64".to_string(),
        ],
        publisher: "Microsoft Windows".to_string(),
        category: ProcessCategory::CoreWindows,
        description_en: "Hosts Windows services.".to_string(),
        description_pt: "Hospeda serviços do Windows.".to_string(),
    }
}

fn process(pid: u32, name: &str, path: Option<&str>) -> ProcessInfo {
    ProcessInfo {
        pid,
        name: name.to_string(),
        executable_path: path.map(|p| p.to_string()),
        restricted: path.is_none(),
        signature: SignatureStatus::Unchecked,
    }
}

#[test]
fn detail_includes_core_fields_and_guidance() {
    let detail = render_detail(
        &verdict("svchost.exe", RiskLevel::Trusted, &[]),
        None,
        RenderStyle::plain(),
    );
    assert!(detail.contains("svchost.exe — PID 4321"));
    assert!(detail.contains("Risk:      trusted"));
    assert!(detail.contains("Publisher: Microsoft Windows"));
    assert!(detail.contains("Nothing stood out."));
    assert!(detail.contains("not an antivirus"));
}

#[test]
fn detail_lists_findings_when_present() {
    let detail = render_detail(
        &verdict("mystery.exe", RiskLevel::Review, &["not in known list"]),
        None,
        RenderStyle::plain(),
    );
    assert!(detail.contains("What hightower noticed:"));
    assert!(detail.contains("- not in known list"));
}

#[test]
fn plain_detail_has_no_escape_sequences() {
    let detail = render_detail(
        &verdict("svchost.exe", RiskLevel::Suspicious, &["bad path"]),
        None,
        RenderStyle::plain(),
    );
    assert!(!detail.contains('\x1b'));
}

#[test]
fn coloured_detail_paints_the_risk() {
    let style = RenderStyle {
        color: true,
        max_width: None,
    };
    let detail = render_detail(
        &verdict("svchost.exe", RiskLevel::Suspicious, &[]),
        None,
        style,
    );
    assert!(detail.contains('\x1b'));
}

#[test]
fn plain_detail_is_exactly_laid_out() {
    let known = known_svchost();
    let detail = render_detail(
        &verdict("svchost.exe", RiskLevel::Review, &["one", "two"]),
        Some(&known),
        RenderStyle::plain(),
    );
    let expected = [
        "svchost.exe — PID 4321\n",
        "  Risk:      review\n",
        "  Category:  core-windows\n",
        "  Publisher: Microsoft Windows\n",
        "  Signature: signed\n",
        "  Path:      C:\\Windows\\System32\\svchost.exe\n",
        "  Expected:  C:\\Windows\\System32 or C:\\Windows\\SysWOW64\n",
        "\n  What it is:\n",
        "    Hosts Windows services.\n",
        "\n",
        "  What hightower noticed:\n",
        "    - one\n",
        "    - two\n",
        "\n",
        "  If it looks suspicious:\n",
        "    - Never kill or delete a process unless you are sure -- stopping the wrong\n",
        "      one can break Windows or make it restart.\n",
        "    - Check the path above is where this program should live.\n",
        "    - Research the name online, or ask someone you trust. hightower is a\n",
        "      helper, not an antivirus.\n",
    ]
    .concat();
    assert_eq!(detail, expected);
}

#[test]
fn unknown_names_get_the_not_in_list_note() {
    let detail = render_detail(
        &verdict("mystery.exe", RiskLevel::Trusted, &[]),
        None,
        RenderStyle::plain(),
    );
    assert!(detail.contains("    This process is not in hightower's list of known programs. That is\n"));
    assert!(!detail.contains("Expected:"));
}

#[test]
fn instances_summary_lists_each_instance() {
    let mut restricted = verdict("svchost.exe", RiskLevel::Review, &[]);
    restricted.process.pid = 7;
    restricted.process.executable_path = None;
    let verdicts = [verdict("svchost.exe", RiskLevel::Trusted, &[]), restricted];
    let known = known_svchost();
    let text = render_instances("svchost.exe", &verdicts, Some(&known), RenderStyle::plain());
    let expected = String::from("2 instances of 'svchost.exe' are running.\n\n")
        + "What it is:\n  Hosts Windows services.\n\n"
        + "Each instance:\n"
        + "  PID 4321   trusted    C:\\Windows\\System32\\svchost.exe\n"
        + "  PID 7      review     (restricted — run as administrator for details)\n"
        + "\n"
        + &guidance();
    assert_eq!(text, expected);
}

#[test]
fn instances_of_an_unknown_name_say_so() {
    let verdicts = [
        verdict("x.exe", RiskLevel::Trusted, &[]),
        verdict("x.exe", RiskLevel::Trusted, &[]),
    ];
    let text = render_instances("x.exe", &verdicts, None, RenderStyle::plain());
    assert!(text.contains("This name is not in hightower's known-process list.\n\n"));
}

#[test]
fn coloured_instances_pad_before_painting() {
    let verdicts = [
        verdict("x.exe", RiskLevel::Suspicious, &[]),
        verdict("x.exe", RiskLevel::Trusted, &[]),
    ];
    let style = RenderStyle {
        color: true,
        max_width: None,
    };
    let text = render_instances("x.exe", &verdicts, None, style);
    assert!(text.contains("\x1b[1m\x1b[31msuspicious\x1b[0m"));
    assert!(text.contains("\x1b[32mtrusted   \x1b[0m"));
}

#[test]
fn signature_labels_are_plain_words() {
    assert_eq!(signature_label(&SignatureStatus::Unchecked), "not checked");
    assert_eq!(
        signature_label(&SignatureStatus::Signed {
            publisher: Some("Acme".to_string())
        }),
        "signed"
    );
    assert_eq!(
        signature_label(&SignatureStatus::Untrusted),
        "present but not trusted"
    );
    assert_eq!(signature_label(&SignatureStatus::Unsigned), "no signature");
    assert_eq!(
        signature_label(&SignatureStatus::Unknown),
        "could not be determined"
    );
}

#[test]
fn a_withheld_path_is_explained() {
    assert_eq!(
        path_display(&process(1, "a.exe", None)),
        "(restricted — run as administrator for details)"
    );
    assert_eq!(path_display(&process(1, "a.exe", Some(r"C:\a.exe"))), r"C:\a.exe");
}

#[test]
fn targets_parse_as_pids_the_way_std_does() {
    assert_eq!(parse_pid("4321"), Some(4321));
    assert_eq!(parse_pid("+12"), Some(12));
    assert_eq!(parse_pid("007"), Some(7));
    assert_eq!(parse_pid("4294967295"), Some(u32::MAX));
    assert_eq!(parse_pid("4294967296"), None);
    assert_eq!(parse_pid("99999999999999999999"), None);
    assert_eq!(parse_pid(""), None);
    assert_eq!(parse_pid("+"), None);
    assert_eq!(parse_pid("-1"), None);
    assert_eq!(parse_pid("12a"), None);
    assert_eq!(parse_pid("svchost.exe"), None);
    for text in ["0", "+0", "123", "4294967295", "x", "", "+", "1 2", "١٢"] {
        assert_eq!(parse_pid(text), text.parse::<u32>().ok(), "{text}");
    }
}

#[test]
fn a_numeric_target_selects_by_pid_and_a_name_ignores_case() {
    let processes = vec![
        process(10, "svchost.exe", None),
        process(11, "SVCHOST.EXE", None),
        process(12, "other.exe", None),
    ];
    let by_pid = select_matches(&processes, "11");
    assert_eq!(by_pid.len(), 1);
    assert_eq!(by_pid[0].pid, 11);
    let by_name = select_matches(&processes, "SvcHost.exe");
    let pids: Vec<u32> = by_name.iter().map(|p| p.pid).collect();
    assert_eq!(pids, vec![10, 11]);
    assert!(select_matches(&processes, "nothing.exe").is_empty());
}

#[test]
fn nothing_running_still_explains_a_known_name() {
    let known = known_svchost();
    assert_eq!(
        not_running_report("svchost.exe", Some(&known)),
        "No process named 'svchost.exe' is running right now.\n\nWhat it is:\n  Hosts Windows services.\n\n"
    );
    assert_eq!(
        not_running_report("nope.exe", None),
        "No running process matches 'nope.exe'.\nTry `hightower scan --all` to see what is running.\n"
    );
}

#[test]
fn explain_report_picks_detail_instances_or_not_running() {
    let knowledge = EmbeddedKnowledgeRepository::new(Ok(vec![known_svchost()])).unwrap();
    let lookup = EmbeddedKnowledgeRepository::new(Ok(vec![known_svchost()])).unwrap();
    let classifier = Classifier::new(default_rules(Environment::empty()), knowledge);
    let style = RenderStyle::plain();

    let none = explain_report("svchost.exe", &[], &classifier, &lookup, style);
    assert!(none.starts_with("No process named 'svchost.exe' is running right now."));

    let one = [process(5, "svchost.exe", Some(r"C:\Windows\System32\svchost.exe"))];
    let detail = explain_report("5", &one, &classifier, &lookup, style);
    assert!(detail.starts_with("svchost.exe — PID 5\n  Risk:      trusted\n"));
    assert!(detail.contains("    Hosts Windows services.\n"));

    let two = [
        process(5, "svchost.exe", Some(r"C:\Windows\System32\svchost.exe")),
        process(6, "svchost.exe", Some(r"C:\Users\me\svchost.exe")),
    ];
    let summary = explain_report("svchost.exe", &two, &classifier, &lookup, style);
    assert!(summary.starts_with("2 instances of 'svchost.exe' are running.\n\n"));
    assert!(summary.contains("  PID 6      suspicious C:\\Users\\me\\svchost.exe\n"));
}
