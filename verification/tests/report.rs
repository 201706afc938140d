use hightower::process::{
    ProcessCategory, ProcessInfo, ProcessVerdict, RiskLevel, SignatureStatus,
};
use hightower::render::RenderStyle;
use hightower::report::{path_budget, render_verdict_table, row_cells, HEADERS};

fn verdict(
    pid: u32,
    name: &str,
    path: Option<&str>,
    category: ProcessCategory,
    risk: RiskLevel,
) -> ProcessVerdict {
    ProcessVerdict {
        process: ProcessInfo {
            pid,
            name: name.to_string(),
            executable_path: path.map(|p| p.to_string()),
            restricted: path.is_none(),
            signature: SignatureStatus::Unchecked,
        },
        category,
        publisher: None,
        risk,
        findings: Vec::new(),
    }
}

fn sample() -> Vec<ProcessVerdict> {
    vec![
        verdict(4, "System", None, ProcessCategory::Unknown, RiskLevel::Review),
        verdict(
            1234,
            "explorer.exe",
            Some(r"C:\Windows\explorer.exe"),
            ProcessCategory::CoreWindows,
            RiskLevel::Trusted,
        ),
    ]
}

#[test]
fn plain_renders_headers_labels_and_restricted() {
    let table = render_verdict_table(&sample(), RenderStyle::plain());
    for header in HEADERS {
        assert!(table.contains(header), "missing header {header}");
    }
    assert!(table.contains("trusted"));
    assert!(table.contains("review"));
    assert!(table.contains("core-windows"));
    assert!(table.contains("(restricted)"));
    assert!(table.contains(r"C:\Windows\explorer.exe"));
}

#[test]
fn plain_output_has_no_escape_sequences() {
    let table = render_verdict_table(&sample(), RenderStyle::plain());
    assert!(!table.contains('\x1b'), "plain output must be escape-free");
}

#[test]
fn plain_columns_are_aligned() {
    let verdicts = [
        verdict(1, "a", Some("p1"), ProcessCategory::Unknown, RiskLevel::Trusted),
        verdict(
            2,
            "much-longer-name.exe",
            Some("p2"),
            ProcessCategory::Unknown,
            RiskLevel::Trusted,
        ),
    ];
    let table = render_verdict_table(&verdicts, RenderStyle::plain());
    let lines: Vec<&str> = table.lines().collect();
    let short_row = lines.iter().find(|line| line.contains("p1")).unwrap();
    let long_row = lines.iter().find(|line| line.contains("p2")).unwrap();
    assert_eq!(short_row.find("p1"), long_row.find("p2"));
}

#[test]
fn rich_output_has_borders_and_colour() {
    let style = RenderStyle {
        color: true,
        max_width: None,
    };
    let table = render_verdict_table(&sample(), style);
    assert!(table.contains('│'), "rich output should be box-drawn");
    assert!(table.contains('\x1b'), "rich output should be coloured");
}

#[test]
fn rich_truncates_a_long_path_to_the_width() {
    let long = r"C:\Program Files\Some Vendor\Very Long Application Name\bin\service.exe";
    let verdicts = [verdict(
        9,
        "service.exe",
        Some(long),
        ProcessCategory::Unknown,
        RiskLevel::Review,
    )];
    let style = RenderStyle {
        color: true,
        max_width: Some(60),
    };
    let table = render_verdict_table(&verdicts, style);
    assert!(
        !table.contains(long),
        "the full long path should be truncated"
    );
    assert!(table.contains('…'));
}

#[test]
fn plain_table_is_exactly_laid_out() {
    let table = render_verdict_table(&sample(), RenderStyle::plain());
    let expected = [
        "RISK      PID  NAME          CATEGORY      PATH\n",
        "review      4  System        unknown       (restricted)\n",
        "trusted  1234  explorer.exe  core-windows  C:\\Windows\\explorer.exe\n",
    ]
    .concat();
    assert_eq!(table, expected);
}

#[test]
fn an_empty_plain_table_is_just_the_header() {
    let table = render_verdict_table(&[], RenderStyle::plain());
    assert_eq!(table, "RISK  PID  NAME  CATEGORY  PATH\n");
}

#[test]
fn row_cells_are_the_five_display_strings() {
    let cells = row_cells(&sample()[1]);
    assert_eq!(
        cells,
        [
            "trusted".to_string(),
            "1234".to_string(),
            "explorer.exe".to_string(),
            "core-windows".to_string(),
            r"C:\Windows\explorer.exe".to_string(),
        ]
    );
}

#[test]
fn path_budget_is_the_width_left_over_but_at_least_twelve() {
    // Widths: RISK 7 ("trusted"), PID 4, NAME 12, CATEGORY 12; plus 16 of
    // borders and padding: 51 columns taken.
    assert_eq!(path_budget(&sample(), 100), 49);
    assert_eq!(path_budget(&sample(), 60), 12);
    assert_eq!(path_budget(&sample(), 10), 12);
}

#[test]
fn rich_table_without_a_width_keeps_the_whole_path() {
    let long = r"C:\Program Files\Some Vendor\Very Long Application Name\bin\service.exe";
    let verdicts = [verdict(
        9,
        "service.exe",
        Some(long),
        ProcessCategory::Unknown,
        RiskLevel::Suspicious,
    )];
    let style = RenderStyle {
        color: true,
        max_width: None,
    };
    let table = render_verdict_table(&verdicts, style);
    assert!(table.contains(long));
    assert!(table.contains("suspicious"));
}

#[test]
fn rich_table_shows_headers_and_every_cell() {
    let style = RenderStyle {
        color: true,
        max_width: None,
    };
    let table = render_verdict_table(&sample(), style);
    for header in HEADERS {
        assert!(table.contains(header), "missing header {header}");
    }
    assert!(table.contains("explorer.exe"));
    assert!(table.contains("(restricted)"));
    assert!(table.contains("1234"));
    let header_line = table.lines().find(|line| line.contains("RISK")).unwrap();
    let risk_at = header_line.find("RISK").unwrap();
    let path_at = header_line.find("PATH").unwrap();
    assert!(risk_at < path_at);
}
