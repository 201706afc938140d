//! `hightower explain <name|pid>`: a plain-language write-up of a single
//! process, or of every instance sharing a name.
//!
//! The front end lists the processes and checks their signatures; everything
//! from choosing the matches to the finished text is here.

use vstd::prelude::*;

use crate::classify::{Classifier, verdict_for};
use crate::ports::{KnownProcess, KnownProcessView, ProcessKnowledgeRepository, RiskRule};
use crate::process::{
    ProcessInfo, ProcessInfoView, ProcessVerdict, ProcessVerdictView, RiskFinding,
    RiskFindingView, SignatureStatus, SignatureStatusView, findings_view,
};
use crate::render::{
    RenderStyle, category_label, category_label_text, paint, painted, risk_label,
    risk_label_text, risk_paint, risk_style,
};
use crate::report::{concat_lines, pad_after, push_padded_after};
use crate::text::{
    decimal_text, eq_ignore_ascii_case, equal_ignoring_ascii_case, join, joined, push_count,
    push_decimal,
};

verus! {

/// The view of an optional borrowed database entry.
pub open spec fn opt_known_view(known: Option<&KnownProcess>) -> Option<KnownProcessView> {
    match known {
        Some(entry) => Some(entry@),
        None => None,
    }
}

/// The plain-language label for a signature status.
pub open spec fn signature_label_text(signature: SignatureStatusView) -> Seq<char> {
    match signature {
        SignatureStatusView::Unchecked => "not checked"@,
        SignatureStatusView::Signed { .. } => "signed"@,
        SignatureStatusView::Untrusted => "present but not trusted"@,
        SignatureStatusView::Unsigned => "no signature"@,
        SignatureStatusView::Unknown => "could not be determined"@,
    }
}

/// The plain-language label for a signature status.
pub fn signature_label(signature: &SignatureStatus) -> (label: &'static str)
    ensures
        label@ == signature_label_text(signature@),
{
    match signature {
        SignatureStatus::Unchecked => "not checked",
        SignatureStatus::Signed { .. } => "signed",
        SignatureStatus::Untrusted => "present but not trusted",
        SignatureStatus::Unsigned => "no signature",
        SignatureStatus::Unknown => "could not be determined",
    }
}

/// What the write-up shows as a process's path.
pub open spec fn path_display_text(process: ProcessInfoView) -> Seq<char> {
    match process.executable_path {
        Some(path) => path,
        None => "(restricted — run as administrator for details)"@,
    }
}

/// The path of a process, or a note that the OS withheld it.
pub fn path_display(process: &ProcessInfo) -> (text: String)
    ensures
        text@ == path_display_text(process@),
{
    match &process.executable_path {
        Some(path) => path.clone(),
        None => String::from_str("(restricted — run as administrator for details)"),
    }
}

/// The standard "what to do" footer: deliberately cautious.
pub open spec fn guidance_text() -> Seq<char> {
    "  If it looks suspicious:\n"@
        + "    - Never kill or delete a process unless you are sure -- stopping the wrong\n"@
        + "      one can break Windows or make it restart.\n"@
        + "    - Check the path above is where this program should live.\n"@
        + "    - Research the name online, or ask someone you trust. hightower is a\n"@
        + "      helper, not an antivirus.\n"@
}

/// The standard "what to do" footer: deliberately cautious.
pub fn guidance() -> (text: String)
    ensures
        text@ == guidance_text(),
{
    let mut out = String::new();
    out.append("  If it looks suspicious:\n");
    out.append("    - Never kill or delete a process unless you are sure -- stopping the wrong\n");
    out.append("      one can break Windows or make it restart.\n");
    out.append("    - Check the path above is where this program should live.\n");
    out.append("    - Research the name online, or ask someone you trust. hightower is a\n");
    out.append("      helper, not an antivirus.\n");
    assert(out@ =~= guidance_text());
    out
}

/// The risk label, coloured by its level when the style allows it.
pub fn painted_risk(verdict: &ProcessVerdict, style: RenderStyle) -> (text: String)
    ensures
        text@ == painted(risk_label_text(verdict.risk), risk_paint(verdict.risk), style.color),
{
    paint(risk_label(verdict.risk), risk_style(verdict.risk), style.color)
}

/// Appends `label`, `value` and a newline.
fn push_line(out: &mut String, label: &str, value: &str)
    ensures
        final(out)@ == old(out)@ + label@ + value@ + "\n"@,
{
    out.append(label);
    out.append(value);
    out.append("\n");
}

/// What the write-up shows as the publisher.
pub open spec fn publisher_shown(publisher: Option<Seq<char>>) -> Seq<char> {
    match publisher {
        Some(name) => name,
        None => "unknown"@,
    }
}

/// The first line of the detail block: name and PID.
pub open spec fn detail_title(verdict: ProcessVerdictView) -> Seq<char> {
    verdict.process.name + " — PID "@ + decimal_text(verdict.process.pid as nat) + "\n"@
}

/// The field lines of the detail block, the risk shown as `risk_shown`.
pub open spec fn detail_fields(verdict: ProcessVerdictView, risk_shown: Seq<char>) -> Seq<char> {
    "  Risk:      "@ + risk_shown + "\n"@ + "  Category:  "@ + category_label_text(verdict.category)
        + "\n"@ + "  Publisher: "@ + publisher_shown(verdict.publisher) + "\n"@ + "  Signature: "@
        + signature_label_text(verdict.process.signature) + "\n"@ + "  Path:      "@
        + path_display_text(verdict.process) + "\n"@
}

/// The expected-location line, shown when the name is in the database.
pub open spec fn expected_line(known: Option<KnownProcessView>) -> Seq<char> {
    match known {
        Some(entry) => "  Expected:  "@ + joined(entry.expected_directories, " or "@) + "\n"@,
        None => Seq::empty(),
    }
}

/// The "What it is" section of the detail block.
pub open spec fn what_it_is(known: Option<KnownProcessView>) -> Seq<char> {
    "\n  What it is:\n"@ + match known {
        Some(entry) => "    "@ + entry.description_en + "\n"@,
        None => "    This process is not in hightower's list of known programs. That is\n"@
            + "    common for third-party software; it is not by itself a problem.\n"@,
    }
}

/// The bullet for one finding, before colouring.
pub open spec fn bullet_text(finding: RiskFindingView) -> Seq<char> {
    "    - "@ + finding.summary
}

/// Lines, each followed by a newline.
pub open spec fn lines_of(lines: Seq<Seq<char>>) -> Seq<char> {
    concat_lines(lines.map_values(|line: Seq<char>| line + "\n"@))
}

/// The findings section: "Nothing stood out." or the bullets, one per line.
pub open spec fn findings_section(bullets: Seq<Seq<char>>) -> Seq<char> {
    "\n"@ + if bullets.len() == 0 {
        "  Nothing stood out.\n"@
    } else {
        "  What hightower noticed:\n"@ + lines_of(bullets)
    }
}

/// The full detail block, with the risk label shown as `risk_shown` and the
/// finding bullets as `bullets`.
pub open spec fn detail_text(
    verdict: ProcessVerdictView,
    known: Option<KnownProcessView>,
    risk_shown: Seq<char>,
    bullets: Seq<Seq<char>>,
) -> Seq<char> {
    detail_title(verdict) + detail_fields(verdict, risk_shown) + expected_line(known) + what_it_is(
        known,
    ) + findings_section(bullets) + "\n"@ + guidance_text()
}

/// The bullets of a list of findings as shown: each coloured by its own
/// severity when `enabled`.
pub open spec fn shown_bullets(findings: Seq<RiskFindingView>, enabled: bool) -> Seq<Seq<char>> {
    findings.map_values(
        |finding: RiskFindingView| painted(bullet_text(finding), risk_paint(finding.severity), enabled),
    )
}

/// The detail block shown for a verdict. With colour enabled, the level
/// word is drawn in its palette style and each bullet in the style of its
/// own severity.
pub open spec fn detail_report(
    verdict: ProcessVerdictView,
    known: Option<KnownProcessView>,
    enabled: bool,
) -> Seq<char> {
    detail_text(
        verdict,
        known,
        painted(risk_label_text(verdict.risk), risk_paint(verdict.risk), enabled),
        shown_bullets(verdict.findings, enabled),
    )
}

/// The bullets of a list of findings, uncoloured.
pub open spec fn plain_bullets(findings: Seq<RiskFindingView>) -> Seq<Seq<char>> {
    findings.map_values(|finding: RiskFindingView| bullet_text(finding))
}

/// With colour off, the detail block holds no escapes: the plain risk label
/// and the plain bullets.
pub proof fn lemma_plain_detail_is_uncoloured(
    verdict: ProcessVerdictView,
    known: Option<KnownProcessView>,
)
    ensures
        detail_report(verdict, known, false) == detail_text(
            verdict,
            known,
            risk_label_text(verdict.risk),
            plain_bullets(verdict.findings),
        ),
{
    assert(shown_bullets(verdict.findings, false) =~= plain_bullets(verdict.findings));
}

/// Appends the field lines of the detail block.
fn push_detail_fields(out: &mut String, verdict: &ProcessVerdict, risk_shown: &str)
    ensures
        final(out)@ == old(out)@ + detail_fields(verdict@, risk_shown@),
{
    let ghost start = out@;
    push_line(out, "  Risk:      ", risk_shown);
    push_line(out, "  Category:  ", category_label(verdict.category));
    let publisher: &str = match &verdict.publisher {
        Some(name) => name.as_str(),
        None => "unknown",
    };
    push_line(out, "  Publisher: ", publisher);
    push_line(out, "  Signature: ", signature_label(&verdict.process.signature));
    let path = path_display(&verdict.process);
    push_line(out, "  Path:      ", path.as_str());
    assert(out@ =~= start + detail_fields(verdict@, risk_shown@));
}

/// Appends the title, the field lines and the expected-location line.
fn push_detail_head(
    out: &mut String,
    verdict: &ProcessVerdict,
    known: Option<&KnownProcess>,
    risk_shown: &str,
)
    ensures
        final(out)@ == old(out)@ + detail_title(verdict@) + detail_fields(verdict@, risk_shown@)
            + expected_line(opt_known_view(known)),
{
    let ghost start = out@;
    out.append(verdict.process.name.as_str());
    out.append(" — PID ");
    push_decimal(out, verdict.process.pid);
    out.append("\n");
    assert(out@ =~= start + detail_title(verdict@));
    let ghost titled = out@;
    push_detail_fields(out, verdict, risk_shown);
    let ghost fielded = out@;
    match known {
        Some(entry) => {
            let directories = join(&entry.expected_directories, " or ");
            push_line(out, "  Expected:  ", directories.as_str());
        },
        None => {},
    }
    assert(out@ =~= fielded + expected_line(opt_known_view(known)));
}

/// Appends the "What it is" section.
fn push_what_it_is(out: &mut String, known: Option<&KnownProcess>)
    ensures
        final(out)@ == old(out)@ + what_it_is(opt_known_view(known)),
{
    let ghost start = out@;
    out.append("\n  What it is:\n");
    match known {
        Some(entry) => {
            out.append("    ");
            out.append(entry.description_en.as_str());
            out.append("\n");
        },
        None => {
            out.append("    This process is not in hightower's list of known programs. That is\n");
            out.append("    common for third-party software; it is not by itself a problem.\n");
        },
    }
    assert(out@ =~= start + what_it_is(opt_known_view(known)));
}

/// Appends the findings section, each bullet coloured by its own severity
/// when `enabled`.
fn push_findings(out: &mut String, findings: &Vec<RiskFinding>, enabled: bool)
    ensures
        final(out)@ == old(out)@ + findings_section(shown_bullets(findings_view(findings@), enabled)),
{
    let ghost start = out@;
    let ghost all = shown_bullets(findings_view(findings@), enabled);
    out.append("\n");
    if findings.len() == 0 {
        out.append("  Nothing stood out.\n");
        assert(all.len() == 0);
        assert(out@ =~= start + findings_section(all));
        return;
    }
    out.append("  What hightower noticed:\n");
    let ghost header = out@;
    let mut i: usize = 0;
    while i < findings.len()
        invariant
            i <= findings@.len(),
            all == shown_bullets(findings_view(findings@), enabled),
            all.len() == findings@.len(),
            out@ == header + lines_of(all.take(i as int)),
        decreases findings@.len() - i,
    {
        let finding = &findings[i];
        let mut bullet = String::new();
        bullet.append("    - ");
        bullet.append(finding.summary.as_str());
        let shown = paint(bullet.as_str(), risk_style(finding.severity), enabled);
        out.append(shown.as_str());
        out.append("\n");
        proof {
            assert(all[i as int] == shown@);
            let next = all.take(i + 1);
            let mapped = next.map_values(|line: Seq<char>| line + "\n"@);
            assert(next.drop_last() =~= all.take(i as int));
            assert(mapped.drop_last() =~= all.take(i as int).map_values(
                |line: Seq<char>| line + "\n"@,
            ));
            assert(mapped.last() == shown@ + "\n"@);
            assert(lines_of(next) == lines_of(all.take(i as int)) + (shown@ + "\n"@));
            assert(out@ =~= header + lines_of(next));
        }
        i = i + 1;
    }
    assert(all.take(findings@.len() as int) =~= all);
    assert(out@ =~= start + findings_section(all));
}

/// Renders the full detail block for a single process.
pub fn render_detail(verdict: &ProcessVerdict, known: Option<&KnownProcess>, style: RenderStyle) -> (text:
    String)
    ensures
        text@ == detail_report(verdict@, opt_known_view(known), style.color),
        !style.color ==> text@ == detail_text(
            verdict@,
            opt_known_view(known),
            risk_label_text(verdict.risk),
            plain_bullets(verdict@.findings),
        ),
{
    let risk_shown = painted_risk(verdict, style);
    let mut out = String::new();
    push_detail_head(&mut out, verdict, known, risk_shown.as_str());
    push_what_it_is(&mut out, known);
    push_findings(&mut out, &verdict.findings, style.color);
    out.append("\n");
    let footer = guidance();
    out.append(footer.as_str());
    proof {
        assert(out@ =~= detail_report(verdict@, opt_known_view(known), style.color));
        lemma_plain_detail_is_uncoloured(verdict@, opt_known_view(known));
    }
    out
}

/// One line of the instances list, the risk shown as `risk_shown`: the PID
/// left-aligned in six columns, the (padded) risk, then the path.
pub open spec fn instance_line(verdict: ProcessVerdictView, risk_shown: Seq<char>) -> Seq<char> {
    "  PID "@ + pad_after(decimal_text(verdict.process.pid as nat), 6) + " "@ + risk_shown + " "@
        + path_display_text(verdict.process) + "\n"@
}

/// The shared "What it is" part of the instances summary.
pub open spec fn instances_known_part(known: Option<KnownProcessView>) -> Seq<char> {
    match known {
        Some(entry) => "What it is:\n  "@ + entry.description_en + "\n\n"@,
        None => "This name is not in hightower's known-process list.\n\n"@,
    }
}

/// The summary for several instances sharing `name`, each risk label
/// padded to ten columns and then coloured by its level when `enabled`.
pub open spec fn instances_text(
    name: Seq<char>,
    verdicts: Seq<ProcessVerdictView>,
    known: Option<KnownProcessView>,
    enabled: bool,
) -> Seq<char> {
    decimal_text(verdicts.len()) + " instances of '"@ + name + "' are running.\n\n"@
        + instances_known_part(known) + "Each instance:\n"@ + concat_lines(
        Seq::new(verdicts.len(), |i: int| instance_line(verdicts[i], shown_risk(verdicts[i], enabled))),
    ) + "\n"@ + guidance_text()
}

/// How an instance line shows a verdict's risk: its label padded to ten
/// columns, then coloured. Padding first keeps the escapes from counting as
/// width.
pub open spec fn shown_risk(verdict: ProcessVerdictView, enabled: bool) -> Seq<char> {
    painted(pad_after(risk_label_text(verdict.risk), 10), risk_paint(verdict.risk), enabled)
}

/// The views of a list of verdicts.
pub open spec fn verdicts_view(verdicts: Seq<ProcessVerdict>) -> Seq<ProcessVerdictView> {
    verdicts.map_values(|v: ProcessVerdict| v@)
}

/// Renders the summary for several instances that share a name: a shared
/// "what it is", then one coloured risk/path line per instance.
pub fn render_instances(
    name: &str,
    verdicts: &[ProcessVerdict],
    known: Option<&KnownProcess>,
    style: RenderStyle,
) -> (text: String)
    ensures
        text@ == instances_text(name@, verdicts_view(verdicts@), opt_known_view(known), style.color),
{
    let ghost all = verdicts_view(verdicts@);
    let mut out = String::new();
    push_count(&mut out, verdicts.len());
    out.append(" instances of '");
    out.append(name);
    out.append("' are running.\n\n");
    match known {
        Some(entry) => {
            out.append("What it is:\n  ");
            out.append(entry.description_en.as_str());
            out.append("\n\n");
        },
        None => {
            out.append("This name is not in hightower's known-process list.\n\n");
        },
    }
    out.append("Each instance:\n");
    let ghost header = out@;
    let mut i: usize = 0;
    while i < verdicts.len()
        invariant
            i <= verdicts@.len(),
            all == verdicts_view(verdicts@),
            out@ == header + concat_lines(
                Seq::new(i as nat, |j: int| instance_line(all[j], shown_risk(all[j], style.color))),
            ),
        decreases verdicts@.len() - i,
    {
        let verdict = &verdicts[i];
        let mut label = String::new();
        push_padded_after(&mut label, risk_label(verdict.risk), 10);
        let risk = paint(label.as_str(), risk_style(verdict.risk), style.color);
        let ghost before = out@;
        out.append("  PID ");
        let pid = crate::text::decimal(verdict.process.pid);
        push_padded_after(&mut out, pid.as_str(), 6);
        out.append(" ");
        out.append(risk.as_str());
        out.append(" ");
        let path = path_display(&verdict.process);
        out.append(path.as_str());
        out.append("\n");
        proof {
            assert(all[i as int] == verdict@);
            assert(risk@ == shown_risk(all[i as int], style.color));
            assert(out@ =~= before + instance_line(all[i as int], risk@));
            let lines = Seq::new(
                (i + 1) as nat,
                |j: int| instance_line(all[j], shown_risk(all[j], style.color)),
            );
            assert(lines.drop_last() =~= Seq::new(
                i as nat,
                |j: int| instance_line(all[j], shown_risk(all[j], style.color)),
            ));
            assert(lines.last() == instance_line(all[i as int], risk@));
        }
        i = i + 1;
    }
    out.append("\n");
    let footer = guidance();
    out.append(footer.as_str());
    proof {
        assert(all.len() == verdicts@.len());
        assert(out@ =~= instances_text(name@, all, opt_known_view(known), style.color));
    }
    out
}

/// Whether a character is an ASCII decimal digit.
pub open spec fn is_digit(c: char) -> bool {
    '0' <= c && c <= '9'
}

/// The value of a run of decimal digits.
pub open spec fn digits_value(digits: Seq<char>) -> nat
    decreases digits.len(),
{
    if digits.len() == 0 {
        0
    } else {
        digits_value(digits.drop_last()) * 10 + (digits.last() as nat - '0' as nat) as nat
    }
}

/// The digits of a PID argument: the text after an optional leading `+`.
pub open spec fn pid_digits(text: Seq<char>) -> Seq<char> {
    if text.len() > 0 && text[0] == '+' {
        text.drop_first()
    } else {
        text
    }
}

/// The PID a target names, read as `str::parse::<u32>` reads it: an optional
/// `+`, then one or more ASCII digits whose value fits in a `u32`. Anything
/// else is not a PID.
pub open spec fn parsed_pid(text: Seq<char>) -> Option<u32> {
    let digits = pid_digits(text);
    if digits.len() > 0 && (forall|i: int| 0 <= i < digits.len() ==> is_digit(#[trigger] digits[i]))
        && digits_value(digits) <= u32::MAX {
        Some(digits_value(digits) as u32)
    } else {
        None
    }
}

/// A value, held at one past `u32::MAX` once it exceeds it.
pub open spec fn capped(value: nat) -> nat {
    if value > u32::MAX {
        u32::MAX as nat + 1
    } else {
        value
    }
}

/// Reads a target as a PID, the way `str::parse::<u32>` does.
pub fn parse_pid(text: &str) -> (pid: Option<u32>)
    ensures
        pid == parsed_pid(text@),
{
    let chars = crate::text::chars_of(text);
    let mut start: usize = 0;
    if chars.len() > 0 && chars[0] == '+' {
        start = 1;
    }
    let ghost digits = pid_digits(text@);
    assert(digits =~= chars@.skip(start as int));
    if start >= chars.len() {
        return None;
    }
    let mut value: u64 = 0;
    let mut i: usize = start;
    while i < chars.len()
        invariant
            start <= i <= chars@.len(),
            chars@ == text@,
            digits == chars@.skip(start as int),
            digits == pid_digits(text@),
            forall|j: int| 0 <= j < i - start ==> is_digit(#[trigger] digits[j]),
            value == capped(digits_value(digits.take(i - start))),
        decreases chars@.len() - i,
    {
        let c = chars[i];
        if !('0' <= c && c <= '9') {
            proof {
                let k = (i - start) as int;
                assert(digits[k] == c);
                assert(!is_digit(digits[k]));
                assert(!(forall|j: int| 0 <= j < digits.len() ==> is_digit(#[trigger] digits[j])));
            }
            return None;
        }
        proof {
            let seen = digits.take(i - start + 1);
            assert(seen.drop_last() =~= digits.take(i - start));
            assert(seen.last() == c);
        }
        if value <= 0xFFFF_FFFF {
            let d = (c as u32 - '0' as u32) as u64;
            value = value * 10 + d;
            if value > 0xFFFF_FFFF {
                value = 0x1_0000_0000;
            }
        }
        i = i + 1;
    }
    assert(digits.take(digits.len() as int) =~= digits);
    if value <= 0xFFFF_FFFF {
        Some(value as u32)
    } else {
        None
    }
}

/// Whether a process is one the target names: the process with that PID
/// when the target reads as a PID, otherwise every process whose name equals
/// the target ignoring ASCII case.
pub open spec fn matches_target(process: ProcessInfoView, target: Seq<char>) -> bool {
    match parsed_pid(target) {
        Some(pid) => process.pid == pid,
        None => equal_ignoring_ascii_case(process.name, target),
    }
}

/// The views of a list of processes.
pub open spec fn processes_view(processes: Seq<ProcessInfo>) -> Seq<ProcessInfoView> {
    processes.map_values(|p: ProcessInfo| p@)
}

/// The processes a target names, in listing order.
pub fn select_matches(processes: &[ProcessInfo], target: &str) -> (matches: Vec<ProcessInfo>)
    ensures
        processes_view(matches@) == processes_view(processes@).filter(
            |p: ProcessInfoView| matches_target(p, target@),
        ),
{
    let pid = parse_pid(target);
    let ghost all = processes_view(processes@);
    let ghost wanted = |p: ProcessInfoView| matches_target(p, target@);
    let mut matches: Vec<ProcessInfo> = Vec::new();
    let mut i: usize = 0;
    while i < processes.len()
        invariant
            i <= processes@.len(),
            pid == parsed_pid(target@),
            all == processes_view(processes@),
            wanted == (|p: ProcessInfoView| matches_target(p, target@)),
            processes_view(matches@) == all.take(i as int).filter(wanted),
        decreases processes@.len() - i,
    {
        let process = &processes[i];
        let hit = match pid {
            Some(n) => process.pid == n,
            None => eq_ignore_ascii_case(process.name.as_str(), target),
        };
        proof {
            let seen = all.take(i + 1);
            assert(seen.drop_last() =~= all.take(i as int));
            assert(seen.last() == process@);
            assert(hit == wanted(process@));
        }
        if hit {
            let ghost before = matches@;
            matches.push(process.clone());
            assert(processes_view(matches@) =~= processes_view(before).push(process@));
        }
        proof {
            assert(all.take(i + 1) =~= all.take(i as int).push(process@));
            all.take(i as int).lemma_filter_push(process@, wanted);
        }
        i = i + 1;
    }
    assert(all.take(processes@.len() as int) =~= all);
    matches
}

/// What `explain` says when nothing matches: what the name is, if known.
pub open spec fn not_running_text(target: Seq<char>, known: Option<KnownProcessView>) -> Seq<char> {
    match known {
        Some(entry) => "No process named '"@ + target + "' is running right now.\n\n"@
            + "What it is:\n  "@ + entry.description_en + "\n\n"@,
        None => "No running process matches '"@ + target + "'.\n"@
            + "Try `hightower scan --all` to see what is running.\n"@,
    }
}

/// What `explain` says when nothing matches: what the name is, if the
/// database knows it, and otherwise a pointer to `scan --all`.
pub fn not_running_report(target: &str, known: Option<&KnownProcess>) -> (text: String)
    ensures
        text@ == not_running_text(target@, opt_known_view(known)),
{
    let mut out = String::new();
    match known {
        Some(entry) => {
            out.append("No process named '");
            out.append(target);
            out.append("' is running right now.\n\n");
            out.append("What it is:\n  ");
            out.append(entry.description_en.as_str());
            out.append("\n\n");
        },
        None => {
            out.append("No running process matches '");
            out.append(target);
            out.append("'.\n");
            out.append("Try `hightower scan --all` to see what is running.\n");
        },
    }
    assert(out@ =~= not_running_text(target@, opt_known_view(known)));
    out
}

/// The write-up `explain` prints for the processes a target matched (their
/// signatures already checked): the not-running note when there are none,
/// the detail block for one, and the instances summary for several. What is
/// said about a name comes from `knowledge`.
pub fn explain_report<R: RiskRule, K: ProcessKnowledgeRepository, Q: ProcessKnowledgeRepository>(
    target: &str,
    matches: &[ProcessInfo],
    classifier: &Classifier<R, K>,
    knowledge: &Q,
    style: RenderStyle,
) -> (text: String)
    ensures
        matches@.len() == 0 ==> text@ == not_running_text(target@, knowledge.known_entry(target@)),
        matches@.len() == 1 ==> text@ == detail_report(
            classifier.verdicts_for(matches@)[0],
            knowledge.known_entry(matches@[0]@.name),
            style.color,
        ),
        matches@.len() > 1 ==> text@ == instances_text(
            matches@[0]@.name,
            classifier.verdicts_for(matches@),
            knowledge.known_entry(matches@[0]@.name),
            style.color,
        ),
{
    if matches.len() == 0 {
        let known = knowledge.lookup(target);
        return not_running_report(target, known.as_ref());
    }
    let known = knowledge.lookup(matches[0].name.as_str());
    let verdicts = classifier.classify_all(matches);
    proof {
        assert(verdicts_view(verdicts@) == classifier.verdicts_for(matches@));
        assert(verdicts@.len() == matches@.len()) by {
            assert(verdicts@.map_values(|v: ProcessVerdict| v@).len() == verdicts@.len());
        }
    }
    if matches.len() > 1 {
        render_instances(matches[0].name.as_str(), verdicts.as_slice(), known.as_ref(), style)
    } else {
        assert(verdicts@[0]@ == classifier.verdicts_for(matches@)[0]);
        render_detail(&verdicts[0], known.as_ref(), style)
    }
}

} // verus!
