//! `hightower scan`: classify every listed process, order the verdicts
//! worst-first, and report them under a one-line summary.
//!
//! The front end lists the processes and checks their signatures; the report
//! itself is built here.

use vstd::prelude::*;

use crate::classify::Classifier;
use crate::explain::verdicts_view;
use crate::ports::{ProcessKnowledgeRepository, RiskRule};
use crate::process::{ProcessInfo, ProcessVerdict, ProcessVerdictView, RiskLevel};
use crate::render::RenderStyle;
use crate::report::{
    all_single_line, box_layout, header_texts, lemma_rich_rows_of_views, lemma_rows_of_views, plain_table, render_verdict_table,
    table_drawn, view_rich_rows, view_rows,
};
use crate::text::{decimal_text, push_count};

verus! {

/// The verdicts at one risk level, in the order they came.
pub open spec fn at_level(verdicts: Seq<ProcessVerdictView>, level: RiskLevel) -> Seq<
    ProcessVerdictView,
> {
    verdicts.filter(|v: ProcessVerdictView| v.risk == level)
}

/// The verdicts worst-first: the suspicious ones, then those to review, then
/// the trusted ones, each group in the order it came.
pub open spec fn worst_first(verdicts: Seq<ProcessVerdictView>) -> Seq<ProcessVerdictView> {
    at_level(verdicts, RiskLevel::Suspicious) + at_level(verdicts, RiskLevel::Review) + at_level(
        verdicts,
        RiskLevel::Trusted,
    )
}

/// Keeping the verdicts at one level, then those at a level, keeps those at
/// the second level if both are the same, and none otherwise.
proof fn lemma_at_level_twice(verdicts: Seq<ProcessVerdictView>, a: RiskLevel, b: RiskLevel)
    ensures
        at_level(at_level(verdicts, a), b) == (if a == b {
            at_level(verdicts, a)
        } else {
            Seq::<ProcessVerdictView>::empty()
        }),
    decreases verdicts.len(),
{
    let pa = |v: ProcessVerdictView| v.risk == a;
    let pb = |v: ProcessVerdictView| v.risk == b;
    if verdicts.len() > 0 {
        lemma_at_level_twice(verdicts.drop_last(), a, b);
        let rest = verdicts.drop_last();
        let last = verdicts.last();
        assert(verdicts == rest.push(last));
        rest.lemma_filter_push(last, pa);
        rest.filter(pa).lemma_filter_push(last, pb);
    } else {
        assert(at_level(verdicts, a) =~= Seq::<ProcessVerdictView>::empty());
        assert(at_level(at_level(verdicts, a), b) =~= Seq::<ProcessVerdictView>::empty());
    }
}

/// The three levels split a list: their lengths add up to its length.
proof fn lemma_levels_partition(verdicts: Seq<ProcessVerdictView>)
    ensures
        at_level(verdicts, RiskLevel::Suspicious).len() + at_level(verdicts, RiskLevel::Review).len()
            + at_level(verdicts, RiskLevel::Trusted).len() == verdicts.len(),
    decreases verdicts.len(),
{
    if verdicts.len() > 0 {
        let rest = verdicts.drop_last();
        let last = verdicts.last();
        lemma_levels_partition(rest);
        assert(verdicts == rest.push(last));
        rest.lemma_filter_push(last, |v: ProcessVerdictView| v.risk == RiskLevel::Suspicious);
        rest.lemma_filter_push(last, |v: ProcessVerdictView| v.risk == RiskLevel::Review);
        rest.lemma_filter_push(last, |v: ProcessVerdictView| v.risk == RiskLevel::Trusted);
    } else {
        assert(at_level(verdicts, RiskLevel::Suspicious).len() == 0);
        assert(at_level(verdicts, RiskLevel::Review).len() == 0);
        assert(at_level(verdicts, RiskLevel::Trusted).len() == 0);
    }
}

/// Ordering worst-first loses and adds nothing, and keeps the order within
/// each risk level: the verdicts at any level are exactly those of the
/// input, in the same order, and there are as many verdicts as before.
pub proof fn lemma_worst_first_keeps_each_level(verdicts: Seq<ProcessVerdictView>, level: RiskLevel)
    ensures
        at_level(worst_first(verdicts), level) == at_level(verdicts, level),
        worst_first(verdicts).len() == verdicts.len(),
{
    let s = at_level(verdicts, RiskLevel::Suspicious);
    let r = at_level(verdicts, RiskLevel::Review);
    let t = at_level(verdicts, RiskLevel::Trusted);
    let p = |v: ProcessVerdictView| v.risk == level;
    Seq::filter_distributes_over_add(s + r, t, p);
    Seq::filter_distributes_over_add(s, r, p);
    lemma_at_level_twice(verdicts, RiskLevel::Suspicious, level);
    lemma_at_level_twice(verdicts, RiskLevel::Review, level);
    lemma_at_level_twice(verdicts, RiskLevel::Trusted, level);
    lemma_levels_partition(verdicts);
    if level == RiskLevel::Suspicious {
        assert(at_level(worst_first(verdicts), level) =~= s);
    } else if level == RiskLevel::Review {
        assert(at_level(worst_first(verdicts), level) =~= r);
    } else {
        assert(at_level(worst_first(verdicts), level) =~= t);
    }
}

/// Every verdict kept at a level has that level.
proof fn lemma_at_level_has_level(verdicts: Seq<ProcessVerdictView>, level: RiskLevel, i: int)
    requires
        0 <= i < at_level(verdicts, level).len(),
    ensures
        at_level(verdicts, level)[i].risk == level,
{
    let p = |v: ProcessVerdictView| v.risk == level;
    verdicts.lemma_filter_pred(p, i);
}

/// Ordering worst-first sorts by risk, most concerning first.
pub proof fn lemma_worst_first_is_sorted(verdicts: Seq<ProcessVerdictView>, i: int, j: int)
    requires
        0 <= i < j < worst_first(verdicts).len(),
    ensures
        worst_first(verdicts)[i].risk.rank() >= worst_first(verdicts)[j].risk.rank(),
{
    let s = at_level(verdicts, RiskLevel::Suspicious);
    let r = at_level(verdicts, RiskLevel::Review);
    let t = at_level(verdicts, RiskLevel::Trusted);
    let all = worst_first(verdicts);
    assert(all == s + r + t);
    if i < s.len() {
        lemma_at_level_has_level(verdicts, RiskLevel::Suspicious, i);
    } else if i < s.len() + r.len() {
        lemma_at_level_has_level(verdicts, RiskLevel::Review, i - s.len());
        if j < s.len() + r.len() {
            lemma_at_level_has_level(verdicts, RiskLevel::Review, j - s.len());
        } else {
            lemma_at_level_has_level(verdicts, RiskLevel::Trusted, j - s.len() - r.len());
        }
    } else {
        lemma_at_level_has_level(verdicts, RiskLevel::Trusted, i - s.len() - r.len());
        lemma_at_level_has_level(verdicts, RiskLevel::Trusted, j - s.len() - r.len());
    }
}

/// Appends, in order, the verdicts of `verdicts` at `level`.
fn append_level(out: &mut Vec<ProcessVerdict>, verdicts: &Vec<ProcessVerdict>, level: RiskLevel)
    ensures
        verdicts_view(final(out)@) == verdicts_view(old(out)@) + at_level(
            verdicts_view(verdicts@),
            level,
        ),
{
    let ghost all = verdicts_view(verdicts@);
    let ghost start = verdicts_view(out@);
    let ghost keep = |v: ProcessVerdictView| v.risk == level;
    let mut i: usize = 0;
    while i < verdicts.len()
        invariant
            i <= verdicts@.len(),
            all == verdicts_view(verdicts@),
            keep == (|v: ProcessVerdictView| v.risk == level),
            verdicts_view(out@) == start + all.take(i as int).filter(keep),
        decreases verdicts@.len() - i,
    {
        let verdict = &verdicts[i];
        proof {
            assert(all.take(i + 1) =~= all.take(i as int).push(verdict@));
            all.take(i as int).lemma_filter_push(verdict@, keep);
        }
        if verdict.risk == level {
            let ghost before = out@;
            out.push(verdict.clone());
            assert(verdicts_view(out@) =~= verdicts_view(before).push(verdict@));
        }
        i = i + 1;
    }
    assert(all.take(verdicts@.len() as int) =~= all);
}

/// Orders the verdicts worst-first. Same-risk verdicts keep their order, so
/// a list in PID order stays in PID order within each level.
pub fn sort_worst_first(verdicts: &mut Vec<ProcessVerdict>)
    ensures
        verdicts_view(final(verdicts)@) == worst_first(verdicts_view(old(verdicts)@)),
{
    let mut ordered: Vec<ProcessVerdict> = Vec::new();
    append_level(&mut ordered, verdicts, RiskLevel::Suspicious);
    append_level(&mut ordered, verdicts, RiskLevel::Review);
    append_level(&mut ordered, verdicts, RiskLevel::Trusted);
    assert(verdicts_view(Seq::<ProcessVerdict>::empty()) =~= Seq::<ProcessVerdictView>::empty());
    *verdicts = ordered;
}

/// How many of the verdicts are at `level`.
pub fn count_at_level(verdicts: &Vec<ProcessVerdict>, level: RiskLevel) -> (count: usize)
    ensures
        count == at_level(verdicts_view(verdicts@), level).len(),
{
    let ghost all = verdicts_view(verdicts@);
    let ghost keep = |v: ProcessVerdictView| v.risk == level;
    let mut count: usize = 0;
    let mut i: usize = 0;
    while i < verdicts.len()
        invariant
            i <= verdicts@.len(),
            all == verdicts_view(verdicts@),
            keep == (|v: ProcessVerdictView| v.risk == level),
            count == all.take(i as int).filter(keep).len(),
            count <= i,
        decreases verdicts@.len() - i,
    {
        let verdict = &verdicts[i];
        proof {
            assert(all.take(i + 1) =~= all.take(i as int).push(verdict@));
            all.take(i as int).lemma_filter_push(verdict@, keep);
        }
        if verdict.risk == level {
            count = count + 1;
        }
        i = i + 1;
    }
    assert(all.take(verdicts@.len() as int) =~= all);
    count
}

/// The summary line above the table, followed by a blank line.
pub open spec fn scan_summary_text(verdicts: Seq<ProcessVerdictView>) -> Seq<char> {
    "Scanned "@ + decimal_text(verdicts.len()) + " processes: "@ + decimal_text(
        at_level(verdicts, RiskLevel::Suspicious).len(),
    ) + " suspicious, "@ + decimal_text(at_level(verdicts, RiskLevel::Review).len())
        + " to review.\n\n"@
}

/// The summary line: how many processes were scanned, how many are
/// suspicious and how many are worth a review.
pub fn scan_summary(verdicts: &Vec<ProcessVerdict>) -> (text: String)
    ensures
        text@ == scan_summary_text(verdicts_view(verdicts@)),
{
    let suspicious = count_at_level(verdicts, RiskLevel::Suspicious);
    let review = count_at_level(verdicts, RiskLevel::Review);
    let mut out = String::new();
    out.append("Scanned ");
    push_count(&mut out, verdicts.len());
    out.append(" processes: ");
    push_count(&mut out, suspicious);
    out.append(" suspicious, ");
    push_count(&mut out, review);
    out.append(" to review.\n\n");
    assert(verdicts_view(verdicts@).len() == verdicts@.len());
    assert(out@ =~= scan_summary_text(verdicts_view(verdicts@)));
    out
}

/// The report `scan` prints: every process classified, the verdicts ordered
/// worst-first, the summary line, then the table -- the plain one exactly as
/// stated when colour is off, and the rich one when it is on, its rows in
/// the same worst-first order (and, when every cell fits on one line,
/// nothing but those rows and the border rules).
pub fn scan_report<R: RiskRule, K: ProcessKnowledgeRepository>(
    processes: &[ProcessInfo],
    classifier: &Classifier<R, K>,
    style: RenderStyle,
) -> (text: String)
    ensures
        exists|table: Seq<char>|
            text@ == scan_summary_text(worst_first(classifier.verdicts_for(processes@))) + table,
        !style.color ==> text@ == scan_summary_text(
            worst_first(classifier.verdicts_for(processes@)),
        ) + plain_table(view_rows(worst_first(classifier.verdicts_for(processes@)))),
        style.color ==> exists|table: Seq<char>|
            {
                &&& text@ == scan_summary_text(worst_first(classifier.verdicts_for(processes@)))
                    + table
                &&& table_drawn(
                    table,
                    header_texts(),
                    view_rich_rows(worst_first(classifier.verdicts_for(processes@)), style),
                    true,
                )
                &&& all_single_line(
                    header_texts(),
                    view_rich_rows(worst_first(classifier.verdicts_for(processes@)), style),
                ) ==> box_layout(
                    table,
                    header_texts(),
                    view_rich_rows(worst_first(classifier.verdicts_for(processes@)), style),
                )
            },
{
    let mut verdicts = classifier.classify_all(processes);
    sort_worst_first(&mut verdicts);
    let mut out = scan_summary(&verdicts);
    let table = render_verdict_table(verdicts.as_slice(), style);
    let ghost summary = out@;
    out.append(table.as_str());
    proof {
        let ordered = worst_first(classifier.verdicts_for(processes@));
        assert(verdicts_view(verdicts@) == ordered);
        assert(out@ == summary + table@);
        lemma_rows_of_views(verdicts@);
        lemma_rich_rows_of_views(verdicts@, style);
    }
    out
}

} // verus!
