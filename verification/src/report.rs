//! Turns classified processes into a table for the terminal.
//!
//! Two renderers behind one entry point, chosen by [`RenderStyle::color`]:
//! a plain, borderless, monochrome table for pipes, and a rich box-drawn
//! table with a coloured RISK column and a PATH column truncated to the
//! terminal width, drawn by `comfy-table`.

use vstd::prelude::*;

use comfy_table::Cell as TableCell;
use comfy_table::{Attribute, CellAlignment, Color};

use crate::process::{ProcessInfoView, ProcessVerdict, ProcessVerdictView, RiskLevel};
use crate::render::{
    RenderStyle, RiskPaint, category_label, category_label_text, lemma_truncated_fits, risk_label,
    risk_label_text, risk_paint, risk_style, truncate_middle, truncated,
};
use crate::text::{decimal, decimal_text, joined, push_spaces, spaces, texts_view};

verus! {

/// `comfy_table::Table`: the box-drawn table the rich renderer hands its
/// rows to. Opaque here; what it holds is named by [`table_header`] and
/// [`table_rows`].
#[verifier::external_type_specification]
#[verifier::external_body]
pub struct ExTable(comfy_table::Table);

/// The column headers, left to right.
pub const HEADERS: [&'static str; 5] = ["RISK", "PID", "NAME", "CATEGORY", "PATH"];

/// The column headers, as character sequences.
pub open spec fn header_texts() -> Seq<Seq<char>> {
    seq!["RISK"@, "PID"@, "NAME"@, "CATEGORY"@, "PATH"@]
}

/// The headers as owned strings.
fn header_cells() -> (cells: [String; 5])
    ensures
        texts_view(cells@) == header_texts(),
{
    let cells = [
        String::from_str("RISK"),
        String::from_str("PID"),
        String::from_str("NAME"),
        String::from_str("CATEGORY"),
        String::from_str("PATH"),
    ];
    assert(texts_view(cells@) =~= header_texts());
    cells
}

/// What the PATH column shows for a process: its path, or `(restricted)`
/// when the OS withheld it.
pub open spec fn path_cell_text(process: ProcessInfoView) -> Seq<char> {
    match process.executable_path {
        Some(path) => path,
        None => "(restricted)"@,
    }
}

/// The cells of a verdict's row, left to right: its risk, its PID, its
/// name, its category and its path.
pub open spec fn row_texts(verdict: ProcessVerdictView) -> Seq<Seq<char>> {
    seq![
        risk_label_text(verdict.risk),
        decimal_text(verdict.process.pid as nat),
        verdict.process.name,
        category_label_text(verdict.category),
        path_cell_text(verdict.process),
    ]
}

/// The rows of a list of verdicts.
pub open spec fn rows_of(verdicts: Seq<ProcessVerdict>) -> Seq<Seq<Seq<char>>> {
    verdicts.map_values(|v: ProcessVerdict| row_texts(v@))
}

/// The rows of a list of verdicts, given by their views.
pub open spec fn view_rows(verdicts: Seq<ProcessVerdictView>) -> Seq<Seq<Seq<char>>> {
    verdicts.map_values(|v: ProcessVerdictView| row_texts(v))
}

/// The rows of a list of verdicts depend only on the verdicts' views.
pub proof fn lemma_rows_of_views(verdicts: Seq<ProcessVerdict>)
    ensures
        rows_of(verdicts) == view_rows(verdicts.map_values(|v: ProcessVerdict| v@)),
{
    assert(rows_of(verdicts) =~= view_rows(verdicts.map_values(|v: ProcessVerdict| v@)));
}

/// Builds the five display strings for one verdict, shared by both renderers.
pub fn row_cells(verdict: &ProcessVerdict) -> (cells: [String; 5])
    ensures
        texts_view(cells@) == row_texts(verdict@),
{
    let path = match &verdict.process.executable_path {
        Some(path) => path.clone(),
        None => String::from_str("(restricted)"),
    };
    let cells = [
        String::from_str(risk_label(verdict.risk)),
        decimal(verdict.process.pid),
        verdict.process.name.clone(),
        String::from_str(category_label(verdict.category)),
        path,
    ];
    assert(texts_view(cells@) =~= row_texts(verdict@));
    cells
}

/// The length in bytes of a text's UTF-8 encoding (what `str::len` counts).
pub open spec fn byte_len(text: Seq<char>) -> nat {
    vstd::utf8::encode_utf8(text).len()
}

/// The length `str::len` reports for a text: its byte length as a `usize`.
pub open spec fn reported_len(text: Seq<char>) -> nat {
    (byte_len(text) as usize) as nat
}

/// A text never has more characters than its UTF-8 encoding has bytes.
pub proof fn lemma_chars_at_most_bytes(text: Seq<char>)
    ensures
        text.len() <= byte_len(text),
    decreases text.len(),
{
    if text.len() > 0 {
        lemma_chars_at_most_bytes(text.drop_first());
        assert(vstd::utf8::encode_scalar(text[0] as u32).len() >= 1);
    }
}

/// The width of column `column`: the widest, in bytes, of its header and of
/// its cell in every row.
pub open spec fn column_width(rows: Seq<Seq<Seq<char>>>, column: int) -> nat
    decreases rows.len(),
{
    if rows.len() == 0 {
        reported_len(header_texts()[column])
    } else {
        let earlier = column_width(rows.drop_last(), column);
        let here = reported_len(rows.last()[column]);
        if here > earlier {
            here
        } else {
            earlier
        }
    }
}

/// Every cell of a column, and its header, fits in the column's width.
pub proof fn lemma_column_width_bounds(rows: Seq<Seq<Seq<char>>>, column: int)
    ensures
        reported_len(header_texts()[column]) <= column_width(rows, column),
        forall|r: int|
            0 <= r < rows.len() ==> reported_len(#[trigger] rows[r][column]) <= column_width(
                rows,
                column,
            ),
    decreases rows.len(),
{
    if rows.len() > 0 {
        lemma_column_width_bounds(rows.drop_last(), column);
        assert forall|r: int| 0 <= r < rows.len() implies reported_len(#[trigger] rows[r][column])
            <= column_width(rows, column) by {
            if r < rows.len() - 1 {
                assert(rows[r] == rows.drop_last()[r]);
            }
        }
    }
}

/// The headers are short ASCII words, one byte per character.
proof fn lemma_header_byte_lengths()
    ensures
        forall|i: int| 0 <= i < 4 ==> #[trigger] byte_len(header_texts()[i]) == header_texts()[i].len(),
{
    reveal_strlit("RISK");
    reveal_strlit("PID");
    reveal_strlit("NAME");
    reveal_strlit("CATEGORY");
    assert(vstd::utf8::is_ascii_chars("RISK"@));
    assert(vstd::utf8::is_ascii_chars("PID"@));
    assert(vstd::utf8::is_ascii_chars("NAME"@));
    assert(vstd::utf8::is_ascii_chars("CATEGORY"@));
    vstd::utf8::is_ascii_chars_encode_utf8("RISK"@);
    vstd::utf8::is_ascii_chars_encode_utf8("PID"@);
    vstd::utf8::is_ascii_chars_encode_utf8("NAME"@);
    vstd::utf8::is_ascii_chars_encode_utf8("CATEGORY"@);
    assert forall|i: int| 0 <= i < 4 implies #[trigger] byte_len(header_texts()[i])
        == header_texts()[i].len() by {
        if i == 0 {
        } else if i == 1 {
        } else if i == 2 {
        } else {
        }
    }
}

/// `text` left-aligned in a field of `width` characters.
pub open spec fn pad_after(text: Seq<char>, width: nat) -> Seq<char> {
    if text.len() < width {
        text + spaces((width - text.len()) as nat)
    } else {
        text
    }
}

/// `text` right-aligned in a field of `width` characters.
pub open spec fn pad_before(text: Seq<char>, width: nat) -> Seq<char> {
    if text.len() < width {
        spaces((width - text.len()) as nat) + text
    } else {
        text
    }
}

/// One line of the plain table: the first four cells padded to their column
/// widths (the PID right-aligned, the others left-aligned), two spaces between
/// columns, the PATH unpadded, then a newline.
pub open spec fn plain_line(cells: Seq<Seq<char>>, widths: Seq<nat>) -> Seq<char> {
    pad_after(cells[0], widths[0]) + "  "@ + pad_before(cells[1], widths[1]) + "  "@ + pad_after(
        cells[2],
        widths[2],
    ) + "  "@ + pad_after(cells[3], widths[3]) + "  "@ + cells[4] + "\n"@
}

/// The widths of the first four columns.
pub open spec fn plain_widths(rows: Seq<Seq<Seq<char>>>) -> Seq<nat> {
    seq![column_width(rows, 0), column_width(rows, 1), column_width(rows, 2), column_width(rows, 3)]
}

/// The lines of the plain table: the header, then one line per row.
pub open spec fn plain_lines(rows: Seq<Seq<Seq<char>>>) -> Seq<Seq<char>> {
    seq![header_texts()].add(rows).map_values(|cells: Seq<Seq<char>>| plain_line(cells, plain_widths(rows)))
}

/// Lines written one after the other.
pub open spec fn concat_lines(lines: Seq<Seq<char>>) -> Seq<char>
    decreases lines.len(),
{
    if lines.len() == 0 {
        Seq::empty()
    } else {
        concat_lines(lines.drop_last()) + lines.last()
    }
}

/// The plain table for a list of rows.
pub open spec fn plain_table(rows: Seq<Seq<Seq<char>>>) -> Seq<char> {
    concat_lines(plain_lines(rows))
}

/// The column at which the PATH field starts on every line: the four padded
/// columns and the four two-space gaps before it.
pub open spec fn path_column(widths: Seq<nat>) -> nat {
    widths[0] + widths[1] + widths[2] + widths[3] + 8
}

/// A plain line puts its PATH field at [`path_column`], whatever the cells,
/// as long as every padded cell fits its width.
pub proof fn lemma_plain_line_path_column(cells: Seq<Seq<char>>, widths: Seq<nat>)
    requires
        cells.len() == 5,
        widths.len() == 4,
        forall|i: int| 0 <= i < 4 ==> #[trigger] cells[i].len() <= widths[i],
    ensures
        plain_line(cells, widths).len() == path_column(widths) + cells[4].len() + 1,
        plain_line(cells, widths).subrange(
            path_column(widths) as int,
            (path_column(widths) + cells[4].len()) as int,
        ) == cells[4],
{
    reveal_strlit("  ");
    reveal_strlit("\n");
    assert(cells[0].len() <= widths[0]);
    assert(cells[1].len() <= widths[1]);
    assert(pad_after(cells[0], widths[0]).len() == widths[0]);
    assert(pad_before(cells[1], widths[1]).len() == widths[1]);
    assert(pad_after(cells[2], widths[2]).len() == widths[2]);
    assert(pad_after(cells[3], widths[3]).len() == widths[3]);
    assert(cells[2].len() <= widths[2]);
    assert(cells[3].len() <= widths[3]);
    let prefix = pad_after(cells[0], widths[0]) + "  "@ + pad_before(cells[1], widths[1]) + "  "@
        + pad_after(cells[2], widths[2]) + "  "@ + pad_after(cells[3], widths[3]) + "  "@;
    assert(prefix.len() == path_column(widths));
    assert(plain_line(cells, widths) == prefix + cells[4] + "\n"@);
    assert((prefix + cells[4] + "\n"@).subrange(
        prefix.len() as int,
        (prefix.len() + cells[4].len()) as int,
    ) =~= cells[4]);
}

/// The columns of the plain table are aligned: on the header line and on
/// every row's line, the PATH field starts at the same column. (The widths
/// are measured in bytes, which is never fewer than characters, so every
/// padded cell fits.)
pub proof fn lemma_plain_columns_aligned(rows: Seq<Seq<Seq<char>>>)
    requires
        forall|r: int| 0 <= r < rows.len() ==> (#[trigger] rows[r]).len() == 5,
        forall|r: int, i: int|
            0 <= r < rows.len() && 0 <= i < 4 ==> byte_len(#[trigger] rows[r][i]) <= usize::MAX,
    ensures
        ({
            let lines = plain_lines(rows);
            let cells = seq![header_texts()].add(rows);
            let at = path_column(plain_widths(rows));
            forall|l: int|
                0 <= l < lines.len() ==> (#[trigger] lines[l]).subrange(
                    at as int,
                    (at + cells[l][4].len()) as int,
                ) == cells[l][4]
        }),
{
    let cells = seq![header_texts()].add(rows);
    let widths = plain_widths(rows);
    assert forall|l: int| 0 <= l < cells.len() implies (#[trigger] plain_lines(rows)[l]).subrange(
        path_column(widths) as int,
        (path_column(widths) + cells[l][4].len()) as int,
    ) == cells[l][4] by {
        assert forall|i: int| 0 <= i < 4 implies #[trigger] cells[l][i].len() <= widths[i] by {
            lemma_cell_fits(rows, l, i);
        }
        if l > 0 {
            assert(cells[l] == rows[l - 1]);
        }
        lemma_plain_line_path_column(cells[l], widths);
    }
}

/// One cell of the plain table fits the width of its column.
proof fn lemma_cell_fits(rows: Seq<Seq<Seq<char>>>, l: int, i: int)
    requires
        0 <= l <= rows.len(),
        0 <= i < 4,
        forall|r: int| 0 <= r < rows.len() ==> (#[trigger] rows[r]).len() == 5,
        forall|r: int, i: int|
            0 <= r < rows.len() && 0 <= i < 4 ==> byte_len(#[trigger] rows[r][i]) <= usize::MAX,
    ensures
        (seq![header_texts()].add(rows))[l][i].len() <= plain_widths(rows)[i],
{
    let cells = seq![header_texts()].add(rows);
    let cell = cells[l][i];
    lemma_column_width_bounds(rows, i);
    lemma_chars_at_most_bytes(cell);
    if l > 0 {
        assert(cells[l] == rows[l - 1]);
        assert(cell == rows[l - 1][i]);
        assert(byte_len(rows[l - 1][i]) <= usize::MAX);
        assert(reported_len(cell) == byte_len(cell));
        assert(reported_len(rows[l - 1][i]) <= column_width(rows, i));
    } else {
        lemma_header_byte_lengths();
        assert(cell == header_texts()[i]);
        assert(byte_len(header_texts()[i]) == header_texts()[i].len());
        assert(header_texts()[i].len() <= 8) by {
            reveal_strlit("RISK");
            reveal_strlit("PID");
            reveal_strlit("NAME");
            reveal_strlit("CATEGORY");
        }
        assert(reported_len(cell) == byte_len(cell));
        assert(reported_len(header_texts()[i]) <= column_width(rows, i));
    }
    assert(plain_widths(rows)[i] == column_width(rows, i));
}

/// Whether a text is free of the character `c`.
pub open spec fn lacks(text: Seq<char>, c: char) -> bool {
    forall|i: int| 0 <= i < text.len() ==> #[trigger] text[i] != c
}

/// Joining two texts free of `c` gives a text free of `c`.
proof fn lemma_concat_lacks(a: Seq<char>, b: Seq<char>, c: char)
    requires
        lacks(a, c),
        lacks(b, c),
    ensures
        lacks(a + b, c),
{
    assert forall|i: int| 0 <= i < (a + b).len() implies #[trigger] (a + b)[i] != c by {
        if i >= a.len() {
            assert((a + b)[i] == b[i - a.len()]);
        }
    }
}

/// Padding with spaces brings in no escape character.
proof fn lemma_padding_lacks_escape(text: Seq<char>, width: nat)
    requires
        lacks(text, '\x1b'),
    ensures
        lacks(pad_after(text, width), '\x1b'),
        lacks(pad_before(text, width), '\x1b'),
{
    if text.len() < width {
        let fill = spaces((width - text.len()) as nat);
        assert(lacks(fill, '\x1b'));
        lemma_concat_lacks(text, fill, '\x1b');
        lemma_concat_lacks(fill, text, '\x1b');
    }
}

/// A line of the plain table is free of escapes when its cells are.
proof fn lemma_plain_line_lacks_escape(cells: Seq<Seq<char>>, widths: Seq<nat>)
    requires
        cells.len() == 5,
        widths.len() == 4,
        forall|i: int| 0 <= i < 5 ==> lacks(#[trigger] cells[i], '\x1b'),
    ensures
        lacks(plain_line(cells, widths), '\x1b'),
{
    reveal_strlit("  ");
    reveal_strlit("\n");
    let e = '\x1b';
    assert(lacks(cells[0], e) && lacks(cells[1], e) && lacks(cells[2], e) && lacks(cells[3], e)
        && lacks(cells[4], e));
    lemma_padding_lacks_escape(cells[0], widths[0]);
    lemma_padding_lacks_escape(cells[1], widths[1]);
    lemma_padding_lacks_escape(cells[2], widths[2]);
    lemma_padding_lacks_escape(cells[3], widths[3]);
    let gap = "  "@;
    assert(lacks(gap, e));
    assert(lacks("\n"@, e));
    let p0 = pad_after(cells[0], widths[0]) + gap;
    lemma_concat_lacks(pad_after(cells[0], widths[0]), gap, e);
    let p1 = p0 + pad_before(cells[1], widths[1]);
    lemma_concat_lacks(p0, pad_before(cells[1], widths[1]), e);
    let p2 = p1 + gap;
    lemma_concat_lacks(p1, gap, e);
    let p3 = p2 + pad_after(cells[2], widths[2]);
    lemma_concat_lacks(p2, pad_after(cells[2], widths[2]), e);
    let p4 = p3 + gap;
    lemma_concat_lacks(p3, gap, e);
    let p5 = p4 + pad_after(cells[3], widths[3]);
    lemma_concat_lacks(p4, pad_after(cells[3], widths[3]), e);
    let p6 = p5 + gap;
    lemma_concat_lacks(p5, gap, e);
    let p7 = p6 + cells[4];
    lemma_concat_lacks(p6, cells[4], e);
    lemma_concat_lacks(p7, "\n"@, e);
    assert(plain_line(cells, widths) == p7 + "\n"@);
}

/// Lines free of escapes join into a text free of escapes.
proof fn lemma_lines_lack_escape(lines: Seq<Seq<char>>)
    requires
        forall|l: int| 0 <= l < lines.len() ==> lacks(#[trigger] lines[l], '\x1b'),
    ensures
        lacks(concat_lines(lines), '\x1b'),
    decreases lines.len(),
{
    if lines.len() > 0 {
        lemma_lines_lack_escape(lines.drop_last());
        assert(lacks(lines[lines.len() - 1], '\x1b'));
        lemma_concat_lacks(concat_lines(lines.drop_last()), lines.last(), '\x1b');
    }
}

/// The plain table carries no escape sequence: no character of it is ESC
/// unless one of the cells brought it, so it is safe to pipe.
pub proof fn lemma_plain_table_has_no_escapes(rows: Seq<Seq<Seq<char>>>)
    requires
        forall|r: int| 0 <= r < rows.len() ==> (#[trigger] rows[r]).len() == 5,
        forall|r: int, i: int|
            0 <= r < rows.len() && 0 <= i < 5 ==> lacks(#[trigger] rows[r][i], '\x1b'),
    ensures
        lacks(plain_table(rows), '\x1b'),
{
    reveal_strlit("RISK");
    reveal_strlit("PID");
    reveal_strlit("NAME");
    reveal_strlit("CATEGORY");
    reveal_strlit("PATH");
    let cells = seq![header_texts()].add(rows);
    let widths = plain_widths(rows);
    let lines = plain_lines(rows);
    assert forall|l: int| 0 <= l < lines.len() implies lacks(#[trigger] lines[l], '\x1b') by {
        if l == 0 {
            assert(cells[0] == header_texts());
            assert forall|i: int| 0 <= i < 5 implies lacks(#[trigger] cells[0][i], '\x1b') by {
                if i == 0 {
                } else if i == 1 {
                } else if i == 2 {
                } else if i == 3 {
                } else {
                }
            }
        } else {
            assert(cells[l] == rows[l - 1]);
            assert forall|i: int| 0 <= i < 5 implies lacks(#[trigger] cells[l][i], '\x1b') by {
                assert(lacks(rows[l - 1][i], '\x1b'));
            }
        }
        lemma_plain_line_lacks_escape(cells[l], widths);
    }
    lemma_lines_lack_escape(lines);
}

/// Appends `text` left-aligned in a field of `width` characters.
pub(crate) fn push_padded_after(out: &mut String, text: &str, width: usize)
    ensures
        final(out)@ == old(out)@ + pad_after(text@, width as nat),
{
    let count = text.unicode_len();
    out.append(text);
    if count < width {
        let ghost before = out@;
        push_spaces(out, width - count);
        assert(out@ == before + spaces((width - count) as nat));
    }
}

/// Appends `text` right-aligned in a field of `width` characters.
fn push_padded_before(out: &mut String, text: &str, width: usize)
    ensures
        final(out)@ == old(out)@ + pad_before(text@, width as nat),
{
    let count = text.unicode_len();
    if count < width {
        push_spaces(out, width - count);
    }
    out.append(text);
}

/// Appends one line of the plain table.
fn push_plain_line(
    out: &mut String,
    cells: &[String; 5],
    w0: usize,
    w1: usize,
    w2: usize,
    w3: usize,
)
    ensures
        final(out)@ == old(out)@ + plain_line(
            texts_view(cells@),
            seq![w0 as nat, w1 as nat, w2 as nat, w3 as nat],
        ),
{
    let ghost start = out@;
    push_padded_after(out, cells[0].as_str(), w0);
    out.append("  ");
    push_padded_before(out, cells[1].as_str(), w1);
    out.append("  ");
    push_padded_after(out, cells[2].as_str(), w2);
    out.append("  ");
    push_padded_after(out, cells[3].as_str(), w3);
    out.append("  ");
    out.append(cells[4].as_str());
    out.append("\n");
    let ghost c = texts_view(cells@);
    assert(c[0] == cells[0]@ && c[1] == cells[1]@ && c[2] == cells[2]@ && c[3] == cells[3]@ && c[4]
        == cells[4]@);
    assert(out@ =~= start + plain_line(c, seq![w0 as nat, w1 as nat, w2 as nat, w3 as nat]));
}

/// The wider of a width and a cell's length in bytes.
fn widen(width: usize, cell: &String) -> (wider: usize)
    ensures
        wider == (if reported_len(cell@) > width { reported_len(cell@) } else { width as nat }),
{
    let length = cell.as_str().len();
    if length > width {
        length
    } else {
        width
    }
}

/// The display rows of a list of verdicts.
fn rows_for(verdicts: &[ProcessVerdict]) -> (rows: Vec<[String; 5]>)
    ensures
        rows@.map_values(|cells: [String; 5]| texts_view(cells@)) == rows_of(verdicts@),
{
    let mut rows: Vec<[String; 5]> = Vec::new();
    let mut i: usize = 0;
    while i < verdicts.len()
        invariant
            i <= verdicts@.len(),
            rows@.len() == i,
            forall|j: int| 0 <= j < i ==> texts_view(#[trigger] rows@[j]@) == row_texts(verdicts@[j]@),
        decreases verdicts@.len() - i,
    {
        rows.push(row_cells(&verdicts[i]));
        i = i + 1;
    }
    assert(rows@.map_values(|cells: [String; 5]| texts_view(cells@)) =~= rows_of(verdicts@));
    rows
}

/// The widths of the first four columns of the plain table.
fn plain_column_widths(rows: &Vec<[String; 5]>) -> (widths: (usize, usize, usize, usize))
    ensures
        seq![widths.0 as nat, widths.1 as nat, widths.2 as nat, widths.3 as nat] == plain_widths(
            rows@.map_values(|cells: [String; 5]| texts_view(cells@)),
        ),
{
    let ghost all = rows@.map_values(|cells: [String; 5]| texts_view(cells@));
    let headers = header_cells();
    let mut w0 = headers[0].as_str().len();
    let mut w1 = headers[1].as_str().len();
    let mut w2 = headers[2].as_str().len();
    let mut w3 = headers[3].as_str().len();
    assert(all.take(0) =~= Seq::<Seq<Seq<char>>>::empty());
    let mut r: usize = 0;
    while r < rows.len()
        invariant
            r <= rows@.len(),
            all == rows@.map_values(|cells: [String; 5]| texts_view(cells@)),
            w0 == column_width(all.take(r as int), 0),
            w1 == column_width(all.take(r as int), 1),
            w2 == column_width(all.take(r as int), 2),
            w3 == column_width(all.take(r as int), 3),
        decreases rows@.len() - r,
    {
        proof {
            let seen = all.take(r + 1);
            assert(seen.drop_last() == all.take(r as int));
            assert(seen.last() == texts_view(rows@[r as int]@));
        }
        w0 = widen(w0, &rows[r][0]);
        w1 = widen(w1, &rows[r][1]);
        w2 = widen(w2, &rows[r][2]);
        w3 = widen(w3, &rows[r][3]);
        r = r + 1;
    }
    assert(all.take(rows@.len() as int) == all);
    (w0, w1, w2, w3)
}

/// The plain, borderless, monochrome table (no truncation).
pub fn render_plain(verdicts: &[ProcessVerdict]) -> (table: String)
    ensures
        table@ == plain_table(rows_of(verdicts@)),
{
    let rows = rows_for(verdicts);
    let ghost all = rows_of(verdicts@);
    let (w0, w1, w2, w3) = plain_column_widths(&rows);
    let ghost widths = seq![w0 as nat, w1 as nat, w2 as nat, w3 as nat];
    let ghost lines = plain_lines(all);
    let headers = header_cells();
    let mut output = String::new();
    push_plain_line(&mut output, &headers, w0, w1, w2, w3);
    proof {
        assert(lines[0] == plain_line(header_texts(), widths));
        let first = lines.take(1);
        assert(first.drop_last() =~= Seq::<Seq<char>>::empty());
        assert(first.last() == lines[0]);
        assert(concat_lines(first) == concat_lines(first.drop_last()) + first.last());
        assert(output@ =~= concat_lines(first));
    }
    let mut i: usize = 0;
    while i < rows.len()
        invariant
            i <= rows@.len(),
            all == rows@.map_values(|cells: [String; 5]| texts_view(cells@)),
            lines == plain_lines(all),
            lines.len() == rows@.len() + 1,
            widths == seq![w0 as nat, w1 as nat, w2 as nat, w3 as nat],
            widths == plain_widths(all),
            output@ == concat_lines(lines.take(i + 1)),
        decreases rows@.len() - i,
    {
        push_plain_line(&mut output, &rows[i], w0, w1, w2, w3);
        proof {
            let next = lines.take(i + 2);
            assert(next.drop_last() == lines.take(i + 1));
            assert(next.last() == lines[i + 1]);
            assert(lines[i + 1] == plain_line(all[i as int], widths));
        }
        i = i + 1;
    }
    assert(lines.take((rows@.len() + 1) as int) == lines);
    output
}

/// How a cell of the rich table is drawn: unstyled, right-aligned, or in a
/// style of the risk palette.
#[derive(Clone, Copy, Debug, PartialEq, Eq)]
pub enum CellLook {
    Plain,
    RightAligned,
    Painted(RiskPaint),
}

/// One cell of the rich table: its text and how it is drawn.
pub struct RichCell {
    pub text: String,
    pub look: CellLook,
}

/// The cells of a row, each as its text and its look.
pub open spec fn rich_cells_view(cells: Seq<RichCell>) -> Seq<(Seq<char>, CellLook)> {
    cells.map_values(|cell: RichCell| (cell.text@, cell.look))
}

/// The header row of a `comfy_table::Table`, one text per column (empty when
/// no header was set).
pub uninterp spec fn table_header(table: comfy_table::Table) -> Seq<Seq<char>>;

/// The data rows of a `comfy_table::Table`, in the order they were added,
/// each as its cells' texts and looks.
pub uninterp spec fn table_rows(table: comfy_table::Table) -> Seq<Seq<(Seq<char>, CellLook)>>;

/// Whether a `comfy_table::Table` may wrap, cut or hide the text of a cell
/// when it is drawn: it does so when its content arrangement is dynamic,
/// when a column carries a width or visibility constraint, or when a row
/// has a height limit.
pub uninterp spec fn table_may_cut(table: comfy_table::Table) -> bool;

/// Whether `part` occurs in `text` as a run of consecutive characters.
pub open spec fn occurs_in(text: Seq<char>, part: Seq<char>) -> bool {
    exists|i: int| 0 <= i <= text.len() - part.len() && #[trigger] text.subrange(i, i + part.len()) == part
}

/// A cell text that comfy-table draws on one line and never needs to split:
/// no newline, and few enough characters that its display width (at most
/// three columns a character) fits the sixteen-bit width comfy-table keeps.
pub open spec fn single_line_text(text: Seq<char>) -> bool {
    &&& !text.contains('\n')
    &&& text.len() <= 21845
}

/// Whether a `comfy_table::Table` lays its cells out as comfy-table does
/// by default: each column padded by one space on either side, with no
/// alignment or delimiter of its own, and a styled cell styled as a whole
/// (not its text only).
pub uninterp spec fn table_default_cells(table: comfy_table::Table) -> bool;

/// Whether the left and right borders of a `comfy_table::Table` are drawn
/// with `│`, as its `UTF8_FULL` preset draws them.
pub uninterp spec fn table_box_drawn(table: comfy_table::Table) -> bool;

/// The lines of a text: the pieces between its newlines, as `str::split`
/// with `'\n'` gives them (a text with no newline is one line).
pub open spec fn text_lines(text: Seq<char>) -> Seq<Seq<char>>
    decreases text.len(),
{
    if text.len() == 0 {
        seq![Seq::<char>::empty()]
    } else {
        let earlier = text_lines(text.drop_last());
        if text.last() == '\n' {
            earlier.push(Seq::empty())
        } else {
            earlier.update(earlier.len() - 1, earlier.last().push(text.last()))
        }
    }
}

/// A line that starts and ends with the `│` border.
pub open spec fn framed_by_bars(line: Seq<char>) -> bool {
    &&& line.len() >= 2
    &&& line[0] == '│'
    &&& line[line.len() - 1] == '│'
}

/// A line shows, each unbroken, the text of every unstyled cell of a row
/// that fits on one line.
pub open spec fn line_shows_cells(line: Seq<char>, cells: Seq<(Seq<char>, CellLook)>) -> bool {
    forall|c: int|
        0 <= c < cells.len() && !(cells[c].1 is Painted) && single_line_text(#[trigger] cells[c].0)
            ==> occurs_in(line, cells[c].0)
}

/// The header texts as a row of unstyled cells.
pub open spec fn header_row(header: Seq<Seq<char>>) -> Seq<(Seq<char>, CellLook)> {
    header.map_values(|text: Seq<char>| (text, CellLook::Plain))
}

/// The drawn `text` of a table puts the header row and then each data row,
/// in order, on lines of their own: there are lines, one per row and
/// further down the text for each later row, on which each row's unstyled
/// one-line cells appear unbroken -- and, when `boxed`, each of those lines
/// starts and ends with the `│` border.
pub open spec fn table_drawn(
    text: Seq<char>,
    header: Seq<Seq<char>>,
    rows: Seq<Seq<(Seq<char>, CellLook)>>,
    boxed: bool,
) -> bool {
    let lines = text_lines(text);
    let all = seq![header_row(header)] + rows;
    exists|at: Seq<int>|
        {
            &&& at.len() == all.len()
            &&& forall|i: int, j: int| 0 <= i < j < at.len() ==> #[trigger] at[i] < #[trigger] at[j]
            &&& forall|i: int|
                0 <= i < at.len() ==> {
                    &&& 0 <= #[trigger] at[i] < lines.len()
                    &&& line_shows_cells(lines[at[i]], all[i])
                    &&& boxed ==> framed_by_bars(lines[at[i]])
                }
        }
}

/// A character of the `UTF8_FULL` border preset.
pub open spec fn is_border_char(c: char) -> bool {
    ||| c == '│'
    ||| c == '─'
    ||| c == '╞'
    ||| c == '═'
    ||| c == '╪'
    ||| c == '╡'
    ||| c == '┆'
    ||| c == '╌'
    ||| c == '┼'
    ||| c == '├'
    ||| c == '┤'
    ||| c == '┬'
    ||| c == '┴'
    ||| c == '┌'
    ||| c == '┐'
    ||| c == '└'
    ||| c == '┘'
}

/// A line drawn only with border characters (a top, separator or bottom
/// rule).
pub open spec fn border_line(line: Seq<char>) -> bool {
    forall|i: int| 0 <= i < line.len() ==> is_border_char(#[trigger] line[i])
}

/// A character that can occur in an SGR escape sequence (`ESC [ 38;5;9 m`
/// and the like).
pub open spec fn is_escape_char(c: char) -> bool {
    ||| c == '\x1b'
    ||| c == '['
    ||| c == ';'
    ||| c == ':'
    ||| c == 'm'
    ||| ('0' <= c && c <= '9')
}

/// A run made only of escape-sequence characters (possibly empty).
pub open spec fn escape_run(text: Seq<char>) -> bool {
    forall|i: int| 0 <= i < text.len() ==> is_escape_char(#[trigger] text[i])
}

/// A run made only of spaces.
pub open spec fn all_spaces(text: Seq<char>) -> bool {
    forall|i: int| 0 <= i < text.len() ==> #[trigger] text[i] == ' '
}

/// How one cell is drawn on its row's line: one space of padding on each
/// side, the text left-aligned (right-aligned for a right-aligned cell)
/// with spaces filling the column; a painted cell is that same run between
/// escape sequences, or nothing at all where the console takes no ANSI.
pub open spec fn cell_part(part: Seq<char>, cell: (Seq<char>, CellLook)) -> bool {
    match cell.1 {
        CellLook::Plain => exists|n: nat| part == seq![' '] + cell.0 + spaces(n) + seq![' '],
        CellLook::RightAligned => exists|n: nat| part == seq![' '] + spaces(n) + cell.0 + seq![' '],
        CellLook::Painted(_) => part.len() == 0 || exists|n: nat, pre: Seq<char>, post: Seq<char>|
            {
                &&& escape_run(pre)
                &&& escape_run(post)
                &&& part == pre + seq![' '] + cell.0 + spaces(n) + seq![' '] + post
            },
    }
}

/// A content line: `│`, one part per column separated by `┆`, then `│`;
/// each column holds its cell, and a column the row has no cell for holds
/// spaces.
pub open spec fn content_line(line: Seq<char>, cells: Seq<(Seq<char>, CellLook)>, columns: nat) -> bool {
    exists|parts: Seq<Seq<char>>|
        {
            &&& parts.len() == columns
            &&& line == seq!['│'] + joined(parts, seq!['┆']) + seq!['│']
            &&& forall|c: int|
                0 <= c < columns ==> if c < cells.len() {
                    cell_part(#[trigger] parts[c], cells[c])
                } else {
                    all_spaces(parts[c])
                }
        }
}

/// The number of columns of a table: the most cells in the header or in
/// any row.
pub open spec fn column_count(header: Seq<Seq<char>>, rows: Seq<Seq<(Seq<char>, CellLook)>>) -> nat
    decreases rows.len(),
{
    if rows.len() == 0 {
        header.len()
    } else {
        let earlier = column_count(header, rows.drop_last());
        if rows.last().len() > earlier {
            rows.last().len()
        } else {
            earlier
        }
    }
}

/// Every header text and every cell text fits on one line.
pub open spec fn all_single_line(header: Seq<Seq<char>>, rows: Seq<Seq<(Seq<char>, CellLook)>>) -> bool {
    &&& forall|c: int| 0 <= c < header.len() ==> single_line_text(#[trigger] header[c])
    &&& forall|r: int, c: int|
        0 <= r < rows.len() && 0 <= c < rows[r].len() ==> single_line_text(#[trigger] rows[r][c].0)
}

/// The whole drawn text of a box table, line by line: a top rule, the
/// header line, the header rule, then the rows in order with a rule between
/// consecutive rows, and a bottom rule. Rules are drawn only with border
/// characters; every other line is a content line of its row.
pub open spec fn box_layout(
    text: Seq<char>,
    header: Seq<Seq<char>>,
    rows: Seq<Seq<(Seq<char>, CellLook)>>,
) -> bool {
    let lines = text_lines(text);
    let columns = column_count(header, rows);
    &&& lines.len() == (if rows.len() == 0 {
        4
    } else {
        2 * rows.len() + 3
    })
    &&& forall|i: int|
        0 <= i < lines.len() ==> if i == 1 {
            content_line(#[trigger] lines[i], header_row(header), columns)
        } else if 3 <= i < lines.len() - 1 && (i - 3) % 2 == 0 {
            content_line(lines[i], rows[(i - 3) / 2], columns)
        } else {
            border_line(lines[i])
        }
}

/// Calls `comfy_table::Table::new`: a table with no header and no rows,
/// whose content arrangement is `Disabled`, with no columns yet (so no
/// column constraints). Its border style is not modelled.
#[verifier::external_body]
fn table_new() -> (table: comfy_table::Table)
    ensures
        table_header(table) == Seq::<Seq<char>>::empty(),
        table_rows(table) == Seq::<Seq<(Seq<char>, CellLook)>>::empty(),
        !table_may_cut(table),
        !table_box_drawn(table),
        table_default_cells(table),
{
    comfy_table::Table::new()
}

/// Calls `Table::load_preset` with `presets::UTF8_FULL`: box-drawing
/// borders, `│` on the left and right. Only the border characters change;
/// header and rows stay.
#[verifier::external_body]
fn table_use_box_borders(table: &mut comfy_table::Table)
    ensures
        table_header(*final(table)) == table_header(*old(table)),
        table_rows(*final(table)) == table_rows(*old(table)),
        table_may_cut(*final(table)) == table_may_cut(*old(table)),
        table_box_drawn(*final(table)),        table_default_cells(*final(table)) == table_default_cells(*old(table)),
{
    table.load_preset(comfy_table::presets::UTF8_FULL);
}

/// Calls `Table::set_content_arrangement` with `ContentArrangement::Disabled`,
/// so cells are never re-flowed. Header, rows, columns and row heights
/// stay.
#[verifier::external_body]
fn table_disable_arrangement(table: &mut comfy_table::Table)
    ensures
        table_header(*final(table)) == table_header(*old(table)),
        table_rows(*final(table)) == table_rows(*old(table)),
        !table_may_cut(*old(table)) ==> !table_may_cut(*final(table)),
        table_box_drawn(*final(table)) == table_box_drawn(*old(table)),        table_default_cells(*final(table)) == table_default_cells(*old(table)),
{
    table.set_content_arrangement(comfy_table::ContentArrangement::Disabled);
}

/// Calls `Table::enforce_styling`: colours are emitted even when stdout is
/// not a terminal. Header and rows stay.
#[verifier::external_body]
fn table_enforce_styling(table: &mut comfy_table::Table)
    ensures
        table_header(*final(table)) == table_header(*old(table)),
        table_rows(*final(table)) == table_rows(*old(table)),
        table_may_cut(*final(table)) == table_may_cut(*old(table)),
        table_box_drawn(*final(table)) == table_box_drawn(*old(table)),        table_default_cells(*final(table)) == table_default_cells(*old(table)),
{
    table.enforce_styling();
}

/// Calls `Table::set_header` with the five column titles. The rows stay;
/// the header row has no height limit, and any columns it adds carry no
/// constraint.
#[verifier::external_body]
fn table_set_header(table: &mut comfy_table::Table, header: [&'static str; 5])
    ensures
        table_header(*final(table)) == seq![header[0]@, header[1]@, header[2]@, header[3]@, header[4]@],
        table_rows(*final(table)) == table_rows(*old(table)),
        table_may_cut(*final(table)) == table_may_cut(*old(table)),
        table_box_drawn(*final(table)) == table_box_drawn(*old(table)),        table_default_cells(*final(table)) == table_default_cells(*old(table)),
{
    table.set_header(header);
}

/// Calls `Table::add_row` with one `comfy_table::Cell` per cell, each built
/// from the cell's text and styled as its look says. The row is appended
/// after the existing ones, with no height limit; any columns it adds carry
/// no constraint; the header stays.
#[verifier::external_body]
fn table_add_row(table: &mut comfy_table::Table, cells: &Vec<RichCell>)
    ensures
        table_header(*final(table)) == table_header(*old(table)),
        table_rows(*final(table)) == table_rows(*old(table)).push(rich_cells_view(cells@)),
        table_may_cut(*final(table)) == table_may_cut(*old(table)),
        table_box_drawn(*final(table)) == table_box_drawn(*old(table)),        table_default_cells(*final(table)) == table_default_cells(*old(table)),
{
    let row: Vec<TableCell> = cells.iter().map(|cell| match cell.look {
        CellLook::Plain => TableCell::new(&cell.text),
        CellLook::RightAligned => TableCell::new(&cell.text).set_alignment(CellAlignment::Right),
        CellLook::Painted(RiskPaint::Green) => TableCell::new(&cell.text).fg(Color::Green),
        CellLook::Painted(RiskPaint::Yellow) => TableCell::new(&cell.text).fg(Color::Yellow),
        CellLook::Painted(RiskPaint::BoldRed) => {
            TableCell::new(&cell.text).fg(Color::Red).add_attribute(Attribute::Bold)
        },
    }).collect();
    table.add_row(row);
}

/// Calls `Table::to_string`: the drawn lines joined by newlines. A header
/// is drawn first, then each row in order, a row's cells side by side on its
/// first line, each padded between border characters; a cell wider than its
/// column is split over several lines, and with a `Disabled` arrangement and
/// no constraints or height limits no column is narrower than its widest
/// cell (up to comfy-table's sixteen-bit width), so an unstyled one-line
/// cell's text appears unbroken on its row's line. With the `UTF8_FULL`
/// preset each of those lines starts and ends with `│`. What is not stated:
/// the rest of the layout (border lines, padding, widths), and anything
/// about styled cells, whose escapes depend on `NO_COLOR` and whose text
/// crossterm leaves out altogether on a Windows console without ANSI
/// support. A table without a header is not described. When every cell
/// fits on one line and the preset is `UTF8_FULL`, the lines are exactly
/// these: the top rule, the header, the header rule, the rows with a rule
/// between consecutive ones, and the bottom rule (`draw_borders` in
/// comfy-table); each row line holds one part per column, separated by `┆`,
/// a cell's part being its text padded by one space and filled to the
/// column's width, and a painted cell's part wrapped in SGR escapes (or,
/// on a console without ANSI support, empty). The column widths are not
/// stated.
#[verifier::external_body]
fn table_text(table: &comfy_table::Table) -> (text: String)
    ensures
        !table_may_cut(*table) && table_header(*table).len() > 0 ==> table_drawn(
            text@,
            table_header(*table),
            table_rows(*table),
            table_box_drawn(*table),
        ),
        !table_may_cut(*table) && table_box_drawn(*table) && table_default_cells(*table)
            && table_header(*table).len() > 0 && all_single_line(
            table_header(*table),
            table_rows(*table),
        ) ==> box_layout(
            text@,
            table_header(*table),
            table_rows(*table),
        ),
{
    table.to_string()
}

/// The look of the RISK cell: the risk's palette style.
pub open spec fn risk_look(risk: RiskLevel) -> CellLook {
    CellLook::Painted(risk_paint(risk))
}

/// The colour for a risk level, paired with bold for suspicious.
pub fn risk_color(risk: RiskLevel) -> (look: CellLook)
    ensures
        look == risk_look(risk),
{
    CellLook::Painted(risk_style(risk))
}

/// How many columns the PATH cell may use on a terminal `terminal_width`
/// wide: the width minus the other four columns at their natural widths and
/// sixteen columns of borders and padding (six borders, two spaces in each
/// of five cells), but never fewer than twelve.
pub open spec fn path_budget_for(rows: Seq<Seq<Seq<char>>>, terminal_width: nat) -> nat {
    let widths = plain_widths(rows);
    let fixed = widths[0] + widths[1] + widths[2] + widths[3] + 16;
    let rest: nat = if terminal_width > fixed {
        (terminal_width - fixed) as nat
    } else {
        0
    };
    if rest > 12 {
        rest
    } else {
        12
    }
}

/// The rich table fits the terminal: the PATH budget is never below
/// twelve, and whenever it is above twelve, it and the four other columns'
/// widths and the sixteen columns of borders and padding add up to exactly
/// the terminal's width. Only when the other columns leave fewer than twelve
/// columns does the table run wider than the terminal.
pub proof fn lemma_path_budget_fills_the_terminal(rows: Seq<Seq<Seq<char>>>, terminal_width: nat)
    ensures
        path_budget_for(rows, terminal_width) >= 12,
        path_budget_for(rows, terminal_width) > 12 ==> path_budget_for(rows, terminal_width)
            + column_width(rows, 0) + column_width(rows, 1) + column_width(rows, 2) + column_width(
            rows,
            3,
        ) + 16 == terminal_width,
        path_budget_for(rows, terminal_width) == 12 ==> column_width(rows, 0) + column_width(rows, 1)
            + column_width(rows, 2) + column_width(rows, 3) + 16 + 12 >= terminal_width,
{
}

/// How many columns the PATH cell may use: the terminal width minus the
/// other four columns and the border overhead, clamped to at least twelve.
pub fn path_budget(verdicts: &[ProcessVerdict], terminal_width: usize) -> (budget: usize)
    ensures
        budget == path_budget_for(rows_of(verdicts@), terminal_width as nat),
{
    let rows = rows_for(verdicts);
    let (w0, w1, w2, w3) = plain_column_widths(&rows);
    let fixed: u128 = w0 as u128 + w1 as u128 + w2 as u128 + w3 as u128 + 16;
    let width = terminal_width as u128;
    let rest: usize = if width > fixed {
        (width - fixed) as usize
    } else {
        0
    };
    if rest > 12 {
        rest
    } else {
        12
    }
}

/// The PATH budget for a render style: one when a terminal width is known.
pub open spec fn rich_budget(verdicts: Seq<ProcessVerdict>, style: RenderStyle) -> Option<nat> {
    match style.max_width {
        Some(width) => Some(path_budget_for(rows_of(verdicts), width as nat)),
        None => None,
    }
}

/// One row of the rich table: the five display strings, the PATH cut to the
/// budget when there is one, the RISK cell in its colour and the PID
/// right-aligned.
pub open spec fn rich_row(verdict: ProcessVerdictView, budget: Option<nat>) -> Seq<
    (Seq<char>, CellLook),
> {
    let texts = row_texts(verdict);
    let path = match budget {
        Some(max) => truncated(texts[4], max),
        None => texts[4],
    };
    seq![
        (texts[0], risk_look(verdict.risk)),
        (texts[1], CellLook::RightAligned),
        (texts[2], CellLook::Plain),
        (texts[3], CellLook::Plain),
        (path, CellLook::Plain),
    ]
}

/// The rows of the rich table for a list of verdicts.
pub open spec fn rich_rows(verdicts: Seq<ProcessVerdict>, budget: Option<nat>) -> Seq<
    Seq<(Seq<char>, CellLook)>,
> {
    verdicts.map_values(|v: ProcessVerdict| rich_row(v@, budget))
}

/// The rows of the rich table for verdicts given by their views, cut to the
/// budget a render style gives them.
pub open spec fn view_rich_rows(verdicts: Seq<ProcessVerdictView>, style: RenderStyle) -> Seq<
    Seq<(Seq<char>, CellLook)>,
> {
    let budget = match style.max_width {
        Some(width) => Some(path_budget_for(view_rows(verdicts), width as nat)),
        None => None,
    };
    verdicts.map_values(|v: ProcessVerdictView| rich_row(v, budget))
}

/// The rows of the rich table depend only on the verdicts' views.
pub proof fn lemma_rich_rows_of_views(verdicts: Seq<ProcessVerdict>, style: RenderStyle)
    ensures
        rich_rows(verdicts, rich_budget(verdicts, style)) == view_rich_rows(
            verdicts.map_values(|v: ProcessVerdict| v@),
            style,
        ),
{
    lemma_rows_of_views(verdicts);
    assert(rich_rows(verdicts, rich_budget(verdicts, style)) =~= view_rich_rows(
        verdicts.map_values(|v: ProcessVerdict| v@),
        style,
    ));
}

/// The cells of one rich row.
fn rich_row_cells(verdict: &ProcessVerdict, budget: Option<usize>) -> (cells: Vec<RichCell>)
    ensures
        rich_cells_view(cells@) == rich_row(
            verdict@,
            match budget {
                Some(max) => Some(max as nat),
                None => None,
            },
        ),
{
    let path = match &verdict.process.executable_path {
        Some(path) => path.clone(),
        None => String::from_str("(restricted)"),
    };
    let path = match budget {
        Some(max) => truncate_middle(path.as_str(), max),
        None => path,
    };
    let cells = vec![
        RichCell { text: String::from_str(risk_label(verdict.risk)), look: risk_color(verdict.risk) },
        RichCell { text: decimal(verdict.process.pid), look: CellLook::RightAligned },
        RichCell { text: verdict.process.name.clone(), look: CellLook::Plain },
        RichCell { text: String::from_str(category_label(verdict.category)), look: CellLook::Plain },
        RichCell { text: path, look: CellLook::Plain },
    ];
    assert(rich_cells_view(cells@) =~= rich_row(
        verdict@,
        match budget {
            Some(max) => Some(max as nat),
            None => None,
        },
    ));
    cells
}

/// On a terminal of known width, every PATH cell of the rich table fits the
/// budget: a path longer than the budget is cut to exactly the budget.
pub proof fn lemma_rich_paths_fit(verdicts: Seq<ProcessVerdict>, style: RenderStyle, r: int)
    requires
        style.max_width is Some,
        0 <= r < verdicts.len(),
    ensures
        rich_rows(verdicts, rich_budget(verdicts, style))[r][4].0.len() <= path_budget_for(
            rows_of(verdicts),
            style.max_width->0 as nat,
        ),
{
    let budget = path_budget_for(rows_of(verdicts), style.max_width->0 as nat);
    let path = row_texts(verdicts[r]@)[4];
    lemma_truncated_fits(path, budget);
}

/// Builds the rich table: box borders, no re-flowing, colour enforced, the
/// five headers, then one row per verdict in order.
pub fn build_rich_table(verdicts: &[ProcessVerdict], style: RenderStyle) -> (table:
    comfy_table::Table)
    ensures
        table_header(table) == header_texts(),
        table_rows(table) == rich_rows(verdicts@, rich_budget(verdicts@, style)),
        !table_may_cut(table),
        table_box_drawn(table),
        table_default_cells(table),
{
    let budget: Option<usize> = match style.max_width {
        Some(width) => Some(path_budget(verdicts, width)),
        None => None,
    };
    let ghost spec_budget = rich_budget(verdicts@, style);
    assert(spec_budget == match budget {
        Some(max) => Some(max as nat),
        None => None::<nat>,
    });
    let mut table = table_new();
    table_use_box_borders(&mut table);
    table_disable_arrangement(&mut table);
    table_enforce_styling(&mut table);
    table_set_header(&mut table, HEADERS);
    proof {
        reveal_strlit("RISK");
        reveal_strlit("PID");
        reveal_strlit("NAME");
        reveal_strlit("CATEGORY");
        reveal_strlit("PATH");
        assert(table_header(table) =~= header_texts());
    }
    let mut i: usize = 0;
    while i < verdicts.len()
        invariant
            i <= verdicts@.len(),
            table_header(table) == header_texts(),
            !table_may_cut(table),
            table_box_drawn(table),
            table_default_cells(table),
            spec_budget == match budget {
                Some(max) => Some(max as nat),
                None => None::<nat>,
            },
            table_rows(table) == rich_rows(verdicts@, spec_budget).take(i as int),
        decreases verdicts@.len() - i,
    {
        let cells = rich_row_cells(&verdicts[i], budget);
        table_add_row(&mut table, &cells);
        proof {
            assert(rich_rows(verdicts@, spec_budget).take(i + 1) =~= rich_rows(
                verdicts@,
                spec_budget,
            ).take(i as int).push(rich_row(verdicts@[i as int]@, spec_budget)));
        }
        i = i + 1;
    }
    assert(rich_rows(verdicts@, spec_budget).take(verdicts@.len() as int) =~= rich_rows(
        verdicts@,
        spec_budget,
    ));
    table
}

/// The rich, box-drawn, coloured table with a width-truncated PATH column.
/// Its lines show the header and then each verdict, in the order given,
/// each on a line of its own framed by `│`, with the unstyled cells of the
/// rows that [`build_rich_table`] states -- the PID, the name, the category
/// and the (cut) path -- unbroken whenever they fit on one line. When
/// every cell fits on one line, those are the only lines besides the
/// border rules: nothing else is drawn.
pub fn render_rich(verdicts: &[ProcessVerdict], style: RenderStyle) -> (text: String)
    ensures
        table_drawn(text@, header_texts(), rich_rows(verdicts@, rich_budget(verdicts@, style)), true),
        all_single_line(header_texts(), rich_rows(verdicts@, rich_budget(verdicts@, style)))
            ==> box_layout(text@, header_texts(), rich_rows(verdicts@, rich_budget(verdicts@, style))),
{
    let table = build_rich_table(verdicts, style);
    table_text(&table)
}

/// Renders the verdicts as a table: the rich one when colour is on, the
/// plain one otherwise. Callers sort worst-first beforehand, so the flagged
/// processes appear at the top.
pub fn render_verdict_table(verdicts: &[ProcessVerdict], style: RenderStyle) -> (table: String)
    ensures
        !style.color ==> table@ == plain_table(rows_of(verdicts@)),
        style.color ==> table_drawn(
            table@,
            header_texts(),
            rich_rows(verdicts@, rich_budget(verdicts@, style)),
            true,
        ),
        style.color && all_single_line(
            header_texts(),
            rich_rows(verdicts@, rich_budget(verdicts@, style)),
        ) ==> box_layout(table@, header_texts(), rich_rows(verdicts@, rich_budget(verdicts@, style))),
{
    if style.color {
        render_rich(verdicts, style)
    } else {
        render_plain(verdicts)
    }
}

} // verus!
