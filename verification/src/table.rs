//! The result table builder: two passes over the rows, the first to find
//! each column's target width from unstyled text, the second to emit every
//! cell styled (when colors are on) and padded to that width. Styling never
//! enters the width computation.

use vstd::prelude::*;
use crate::numfmt::{dec_rep, centis_rep, u64_string, centis_string};
use crate::style::style_header;
use crate::value::{CellSlot, slot_rendered, render_plain};
use crate::style::{style_null, style_value};

verus! {

/// One column of a result set, described by its name.
pub struct Column {
    pub name: String,
}

/// An aligned, rendered result set: styled header cells, styled and padded
/// body cells, the per-column target widths, the data row count (header
/// excluded), and the one-line summary.
pub struct RenderedTable {
    pub header: Vec<String>,
    pub body: Vec<Vec<String>>,
    pub widths: Vec<usize>,
    pub row_count: usize,
    pub summary: String,
}

/// The target width of column `i` after the first `upto` rows have been
/// scanned: the column name's length widened to every unstyled rendered
/// cell seen so far.
pub open spec fn width_upto(name_len: nat, rows: Seq<Vec<CellSlot>>, i: int, upto: int) -> nat
    decreases upto,
{
    if upto <= 0 {
        name_len
    } else {
        let prev = width_upto(name_len, rows, i, upto - 1);
        let cell = slot_rendered(rows[upto - 1]@[i]).len();
        if cell > prev {
            cell
        } else {
            prev
        }
    }
}

/// The final target width of column `i`: over the column name and all
/// rows. Defined over unstyled text alone, so styling cannot change it.
pub open spec fn col_width(columns: Seq<Column>, rows: Seq<Vec<CellSlot>>, i: int) -> nat {
    width_upto(columns[i].name@.len(), rows, i, rows.len() as int)
}

proof fn lemma_width_upto_dominates(name_len: nat, rows: Seq<Vec<CellSlot>>, i: int, upto: int)
    ensures
        width_upto(name_len, rows, i, upto) >= name_len,
        forall|r: int|
            0 <= r < upto ==> width_upto(name_len, rows, i, upto) >= slot_rendered(
                rows[r]@[i],
            ).len(),
    decreases upto,
{
    if upto > 0 {
        lemma_width_upto_dominates(name_len, rows, i, upto - 1);
    }
}

/// Law: a column's computed width is at least the length of its unstyled
/// column name and at least the length of every unstyled rendered cell in
/// that column; it is a function of the unstyled text alone, so styling
/// never changes it.
pub proof fn lemma_col_width_covers(columns: Seq<Column>, rows: Seq<Vec<CellSlot>>, i: int)
    requires
        0 <= i < columns.len(),
    ensures
        col_width(columns, rows, i) >= columns[i].name@.len(),
        forall|r: int|
            0 <= r < rows.len() ==> col_width(columns, rows, i) >= slot_rendered(
                rows[r]@[i],
            ).len(),
{
    lemma_width_upto_dominates(columns[i].name@.len(), rows, i, rows.len() as int);
}

/// A run of padding spaces.
pub open spec fn spaces(n: nat) -> Seq<char> {
    Seq::new(n, |k: int| ' ')
}

/// One body cell as emitted: the unstyled text followed by the padding
/// that brings it to the column's target width.
pub open spec fn padded_cell(s: CellSlot, width: nat) -> Seq<char> {
    if width >= slot_rendered(s).len() {
        slot_rendered(s) + spaces((width - slot_rendered(s).len()) as nat)
    } else {
        slot_rendered(s)
    }
}

/// The one-line summary under a result table, counting data rows only.
pub open spec fn summary_rep(n: nat, centis: nat) -> Seq<char> {
    dec_rep(n) + (if n == 1 {
        " row"@
    } else {
        " rows"@
    }) + " in set ("@ + centis_rep(centis) + " sec)"@
}

/// The summary line for `n` data rows and an elapsed time in centiseconds.
pub fn summary_line(n: u64, elapsed_centis: u64) -> (r: String)
    ensures
        r@ == summary_rep(n as nat, elapsed_centis as nat),
{
    let mut s = u64_string(n);
    if n == 1 {
        s.append(" row");
    } else {
        s.append(" rows");
    }
    s.append(" in set (");
    let t = centis_string(elapsed_centis);
    s.append(t.as_str());
    s.append(" sec)");
    proof {
        assert(s@ =~= summary_rep(n as nat, elapsed_centis as nat));
    }
    s
}

fn pad_to(cell: String, pad: usize) -> (r: String)
    ensures
        r@ == cell@ + spaces(pad as nat),
{
    let mut s = cell;
    let mut k: usize = 0;
    while k < pad
        invariant
            k <= pad,
            s@ =~= cell@ + spaces(k as nat),
        decreases pad - k,
    {
        s.append(" ");
        k = k + 1;
        proof {
            reveal_strlit(" ");
            assert(s@ =~= cell@ + spaces(k as nat));
        }
    }
    proof {
        assert(s@ =~= cell@ + spaces(pad as nat));
    }
    s
}

/// Build the aligned table for one result set. The widths come from the
/// first pass over unstyled text; the second pass emits each cell padded
/// to its column's final width, styled only when colors are on.
pub fn build(
    columns: &Vec<Column>,
    rows: &Vec<Vec<CellSlot>>,
    color_enabled: bool,
    elapsed_centis: u64,
) -> (r: RenderedTable)
    requires
        forall|t: int| 0 <= t < rows@.len() ==> rows@[t]@.len() == columns@.len(),
    ensures
        r.widths@.len() == columns@.len(),
        forall|i: int| 0 <= i < columns@.len() ==> r.widths@[i] == col_width(columns@, rows@, i),
        r.header@.len() == columns@.len(),
        !color_enabled ==> forall|i: int|
            0 <= i < columns@.len() ==> r.header@[i]@ == columns@[i].name@,
        forall|i: int| 0 <= i < columns@.len() ==> r.header@[i]@.len() >= columns@[i].name@.len(),
        r.body@.len() == rows@.len(),
        forall|t: int| 0 <= t < rows@.len() ==> r.body@[t]@.len() == columns@.len(),
        !color_enabled ==> forall|t: int, i: int|
            0 <= t < rows@.len() && 0 <= i < columns@.len() ==> r.body@[t]@[i]@ == padded_cell(
                rows@[t]@[i],
                col_width(columns@, rows@, i),
            ),
        forall|t: int, i: int|
            0 <= t < rows@.len() && 0 <= i < columns@.len() ==> r.body@[t]@[i]@.len()
                >= col_width(columns@, rows@, i),
        r.row_count == rows@.len(),
        r.summary@ == summary_rep(rows@.len() as nat, elapsed_centis as nat),
{
    let ncols: usize = columns.len();
    let nrows: usize = rows.len();

    // Pass 1: start each width at the column name's length, then widen to
    // every unstyled rendered cell.
    let mut widths: Vec<usize> = Vec::new();
    let mut i: usize = 0;
    while i < ncols
        invariant
            i <= ncols,
            ncols == columns@.len(),
            widths@.len() == i,
            forall|q: int| 0 <= q < i ==> widths@[q] == columns@[q].name@.len(),
        decreases ncols - i,
    {
        widths.push(columns[i].name.as_str().unicode_len());
        i = i + 1;
    }
    let mut t: usize = 0;
    while t < nrows
        invariant
            t <= nrows,
            nrows == rows@.len(),
            ncols == columns@.len(),
            widths@.len() == ncols,
            forall|tt: int| 0 <= tt < rows@.len() ==> rows@[tt]@.len() == columns@.len(),
            forall|q: int|
                0 <= q < ncols ==> widths@[q] == width_upto(
                    columns@[q].name@.len(),
                    rows@,
                    q,
                    t as int,
                ),
        decreases nrows - t,
    {
        let row = &rows[t];
        let mut i: usize = 0;
        while i < ncols
            invariant
                i <= ncols,
                t < nrows,
                nrows == rows@.len(),
                ncols == columns@.len(),
                widths@.len() == ncols,
                row@ == rows@[t as int]@,
                row@.len() == ncols,
                forall|q: int|
                    0 <= q < i ==> widths@[q] == width_upto(
                        columns@[q].name@.len(),
                        rows@,
                        q,
                        t as int + 1,
                    ),
                forall|q: int|
                    i <= q < ncols ==> widths@[q] == width_upto(
                        columns@[q].name@.len(),
                        rows@,
                        q,
                        t as int,
                    ),
            decreases ncols - i,
        {
            let (cell, _) = render_plain(&row[i]);
            let w: usize = cell.as_str().unicode_len();
            if w > widths[i] {
                widths.set(i, w);
            }
            i = i + 1;
        }
        t = t + 1;
    }

    // Header: the column names, accented when colors are on.
    let mut header: Vec<String> = Vec::new();
    let mut i: usize = 0;
    while i < ncols
        invariant
            i <= ncols,
            ncols == columns@.len(),
            header@.len() == i,
            !color_enabled ==> forall|q: int| 0 <= q < i ==> header@[q]@ == columns@[q].name@,
            forall|q: int| 0 <= q < i ==> header@[q]@.len() >= columns@[q].name@.len(),
        decreases ncols - i,
    {
        header.push(style_header(columns[i].name.clone(), color_enabled));
        i = i + 1;
    }

    // Pass 2: emit every cell again, styled if enabled, padded to the
    // column's final width from its unstyled length.
    let mut body: Vec<Vec<String>> = Vec::new();
    let mut t: usize = 0;
    while t < nrows
        invariant
            t <= nrows,
            nrows == rows@.len(),
            ncols == columns@.len(),
            widths@.len() == ncols,
            forall|tt: int| 0 <= tt < rows@.len() ==> rows@[tt]@.len() == columns@.len(),
            forall|q: int| 0 <= q < ncols ==> widths@[q] == col_width(columns@, rows@, q),
            body@.len() == t,
            forall|tt: int| 0 <= tt < t ==> body@[tt]@.len() == ncols,
            !color_enabled ==> forall|tt: int, q: int|
                0 <= tt < t && 0 <= q < ncols ==> body@[tt]@[q]@ == padded_cell(
                    rows@[tt]@[q],
                    col_width(columns@, rows@, q),
                ),
            forall|tt: int, q: int|
                0 <= tt < t && 0 <= q < ncols ==> body@[tt]@[q]@.len() >= col_width(
                    columns@,
                    rows@,
                    q,
                ),
        decreases nrows - t,
    {
        let row = &rows[t];
        let mut out: Vec<String> = Vec::new();
        let mut i: usize = 0;
        while i < ncols
            invariant
                i <= ncols,
                t < nrows,
                nrows == rows@.len(),
                ncols == columns@.len(),
                widths@.len() == ncols,
                row@ == rows@[t as int]@,
                row@.len() == ncols,
                forall|q: int| 0 <= q < ncols ==> widths@[q] == col_width(columns@, rows@, q),
                out@.len() == i,
                !color_enabled ==> forall|q: int|
                    0 <= q < i ==> out@[q]@ == padded_cell(
                        rows@[t as int]@[q],
                        col_width(columns@, rows@, q),
                    ),
                forall|q: int| 0 <= q < i ==> out@[q]@.len() >= col_width(columns@, rows@, q),
            decreases ncols - i,
        {
            proof {
                lemma_col_width_covers(columns@, rows@, i as int);
            }
            let (plain, is_null) = render_plain(&row[i]);
            let plain_len: usize = plain.as_str().unicode_len();
            let styled = if is_null {
                style_null(plain, color_enabled)
            } else {
                style_value(plain, color_enabled)
            };
            let pad: usize = widths[i] - plain_len;
            let cell = pad_to(styled, pad);
            out.push(cell);
            i = i + 1;
        }
        body.push(out);
        t = t + 1;
    }

    let summary = summary_line(nrows as u64, elapsed_centis);
    RenderedTable { header, body, widths, row_count: nrows, summary }
}

} // verus!
