//! Width tracking and block encoding of rendered snapshots.
pub use crate::cells::convert_to_strings;
use crate::cells::{rows_of, snapshot_text, Cell, Column, RenderError, WsCollapser};
use vstd::prelude::*;

verus! {

/// Spaces appended after each padded column, beyond its tracked width.
pub const MARGIN: usize = 3;

/// A run of `n` spaces.
pub open spec fn spaces(n: nat) -> Seq<char> {
    Seq::new(n, |i: int| ' ')
}

/// `s` right-padded with spaces to `w` characters (unchanged when already as long).
pub open spec fn pad_to(s: Seq<char>, w: int) -> Seq<char> {
    s + spaces(if w > s.len() { (w - s.len()) as nat } else { 0 })
}

/// Widths seen as mathematical integers.
pub open spec fn widths_of(w: Seq<usize>) -> Seq<int> {
    w.map_values(|x: usize| x as int)
}

/// The widths after one more row has been measured.
pub open spec fn widen_row(w: Seq<int>, row: Seq<Seq<char>>) -> Seq<int> {
    Seq::new(
        w.len(),
        |c: int|
            if c < row.len() && row[c].len() > w[c] {
                row[c].len() as int
            } else {
                w[c]
            },
    )
}

/// The widths after every row of `rows` has been measured, in order.
pub open spec fn widen(w: Seq<int>, rows: Seq<Seq<Seq<char>>>) -> Seq<int>
    decreases rows.len(),
{
    if rows.len() == 0 {
        w
    } else {
        widen_row(widen(w, rows.drop_last()), rows.last())
    }
}

/// The first `k` columns of a line, each padded to its width plus the margin.
pub open spec fn encode_cells(row: Seq<Seq<char>>, widths: Seq<int>, k: int) -> Seq<char>
    decreases k,
{
    if k <= 0 {
        Seq::empty()
    } else {
        encode_cells(row, widths, k - 1) + pad_to(row[k - 1], widths[k - 1] + MARGIN)
    }
}

/// One line of a block: padded columns, then the last column verbatim, then a newline.
pub open spec fn encode_line(row: Seq<Seq<char>>, widths: Seq<int>) -> Seq<char> {
    let last = widths.len() - 1;
    encode_cells(row, widths, last) + row[last] + seq!['\n']
}

/// A block: the lines of all rows, concatenated in order.
pub open spec fn encode_block(rows: Seq<Seq<Seq<char>>>, widths: Seq<int>) -> Seq<char>
    decreases rows.len(),
{
    if rows.len() == 0 {
        Seq::empty()
    } else {
        encode_block(rows.drop_last(), widths) + encode_line(rows.last(), widths)
    }
}

/// Every row has one entry per tracked column.
pub open spec fn rows_fit(rows: Seq<Seq<Seq<char>>>, n: int) -> bool {
    forall|i: int| 0 <= i < rows.len() ==> #[trigger] rows[i].len() == n
}

/// Appends `s` padded to `width` plus the margin.
fn push_padded(buf: &mut String, s: &str, width: usize)
    requires
        s@.len() <= width,
    ensures
        final(buf)@ == old(buf)@ + pad_to(s@, width + MARGIN),
{
    let ghost start = buf@;
    buf.append(s);
    let len = s.unicode_len();
    let mut i: usize = len;
    proof {
        reveal_strlit(" ");
        assert(buf@ =~= start + s@ + spaces(0));
    }
    while i < width
        invariant
            len <= i <= width,
            len == s@.len(),
            buf@ == start + s@ + spaces((i - len) as nat),
        decreases width - i,
    {
        let ghost k = (i - len) as nat;
        buf.append(" ");
        proof {
            lemma_spaces_push(k);
            assert(buf@ =~= start + s@ + spaces(k + 1));
        }
        i = i + 1;
    }
    let mut j: usize = 0;
    while j < MARGIN
        invariant
            j <= MARGIN,
            len <= width,
            len == s@.len(),
            buf@ == start + s@ + spaces((width - len + j) as nat),
        decreases MARGIN - j,
    {
        let ghost k = (width - len + j) as nat;
        buf.append(" ");
        proof {
            lemma_spaces_push(k);
            assert(buf@ =~= start + s@ + spaces(k + 1));
        }
        j = j + 1;
    }
    proof {
        assert(start + s@ + spaces((width - len + MARGIN) as nat) =~= start + pad_to(
            s@,
            width + MARGIN,
        ));
    }
}

/// One more space lengthens a run of spaces by one.
proof fn lemma_spaces_push(k: nat)
    ensures
        spaces(k) + " "@ == spaces(k + 1),
{
    reveal_strlit(" ");
    assert(spaces(k) + " "@ =~= spaces(k + 1));
}

/// Raises each column's width to the longest value of `row` in that column.
fn widen_widths(row: &Vec<String>, mins: &mut [usize])
    requires
        row@.len() == old(mins)@.len(),
    ensures
        final(mins)@.len() == old(mins)@.len(),
        widths_of(final(mins)@) == widen_row(widths_of(old(mins)@), row.deep_view()),
{
    let ghost start = widths_of(mins@);
    let n = mins.len();
    let mut c: usize = 0;
    while c < n
        invariant
            n == mins@.len(),
            n == row@.len(),
            start.len() == n,
            c <= n,
            forall|k: int|
                0 <= k < n ==> #[trigger] widths_of(mins@)[k] == if k < c {
                    widen_row(start, row.deep_view())[k]
                } else {
                    start[k]
                },
        decreases n - c,
    {
        let l = row[c].unicode_len();
        assert(row.deep_view()[c as int] == row@[c as int]@);
        let ghost prev = mins@;
        assert(widths_of(prev)[c as int] == start[c as int]);
        if l > mins[c] {
            mins[c] = l;
            assert(mins@ == prev.update(c as int, l));
        }
        assert(widths_of(mins@)[c as int] == widen_row(start, row.deep_view())[c as int]);
        assert forall|k: int| 0 <= k < n && k != c implies #[trigger] widths_of(mins@)[k] == widths_of(
            prev,
        )[k] by {
            assert(mins@[k] == prev[k]);
        }
        c = c + 1;
    }
    assert(widths_of(mins@) =~= widen_row(start, row.deep_view()));
}

/// Measures every row into `mins`, then encodes the rows as one block using
/// the widths so updated. Each column but the last is right-padded to its
/// tracked width plus the margin; the last column is written as it is.
pub fn render(lines: &[Vec<String>], mins: &mut [usize]) -> (r: String)
    requires
        old(mins)@.len() > 0,
        rows_fit(lines.deep_view(), old(mins)@.len() as int),
    ensures
        widths_of(final(mins)@) == widen(widths_of(old(mins)@), lines.deep_view()),
        r@ == encode_block(lines.deep_view(), widths_of(final(mins)@)),
{
    let ghost rows = lines.deep_view();
    let ghost start = widths_of(mins@);
    let n = mins.len();
    let mut i: usize = 0;
    while i < lines.len()
        invariant
            n == mins@.len(),
            n > 0,
            i <= lines@.len(),
            rows == lines.deep_view(),
            rows_fit(rows, n as int),
            widths_of(mins@) == widen(start, rows.take(i as int)),
        decreases lines@.len() - i,
    {
        assert(rows[i as int].len() == n);
        widen_widths(&lines[i], mins);
        assert(rows.take(i as int + 1).drop_last() =~= rows.take(i as int));
        i = i + 1;
    }
    assert(rows.take(lines@.len() as int) =~= rows);
    let ghost widths = widths_of(mins@);
    proof {
        lemma_widen_covers(start, rows);
    }
    let last = n - 1;
    let mut buf = String::new();
    let mut i: usize = 0;
    while i < lines.len()
        invariant
            n == mins@.len(),
            n > 0,
            last == n - 1,
            i <= lines@.len(),
            rows == lines.deep_view(),
            rows_fit(rows, n as int),
            widths == widths_of(mins@),
            forall|r: int, c: int|
                0 <= r < rows.len() && 0 <= c < n ==> #[trigger] rows[r][c].len()
                    <= widths[c],
            buf@ == encode_block(rows.take(i as int), widths),
        decreases lines@.len() - i,
    {
        let line = &lines[i];
        assert(rows[i as int].len() == n);
        let ghost row = rows[i as int];
        let ghost before = buf@;
        let mut c: usize = 0;
        while c < last
            invariant
                n == mins@.len(),
                last == n - 1,
                c <= last,
                row == line.deep_view(),
                row.len() == n,
                widths == widths_of(mins@),
                forall|k: int| 0 <= k < n ==> #[trigger] row[k].len() <= widths[k],
                buf@ == before + encode_cells(row, widths, c as int),
            decreases last - c,
        {
            assert(row[c as int].len() <= widths[c as int]);
            push_padded(&mut buf, line[c].as_str(), mins[c]);
            c = c + 1;
        }
        buf.append(line[last].as_str());
        buf.append("\n");
        proof {
            reveal_strlit("\n");
            assert(rows.take(i as int + 1).drop_last() =~= rows.take(i as int));
            assert(buf@ =~= encode_block(rows.take(i as int + 1), widths));
        }
        i = i + 1;
    }
    assert(rows.take(lines@.len() as int) =~= rows);
    buf
}

/// Renders one fetched snapshot (header row, then the rows) and encodes it as
/// a block, measuring it into the run's widths first. The header row is
/// measured like any other row. On a rendering error the widths are untouched.
pub fn encode_snapshot(
    columns: &[Column],
    rows: &[Vec<Cell>],
    ws: &WsCollapser,
    mins: &mut [usize],
) -> (r: Result<String, RenderError>)
    requires
        old(mins)@.len() == columns@.len(),
        columns@.len() > 0,
        forall|i: int| 0 <= i < rows@.len() ==> #[trigger] rows@[i]@.len() == columns@.len(),
    ensures
        match snapshot_text(columns@, rows_of(rows@)) {
            Ok(lines) => {
                &&& widths_of(final(mins)@) == widen(widths_of(old(mins)@), lines)
                &&& r matches Ok(block) && block@ == encode_block(lines, widths_of(final(mins)@))
            },
            Err(e) => final(mins)@ == old(mins)@ && r == Err::<String, RenderError>(e),
        },
{
    match convert_to_strings(columns, rows, ws) {
        Ok(lines) => {
            proof {
                crate::cells::lemma_snapshot_rows_fit(columns@, rows_of(rows@));
            }
            Ok(render(lines.as_slice(), mins))
        },
        Err(e) => Err(e),
    }
}

/// The widths after a run of snapshots has been rendered, one after another.
pub open spec fn widths_after(w: Seq<int>, snaps: Seq<Seq<Seq<Seq<char>>>>) -> Seq<int>
    decreases snaps.len(),
{
    if snaps.len() == 0 {
        w
    } else {
        widen(widths_after(w, snaps.drop_last()), snaps.last())
    }
}

/// Rendering a snapshot never narrows a column: each tracked width after it
/// is at least what it was before, and the number of columns is kept.
pub proof fn lemma_widths_never_shrink(w: Seq<int>, rows: Seq<Seq<Seq<char>>>)
    ensures
        widen(w, rows).len() == w.len(),
        forall|c: int| 0 <= c < w.len() ==> #[trigger] widen(w, rows)[c] >= w[c],
    decreases rows.len(),
{
    if rows.len() > 0 {
        lemma_widths_never_shrink(w, rows.drop_last());
        lemma_widen_row_grows(widen(w, rows.drop_last()), rows.last());
    }
}

/// Over any run of snapshots, the width of each column is a non-decreasing
/// sequence: after the first `i` snapshots it is at most what it is after
/// the first `j`, for every `i <= j`.
pub proof fn lemma_widths_monotone_over_run(
    w: Seq<int>,
    snaps: Seq<Seq<Seq<Seq<char>>>>,
    i: int,
    j: int,
)
    requires
        0 <= i <= j <= snaps.len(),
    ensures
        widths_after(w, snaps.take(j)).len() == w.len(),
        forall|c: int|
            0 <= c < w.len() ==> #[trigger] widths_after(w, snaps.take(i))[c] <= widths_after(
                w,
                snaps.take(j),
            )[c],
    decreases j - i,
{
    if i == j {
        lemma_widths_after_len(w, snaps.take(j));
    } else {
        lemma_widths_monotone_over_run(w, snaps, i, j - 1);
        let prev = snaps.take(j - 1);
        assert(snaps.take(j).drop_last() =~= prev);
        lemma_widths_after_len(w, prev);
        lemma_widths_never_shrink(widths_after(w, prev), snaps.take(j).last());
    }
}

/// A run of snapshots keeps the number of columns.
proof fn lemma_widths_after_len(w: Seq<int>, snaps: Seq<Seq<Seq<Seq<char>>>>)
    ensures
        widths_after(w, snaps).len() == w.len(),
    decreases snaps.len(),
{
    if snaps.len() > 0 {
        lemma_widths_after_len(w, snaps.drop_last());
        lemma_widths_never_shrink(widths_after(w, snaps.drop_last()), snaps.last());
    }
}

/// In a rendered block, no padded column is narrower than the tracked width
/// of its column at the time of writing: each value fits within that width,
/// and its padded form is exactly the width plus the margin long.
pub proof fn lemma_padded_columns_cover(w: Seq<int>, rows: Seq<Seq<Seq<char>>>)
    requires
        rows_fit(rows, w.len() as int),
    ensures
        forall|r: int, c: int|
            0 <= r < rows.len() && 0 <= c < w.len() ==> #[trigger] rows[r][c].len()
                <= widen(w, rows)[c],
        forall|r: int, c: int|
            0 <= r < rows.len() && 0 <= c < w.len() - 1 ==> #[trigger] pad_to(
                rows[r][c],
                widen(w, rows)[c] + MARGIN,
            ).len() == widen(w, rows)[c] + MARGIN,
{
    lemma_widen_covers(w, rows);
    assert forall|r: int, c: int| 0 <= r < rows.len() && 0 <= c < w.len() - 1 implies #[trigger] pad_to(
        rows[r][c],
        widen(w, rows)[c] + MARGIN,
    ).len() == widen(w, rows)[c] + MARGIN by {
        assert(rows[r][c].len() <= widen(w, rows)[c]);
    }
}

/// After measuring `rows`, every value of every row fits its column's width.
proof fn lemma_widen_covers(w: Seq<int>, rows: Seq<Seq<Seq<char>>>)
    requires
        rows_fit(rows, w.len() as int),
    ensures
        widen(w, rows).len() == w.len(),
        forall|r: int, c: int|
            0 <= r < rows.len() && 0 <= c < w.len() ==> #[trigger] rows[r][c].len()
                <= widen(w, rows)[c],
    decreases rows.len(),
{
    if rows.len() > 0 {
        let prev = rows.drop_last();
        assert(rows_fit(prev, w.len() as int)) by {
            assert forall|i: int| 0 <= i < prev.len() implies #[trigger] prev[i].len() == w.len() by {
                assert(prev[i] == rows[i]);
            }
        }
        lemma_widen_covers(w, prev);
        lemma_widen_row_grows(widen(w, prev), rows.last());
        assert forall|r: int, c: int|
            0 <= r < rows.len() && 0 <= c < w.len() implies #[trigger] rows[r][c].len()
                <= widen(w, rows)[c] by {
            if r < rows.len() - 1 {
                assert(prev[r] == rows[r]);
            }
        }
    }
}

/// Measuring one row keeps the number of columns and lowers no width.
proof fn lemma_widen_row_grows(w: Seq<int>, row: Seq<Seq<char>>)
    ensures
        widen_row(w, row).len() == w.len(),
        forall|c: int| 0 <= c < w.len() ==> #[trigger] widen_row(w, row)[c] >= w[c],
        forall|c: int|
            0 <= c < w.len() && c < row.len() ==> #[trigger] widen_row(w, row)[c]
                >= row[c].len(),
{
}

} // verus!
