//! Rendering of database rows into display strings, one per column.
use crate::printer::rows_fit;
use vstd::prelude::*;

verus! {

#[verifier::external_type_specification]
#[verifier::external_body]
pub struct ExRegex(regex::Regex);

/// What collapsing every run of whitespace of `s` into one space yields.
pub uninterp spec fn ws_collapsed(s: Seq<char>) -> Seq<char>;

/// The RFC 3339 text, in UTC with microseconds and a `Z` suffix, of the
/// instant `micros` microseconds after the Unix epoch; `None` where the
/// instant lies outside the representable calendar range.
pub uninterp spec fn rfc3339_micros(micros: int) -> Option<Seq<char>>;

/// The semantic types that rows can be rendered from.
#[derive(Clone, Copy, Debug, PartialEq, Eq, Structural)]
pub enum ColumnType {
    Timestamp,
    Integer,
    Text,
}

/// One column of a result schema: its name and its database type tag.
#[derive(Clone, Debug)]
pub struct Column {
    pub name: String,
    pub type_tag: String,
}

/// One value of a row, as read from the database. `Timestamp` holds
/// microseconds since the Unix epoch.
#[derive(Clone, Debug)]
pub enum Cell {
    Null,
    Timestamp(i64),
    Int(i64),
    Text(String),
}

/// Why a row could not be rendered; each names the offending column.
#[derive(Clone, Copy, Debug, PartialEq, Eq, Structural)]
pub enum RenderError {
    UnknownType { column: usize },
    TypeMismatch { column: usize },
    TimestampOutOfRange { column: usize },
}

/// The character of a decimal digit.
pub open spec fn digit_char(d: nat) -> char {
    if d == 0 { '0' }
    else if d == 1 { '1' }
    else if d == 2 { '2' }
    else if d == 3 { '3' }
    else if d == 4 { '4' }
    else if d == 5 { '5' }
    else if d == 6 { '6' }
    else if d == 7 { '7' }
    else if d == 8 { '8' }
    else { '9' }
}

/// The decimal digits of `n`, most significant first, without leading zeros.
pub open spec fn digits(n: nat) -> Seq<char>
    decreases n,
{
    if n < 10 {
        seq![digit_char(n)]
    } else {
        digits(n / 10).push(digit_char(n % 10))
    }
}

/// The decimal text of an integer, with a leading `-` when negative.
pub open spec fn decimal(v: int) -> Seq<char> {
    if v < 0 {
        seq!['-'] + digits((-v) as nat)
    } else {
        digits(v as nat)
    }
}

impl ColumnType {
    /// The semantic type of a database type tag, if it is a supported one.
    pub open spec fn of_tag(tag: Seq<char>) -> Option<ColumnType> {
        if tag == "timestamptz"@ {
            Some(ColumnType::Timestamp)
        } else if tag == "oid"@ || tag == "int4"@ {
            Some(ColumnType::Integer)
        } else if tag == "name"@ || tag == "text"@ || tag == "varchar"@ {
            Some(ColumnType::Text)
        } else {
            None
        }
    }

    /// Resolves a database type tag; `None` for an unsupported one.
    pub fn from_tag(tag: &str) -> (r: Option<ColumnType>)
        ensures
            r == Self::of_tag(tag@),
    {
        if same_text(tag, "timestamptz") {
            Some(ColumnType::Timestamp)
        } else if same_text(tag, "oid") || same_text(tag, "int4") {
            Some(ColumnType::Integer)
        } else if same_text(tag, "name") || same_text(tag, "text") || same_text(tag, "varchar") {
            Some(ColumnType::Text)
        } else {
            None
        }
    }
}

/// Whether two texts hold the same characters.
fn same_text(a: &str, b: &str) -> (r: bool)
    ensures
        r == (a@ == b@),
{
    a.to_owned() == b.to_owned()
}

/// The compiled pattern of whitespace runs, built once and shared by reference.
pub struct WsCollapser {
    re: regex::Regex,
}

impl WsCollapser {
    /// Compiles the whitespace-run pattern; `None` if the regex engine refuses it.
    pub fn new() -> (r: Option<WsCollapser>) {
        match compile_pattern("\\s+") {
            Some(re) => Some(WsCollapser { re }),
            None => None,
        }
    }

    /// `s` with every run of whitespace collapsed into a single space.
    pub fn collapse(&self, s: &str) -> (r: String)
        ensures
            r@ == ws_collapsed(s@),
    {
        replace_ws_runs(self, s)
    }
}

/// Relies on regex::Regex::new: compiles `pattern`, or fails.
#[verifier::external_body]
fn compile_pattern(pattern: &str) -> (r: Option<regex::Regex>) {
    regex::Regex::new(pattern).ok()
}

/// Relies on regex::Regex::replace_all with the pattern `\s+` (the only one a
/// `WsCollapser` holds) and the replacement " ": every whitespace run of `s`
/// becomes one space; the result depends on `s` alone.
#[verifier::external_body]
fn replace_ws_runs(w: &WsCollapser, s: &str) -> (r: String)
    ensures
        r@ == ws_collapsed(s@),
{
    w.re.replace_all(s, " ").into_owned()
}

/// Relies on chrono's DateTime::from_timestamp_micros, which fails outside
/// the calendar range, and DateTime::to_rfc3339_opts(SecondsFormat::Micros, true).
#[verifier::external_body]
fn rfc3339_text(micros: i64) -> (r: Option<String>)
    ensures
        text_option(r) == rfc3339_micros(micros as int),
{
    match chrono::DateTime::from_timestamp_micros(micros) {
        Some(t) => Some(t.to_rfc3339_opts(chrono::SecondsFormat::Micros, true)),
        None => None,
    }
}

/// Relies on i64's `ToString`: the decimal text of `v`.
#[verifier::external_body]
fn decimal_text(v: i64) -> (r: String)
    ensures
        r@ == decimal(v as int),
{
    v.to_string()
}

/// An optional text seen as its characters.
pub open spec fn text_option(r: Option<String>) -> Option<Seq<char>> {
    match r {
        Some(s) => Some(s@),
        None => None,
    }
}

/// A rendering outcome seen as characters.
pub open spec fn text_result(r: Result<String, RenderError>) -> Result<Seq<char>, RenderError> {
    match r {
        Ok(s) => Ok(s@),
        Err(e) => Err(e),
    }
}

/// The display text of one cell in column `col` of semantic type `kind`
/// (`None`: an unsupported type tag). An absent value renders as empty text.
pub open spec fn cell_text(kind: Option<ColumnType>, cell: Cell, col: int) -> Result<
    Seq<char>,
    RenderError,
> {
    match kind {
        None => Err(RenderError::UnknownType { column: col as usize }),
        Some(k) => match cell {
            Cell::Null => Ok(Seq::empty()),
            Cell::Timestamp(us) => if k == ColumnType::Timestamp {
                match rfc3339_micros(us as int) {
                    Some(t) => Ok(t),
                    None => Err(RenderError::TimestampOutOfRange { column: col as usize }),
                }
            } else {
                Err(RenderError::TypeMismatch { column: col as usize })
            },
            Cell::Int(v) => if k == ColumnType::Integer {
                Ok(decimal(v as int))
            } else {
                Err(RenderError::TypeMismatch { column: col as usize })
            },
            Cell::Text(s) => if k == ColumnType::Text {
                Ok(ws_collapsed(s@))
            } else {
                Err(RenderError::TypeMismatch { column: col as usize })
            },
        },
    }
}

/// The semantic types of a schema's columns, in order.
pub open spec fn kinds_of(columns: Seq<Column>) -> Seq<Option<ColumnType>> {
    Seq::new(columns.len(), |i: int| ColumnType::of_tag(columns[i].type_tag@))
}

/// The texts of the first `k` cells of a row, or the first column's error.
pub open spec fn row_prefix_text(columns: Seq<Column>, row: Seq<Cell>, k: int) -> Result<
    Seq<Seq<char>>,
    RenderError,
>
    decreases k,
{
    if k <= 0 {
        Ok(Seq::empty())
    } else {
        match row_prefix_text(columns, row, k - 1) {
            Err(e) => Err(e),
            Ok(p) => match cell_text(kinds_of(columns)[k - 1], row[k - 1], k - 1) {
                Err(e) => Err(e),
                Ok(t) => Ok(p.push(t)),
            },
        }
    }
}

/// The rendered form of a whole row.
pub open spec fn row_text(columns: Seq<Column>, row: Seq<Cell>) -> Result<
    Seq<Seq<char>>,
    RenderError,
> {
    row_prefix_text(columns, row, columns.len() as int)
}

/// The header row: the columns' names.
pub open spec fn header_text(columns: Seq<Column>) -> Seq<Seq<char>> {
    Seq::new(columns.len(), |i: int| columns[i].name@)
}

/// A snapshot: the header, then each row rendered, or the first row's error.
pub open spec fn snapshot_text(columns: Seq<Column>, rows: Seq<Seq<Cell>>) -> Result<
    Seq<Seq<Seq<char>>>,
    RenderError,
>
    decreases rows.len(),
{
    if rows.len() == 0 {
        Ok(seq![header_text(columns)])
    } else {
        match snapshot_text(columns, rows.drop_last()) {
            Err(e) => Err(e),
            Ok(p) => match row_text(columns, rows.last()) {
                Err(e) => Err(e),
                Ok(t) => Ok(p.push(t)),
            },
        }
    }
}

/// The rows of a snapshot seen as sequences of cells.
pub open spec fn rows_of(rows: Seq<Vec<Cell>>) -> Seq<Seq<Cell>> {
    rows.map_values(|r: Vec<Cell>| r@)
}

/// Converts one cell according to its column's type.
fn render_cell(kind: Option<ColumnType>, cell: &Cell, col: usize, ws: &WsCollapser) -> (r: Result<
    String,
    RenderError,
>)
    ensures
        text_result(r) == cell_text(kind, *cell, col as int),
{
    match kind {
        None => Err(RenderError::UnknownType { column: col }),
        Some(k) => match cell {
            Cell::Null => Ok(String::new()),
            Cell::Timestamp(us) => if k == ColumnType::Timestamp {
                match rfc3339_text(*us) {
                    Some(t) => Ok(t),
                    None => Err(RenderError::TimestampOutOfRange { column: col }),
                }
            } else {
                Err(RenderError::TypeMismatch { column: col })
            },
            Cell::Int(v) => if k == ColumnType::Integer {
                Ok(decimal_text(*v))
            } else {
                Err(RenderError::TypeMismatch { column: col })
            },
            Cell::Text(s) => if k == ColumnType::Text {
                Ok(ws.collapse(s.as_str()))
            } else {
                Err(RenderError::TypeMismatch { column: col })
            },
        },
    }
}

/// Renders one row against its schema: each cell converted by its column's
/// type, in column order; the first column that cannot be rendered is the error.
pub fn render_row(columns: &[Column], row: &[Cell], ws: &WsCollapser) -> (r: Result<
    Vec<String>,
    RenderError,
>)
    requires
        row@.len() == columns@.len(),
    ensures
        match r {
            Ok(v) => row_text(columns@, row@) == Ok::<Seq<Seq<char>>, RenderError>(v.deep_view()),
            Err(e) => row_text(columns@, row@) == Err::<Seq<Seq<char>>, RenderError>(e),
        },
{
    let mut out: Vec<String> = Vec::new();
    let mut i: usize = 0;
    assert(out.deep_view() =~= Seq::<Seq<char>>::empty());
    while i < columns.len()
        invariant
            i <= columns@.len(),
            row@.len() == columns@.len(),
            row_prefix_text(columns@, row@, i as int) == Ok::<Seq<Seq<char>>, RenderError>(
                out.deep_view(),
            ),
        decreases columns@.len() - i,
    {
        let kind = ColumnType::from_tag(columns[i].type_tag.as_str());
        assert(kind == kinds_of(columns@)[i as int]);
        match render_cell(kind, &row[i], i, ws) {
            Ok(t) => {
                let ghost before = out.deep_view();
                out.push(t);
                assert(out.deep_view() =~= before.push(t@));
            },
            Err(e) => {
                proof {
                    lemma_prefix_error_sticks(columns@, row@, i as int + 1, columns@.len() as int);
                }
                return Err(e);
            },
        }
        i = i + 1;
    }
    Ok(out)
}

/// Renders a snapshot: the header row of column names, then every row in
/// order. Fails with the first error of the first row that cannot be rendered.
pub fn convert_to_strings(columns: &[Column], rows: &[Vec<Cell>], ws: &WsCollapser) -> (r: Result<
    Vec<Vec<String>>,
    RenderError,
>)
    requires
        forall|i: int| 0 <= i < rows@.len() ==> #[trigger] rows@[i]@.len() == columns@.len(),
    ensures
        match r {
            Ok(v) => snapshot_text(columns@, rows_of(rows@)) == Ok::<
                Seq<Seq<Seq<char>>>,
                RenderError,
            >(v.deep_view()),
            Err(e) => snapshot_text(columns@, rows_of(rows@)) == Err::<
                Seq<Seq<Seq<char>>>,
                RenderError,
            >(e),
        },
{
    let mut header: Vec<String> = Vec::new();
    let mut c: usize = 0;
    while c < columns.len()
        invariant
            c <= columns@.len(),
            header.deep_view() =~= header_text(columns@).take(c as int),
        decreases columns@.len() - c,
    {
        let ghost before = header.deep_view();
        let name = columns[c].name.clone();
        assert(name@ == header_text(columns@)[c as int]);
        header.push(name);
        assert(header.deep_view() =~= before.push(name@));
        assert(header_text(columns@).take(c as int + 1) =~= header_text(columns@).take(
            c as int,
        ).push(name@));
        c = c + 1;
    }
    assert(header_text(columns@).take(columns@.len() as int) =~= header_text(columns@));
    let mut lines: Vec<Vec<String>> = Vec::new();
    lines.push(header);
    let ghost all = rows_of(rows@);
    assert(lines.deep_view() =~= seq![header_text(columns@)]);
    assert(all.take(0) =~= Seq::<Seq<Cell>>::empty());
    let mut i: usize = 0;
    while i < rows.len()
        invariant
            i <= rows@.len(),
            all == rows_of(rows@),
            forall|j: int| 0 <= j < rows@.len() ==> #[trigger] rows@[j]@.len() == columns@.len(),
            snapshot_text(columns@, all.take(i as int)) == Ok::<Seq<Seq<Seq<char>>>, RenderError>(
                lines.deep_view(),
            ),
        decreases rows@.len() - i,
    {
        assert(all.take(i as int + 1).drop_last() =~= all.take(i as int));
        assert(all.take(i as int + 1).last() == rows@[i as int]@);
        match render_row(columns, rows[i].as_slice(), ws) {
            Ok(t) => {
                let ghost before = lines.deep_view();
                lines.push(t);
                assert(lines.deep_view() =~= before.push(t.deep_view()));
            },
            Err(e) => {
                proof {
                    lemma_snapshot_error_sticks(columns@, all, i as int + 1, all.len() as int);
                    assert(all.take(all.len() as int) =~= all);
                }
                return Err(e);
            },
        }
        i = i + 1;
    }
    assert(all.take(rows@.len() as int) =~= all);
    Ok(lines)
}

/// Once a row fails, every longer prefix of the snapshot fails the same way.
proof fn lemma_snapshot_error_sticks(columns: Seq<Column>, rows: Seq<Seq<Cell>>, k: int, m: int)
    requires
        1 <= k <= m <= rows.len(),
        snapshot_text(columns, rows.take(k)) is Err,
    ensures
        snapshot_text(columns, rows.take(m)) == snapshot_text(columns, rows.take(k)),
    decreases m - k,
{
    if m > k {
        lemma_snapshot_error_sticks(columns, rows, k, m - 1);
        assert(rows.take(m).drop_last() =~= rows.take(m - 1));
    }
}

/// Every line of a rendered snapshot has one text per column.
pub proof fn lemma_snapshot_rows_fit(columns: Seq<Column>, rows: Seq<Seq<Cell>>)
    ensures
        snapshot_text(columns, rows) is Ok ==> rows_fit(
            snapshot_text(columns, rows)->Ok_0,
            columns.len() as int,
        ),
    decreases rows.len(),
{
    if rows.len() > 0 {
        lemma_snapshot_rows_fit(columns, rows.drop_last());
        lemma_prefix_len(columns, rows.last(), columns.len() as int);
    }
}

/// A cell that its column's type can render: absent, or a value of that
/// type (a timestamp only within the calendar range).
pub open spec fn cell_fits(kind: ColumnType, cell: Cell) -> bool {
    match cell {
        Cell::Null => true,
        Cell::Timestamp(us) => kind == ColumnType::Timestamp && rfc3339_micros(us as int) is Some,
        Cell::Int(_) => kind == ColumnType::Integer,
        Cell::Text(_) => kind == ColumnType::Text,
    }
}

/// A rendered row always has exactly one text per schema column; and when
/// every type tag of the schema is supported and every cell holds a value
/// its column's type can render, rendering the row does not fail.
pub proof fn lemma_supported_schema_renders(columns: Seq<Column>, row: Seq<Cell>)
    requires
        row.len() == columns.len(),
        forall|i: int| 0 <= i < columns.len() ==> #[trigger] kinds_of(columns)[i] is Some,
    ensures
        row_text(columns, row) is Ok ==> row_text(columns, row)->Ok_0.len() == columns.len(),
        (forall|i: int|
            0 <= i < columns.len() ==> #[trigger] cell_fits(kinds_of(columns)[i]->Some_0, row[i]))
            ==> row_text(columns, row) is Ok,
{
    lemma_prefix_len(columns, row, columns.len() as int);
    if forall|i: int|
        0 <= i < columns.len() ==> #[trigger] cell_fits(kinds_of(columns)[i]->Some_0, row[i]) {
        lemma_prefix_renders(columns, row, columns.len() as int);
    }
}

/// A successfully rendered prefix of `k` columns has `k` texts.
proof fn lemma_prefix_len(columns: Seq<Column>, row: Seq<Cell>, k: int)
    requires
        0 <= k,
    ensures
        row_prefix_text(columns, row, k) is Ok ==> row_prefix_text(columns, row, k)->Ok_0.len()
            == k,
    decreases k,
{
    if k > 0 {
        lemma_prefix_len(columns, row, k - 1);
    }
}

/// Cells that all fit their supported columns render without error.
proof fn lemma_prefix_renders(columns: Seq<Column>, row: Seq<Cell>, k: int)
    requires
        0 <= k <= columns.len(),
        row.len() == columns.len(),
        forall|i: int| 0 <= i < columns.len() ==> #[trigger] kinds_of(columns)[i] is Some,
        forall|i: int|
            0 <= i < columns.len() ==> #[trigger] cell_fits(kinds_of(columns)[i]->Some_0, row[i]),
    ensures
        row_prefix_text(columns, row, k) is Ok,
    decreases k,
{
    if k > 0 {
        lemma_prefix_renders(columns, row, k - 1);
        assert(kinds_of(columns)[k - 1] is Some);
        assert(cell_fits(kinds_of(columns)[k - 1]->Some_0, row[k - 1]));
    }
}

/// Once a column fails, every longer prefix of the row fails the same way.
proof fn lemma_prefix_error_sticks(columns: Seq<Column>, row: Seq<Cell>, k: int, m: int)
    requires
        1 <= k <= m,
        row_prefix_text(columns, row, k) is Err,
    ensures
        row_prefix_text(columns, row, m) == row_prefix_text(columns, row, k),
    decreases m - k,
{
    if m > k {
        lemma_prefix_error_sticks(columns, row, k, m - 1);
    }
}

} // verus!
