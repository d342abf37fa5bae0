use psd::cells::{convert_to_strings, render_row, Cell, Column, ColumnType, RenderError, WsCollapser};
use psd::printer::{encode_snapshot, render, MARGIN};

const T_MICROS: i64 = 1516991409453829;
const T_TEXT: &str = "2018-01-26T18:30:09.453829Z";

fn col(name: &str, tag: &str) -> Column {
    Column { name: name.to_string(), type_tag: tag.to_string() }
}

fn schema_a() -> Vec<Column> {
    vec![col("now", "timestamptz"), col("pid", "int4"), col("query", "text")]
}

fn strings(v: &[&str]) -> Vec<String> {
    v.iter().map(|s| s.to_string()).collect()
}

#[test]
fn scenario_a_row_and_line() {
    let ws = WsCollapser::new().expect("pattern compiles");
    let rows = vec![vec![Cell::Timestamp(T_MICROS), Cell::Int(42), Cell::Text("select  1".to_string())]];
    let lines = convert_to_strings(&schema_a(), &rows, &ws).unwrap();
    assert_eq!(lines, vec![strings(&["now", "pid", "query"]), strings(&[T_TEXT, "42", "select 1"])]);

    let mut mins = vec![0usize; 3];
    let block = render(&lines, &mut mins);
    assert_eq!(mins, vec![27, 3, 8]);
    let expected = format!(
        "{:30}{:6}{}\n{:30}{:6}{}\n",
        "now", "pid", "query", T_TEXT, "42", "select 1"
    );
    assert_eq!(block, expected);
}

#[test]
fn scenario_b_later_wider_value_does_not_repad_earlier_block() {
    let ws = WsCollapser::new().unwrap();
    let schema = schema_a();
    let mut mins = vec![0usize; 3];
    let first = vec![vec![Cell::Timestamp(T_MICROS), Cell::Int(7), Cell::Text("select 1".to_string())]];
    let block1 = encode_snapshot(&schema, &first, &ws, &mut mins).unwrap();
    let widths1 = mins.clone();
    let second = vec![vec![
        Cell::Timestamp(T_MICROS),
        Cell::Int(7),
        Cell::Text("select a_much_longer_column from somewhere".to_string()),
    ]];
    let block2 = encode_snapshot(&schema, &second, &ws, &mut mins).unwrap();
    assert_eq!(widths1, vec![27, 3, 8]);
    assert_eq!(mins, vec![27, 3, 42]);
    assert!(mins[2] > widths1[2]);
    assert_eq!(block1, format!("{:30}{:6}query\n{:30}{:6}select 1\n", "now", "pid", T_TEXT, "7"));
    assert!(block2.ends_with("select a_much_longer_column from somewhere\n"));
}

#[test]
fn widths_never_shrink_across_snapshots() {
    let mut mins = vec![10usize, 0];
    let a = vec![strings(&["x", "yy"])];
    render(&a, &mut mins);
    assert_eq!(mins, vec![10, 2]);
    let b = vec![strings(&["a-long-value", "z"])];
    render(&b, &mut mins);
    assert_eq!(mins, vec![12, 2]);
    let c = vec![strings(&["", ""])];
    render(&c, &mut mins);
    assert_eq!(mins, vec![12, 2]);
}

#[test]
fn padded_columns_are_tracked_width_plus_margin() {
    let mut mins = vec![0usize, 0, 0];
    let lines = vec![strings(&["a", "bbbb", "last  "]), strings(&["ccc", "d", "e"])];
    let block = render(&lines, &mut mins);
    assert_eq!(mins, vec![3, 4, 6]);
    assert_eq!(MARGIN, 3);
    assert_eq!(block, "a     bbbb   last  \nccc   d      e\n");
}

#[test]
fn single_column_is_written_verbatim() {
    let mut mins = vec![0usize];
    let block = render(&[strings(&["  spaced  "])], &mut mins);
    assert_eq!(block, "  spaced  \n");
    assert_eq!(mins, vec![10]);
}

#[test]
fn empty_snapshot_has_header_only() {
    let ws = WsCollapser::new().unwrap();
    let lines = convert_to_strings(&schema_a(), &[], &ws).unwrap();
    assert_eq!(lines, vec![strings(&["now", "pid", "query"])]);
}

#[test]
fn absent_values_render_empty() {
    let ws = WsCollapser::new().unwrap();
    let row = render_row(&schema_a(), &[Cell::Null, Cell::Null, Cell::Null], &ws).unwrap();
    assert_eq!(row, strings(&["", "", ""]));
}

#[test]
fn integers_render_in_decimal() {
    let ws = WsCollapser::new().unwrap();
    let schema = vec![col("datid", "oid"), col("pid", "int4")];
    let row = render_row(&schema, &[Cell::Int(4294967295), Cell::Int(-42)], &ws).unwrap();
    assert_eq!(row, strings(&["4294967295", "-42"]));
}

#[test]
fn text_whitespace_runs_collapse() {
    let ws = WsCollapser::new().unwrap();
    let schema = vec![col("a", "name"), col("b", "varchar"), col("c", "text")];
    let cells = [
        Cell::Text("x \t\n y".to_string()),
        Cell::Text("  lead".to_string()),
        Cell::Text("plain".to_string()),
    ];
    let row = render_row(&schema, &cells, &ws).unwrap();
    assert_eq!(row, strings(&["x y", " lead", "plain"]));
    assert_eq!(ws.collapse("a\n\nb"), "a b");
    assert_eq!(ws.collapse(""), "");
}

#[test]
fn timestamp_renders_rfc3339_micros() {
    let ws = WsCollapser::new().unwrap();
    let schema = vec![col("t", "timestamptz")];
    assert_eq!(render_row(&schema, &[Cell::Timestamp(0)], &ws).unwrap(), strings(&["1970-01-01T00:00:00.000000Z"]));
    assert_eq!(render_row(&schema, &[Cell::Timestamp(T_MICROS)], &ws).unwrap(), strings(&[T_TEXT]));
}

#[test]
fn timestamp_out_of_range_is_an_error() {
    let ws = WsCollapser::new().unwrap();
    let schema = vec![col("n", "int4"), col("t", "timestamptz")];
    let r = render_row(&schema, &[Cell::Int(1), Cell::Timestamp(i64::MAX)], &ws);
    assert_eq!(r, Err(RenderError::TimestampOutOfRange { column: 1 }));
}

#[test]
fn unknown_type_tag_is_an_error() {
    let ws = WsCollapser::new().unwrap();
    let schema = vec![col("pid", "int4"), col("addr", "inet"), col("x", "bool")];
    let r = render_row(&schema, &[Cell::Int(1), Cell::Null, Cell::Null], &ws);
    assert_eq!(r, Err(RenderError::UnknownType { column: 1 }));
    let rows = vec![vec![Cell::Int(1), Cell::Null, Cell::Null]];
    assert_eq!(convert_to_strings(&schema, &rows, &ws), Err(RenderError::UnknownType { column: 1 }));
}

#[test]
fn unknown_type_without_rows_still_renders_header() {
    let ws = WsCollapser::new().unwrap();
    let schema = vec![col("addr", "inet")];
    assert_eq!(convert_to_strings(&schema, &[], &ws), Ok(vec![strings(&["addr"])]));
}

#[test]
fn value_of_wrong_type_is_an_error() {
    let ws = WsCollapser::new().unwrap();
    let r = render_row(&schema_a(), &[Cell::Int(3), Cell::Int(1), Cell::Null], &ws);
    assert_eq!(r, Err(RenderError::TypeMismatch { column: 0 }));
}

#[test]
fn failed_snapshot_leaves_widths_untouched() {
    let ws = WsCollapser::new().unwrap();
    let mut mins = vec![1usize, 1, 1];
    let rows = vec![vec![Cell::Null, Cell::Text("x".to_string()), Cell::Null]];
    let r = encode_snapshot(&schema_a(), &rows, &ws, &mut mins);
    assert_eq!(r, Err(RenderError::TypeMismatch { column: 1 }));
    assert_eq!(mins, vec![1, 1, 1]);
}

#[test]
fn type_tags_resolve() {
    assert_eq!(ColumnType::from_tag("timestamptz"), Some(ColumnType::Timestamp));
    assert_eq!(ColumnType::from_tag("oid"), Some(ColumnType::Integer));
    assert_eq!(ColumnType::from_tag("int4"), Some(ColumnType::Integer));
    assert_eq!(ColumnType::from_tag("name"), Some(ColumnType::Text));
    assert_eq!(ColumnType::from_tag("text"), Some(ColumnType::Text));
    assert_eq!(ColumnType::from_tag("varchar"), Some(ColumnType::Text));
    assert_eq!(ColumnType::from_tag("int8"), None);
    assert_eq!(ColumnType::from_tag(""), None);
}
