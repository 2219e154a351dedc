use licitacao360::codec::{encode_table, parse_table};
use licitacao360::table::{Column, Table};

fn two_by_two() -> Table {
    let mut t = Table::new(vec!["a".to_string(), "b".to_string()]);
    t.push_row(vec![Some("1".to_string()), Some("2".to_string())]);
    t.push_row(vec![Some("x".to_string()), Some("y".to_string())]);
    t
}

#[test]
fn round_trip_two_columns_two_rows() {
    let t = two_by_two();
    let bytes = encode_table(&t);
    let back = parse_table(bytes.as_slice()).expect("own encoding must parse");
    assert_eq!(back, t);
    assert_eq!(back.num_rows(), 2);
    assert_eq!(back.num_cols(), 2);
    assert_eq!(back.column(0).name(), "a");
    assert_eq!(back.column(1).name(), "b");
    assert_eq!(back.cell(0, 0), &Some("1".to_string()));
    assert_eq!(back.cell(0, 1), &Some("2".to_string()));
    assert_eq!(back.cell(1, 0), &Some("x".to_string()));
    assert_eq!(back.cell(1, 1), &Some("y".to_string()));
}

#[test]
fn round_trip_keeps_absent_cells_and_accents() {
    let mut t = Table::new(vec!["objeto".to_string()]);
    t.push_row(vec![None]);
    t.push_row(vec![Some("coração e ação".to_string())]);
    let bytes = encode_table(&t);
    let back = parse_table(bytes.as_slice()).expect("own encoding must parse");
    assert_eq!(back, t);
    assert_eq!(back.cell(0, 0), &None);
    assert_eq!(back.cell(1, 0), &Some("coração e ação".to_string()));
}

#[test]
fn encoding_is_deterministic() {
    let t = two_by_two();
    assert_eq!(encode_table(&t), encode_table(&t));
}

#[test]
fn empty_table_encodes_to_the_two_zero_counts() {
    let t = Table::new(Vec::new());
    let bytes = encode_table(&t);
    assert_eq!(bytes, vec![0u8; 16]);
}

#[test]
fn truncated_and_garbage_bytes_do_not_parse() {
    assert!(parse_table(&[]).is_none());
    assert!(parse_table(&[1, 2, 3]).is_none());
    assert!(parse_table(&[0u8; 15]).is_none());
    assert!(parse_table(&[0xFFu8; 32]).is_none());
}

#[test]
fn trailing_bytes_are_rejected() {
    let t = two_by_two();
    let mut bytes = encode_table(&t);
    bytes.push(0);
    assert!(parse_table(bytes.as_slice()).is_none());
}

#[test]
fn invalid_scalar_value_is_rejected() {
    // one column, zero rows, name of one character holding a surrogate value
    let mut bytes = Vec::new();
    bytes.extend_from_slice(&1u64.to_le_bytes());
    bytes.extend_from_slice(&0u64.to_le_bytes());
    bytes.extend_from_slice(&1u64.to_le_bytes());
    bytes.extend_from_slice(&0xD800u32.to_le_bytes());
    assert!(parse_table(bytes.as_slice()).is_none());
}

#[test]
fn bad_cell_tag_is_rejected() {
    let mut t = Table::new(vec!["a".to_string()]);
    t.push_row(vec![None]);
    let mut bytes = encode_table(&t);
    let last = bytes.len() - 1;
    bytes[last] = 7;
    assert!(parse_table(bytes.as_slice()).is_none());
}

#[test]
fn column_from_parts_round_trips() {
    let col = Column::new("k".to_string(), vec![Some("v".to_string()), None]);
    let t = Table::from_columns(2, vec![col]);
    let back = parse_table(encode_table(&t).as_slice()).expect("own encoding must parse");
    assert_eq!(back, t);
}
