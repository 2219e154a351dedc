use licitacao360::shape::{same_shape, shape, DataFrameWrapper};
use licitacao360::table::Table;

fn table(names: &[&str], rows: &[&[&str]]) -> Table {
    let mut t = Table::new(names.iter().map(|n| n.to_string()).collect());
    for row in rows {
        t.push_row(row.iter().map(|v| Some(v.to_string())).collect());
    }
    t
}

#[test]
fn equal_shape_ignores_cell_contents() {
    let a = table(&["a", "b"], &[&["1", "2"], &["3", "4"], &["5", "6"]]);
    let b = table(&["a", "b"], &[&["x", "y"], &["z", "w"], &["q", "r"]]);
    assert_eq!(shape(&a), (3, 2));
    assert_eq!(shape(&b), (3, 2));
    assert!(same_shape(&a, &b));
    assert!(DataFrameWrapper(Some(a)).same(&DataFrameWrapper(Some(b))));
}

#[test]
fn different_row_counts_differ() {
    let a = table(&["a", "b"], &[&["1", "2"], &["3", "4"], &["5", "6"]]);
    let b = table(&["a", "b"], &[&["1", "2"], &["3", "4"], &["5", "6"], &["7", "8"]]);
    assert!(!same_shape(&a, &b));
    assert!(!DataFrameWrapper(Some(a)).same(&DataFrameWrapper(Some(b))));
}

#[test]
fn different_column_counts_differ() {
    let a = table(&["a", "b"], &[&["1", "2"]]);
    let b = table(&["a"], &[&["1"]]);
    assert!(!same_shape(&a, &b));
}

#[test]
fn absent_matches_only_absent() {
    let present = DataFrameWrapper(Some(table(&["a"], &[])));
    let absent = DataFrameWrapper(None);
    assert!(DataFrameWrapper(None).same(&absent));
    assert!(!absent.same(&present));
    assert!(!present.same(&absent));
}
