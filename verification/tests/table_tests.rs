use licitacao360::ids::{DatasetId, DATASET_COUNT};
use licitacao360::table::{Column, Table};

#[test]
fn a_new_table_has_the_given_columns_and_no_rows() {
    let t = Table::new(vec!["a".to_string(), "b".to_string()]);
    assert_eq!(t.num_rows(), 0);
    assert_eq!(t.num_cols(), 2);
    assert_eq!(t.column(0).name(), "a");
    assert_eq!(t.column(1).name(), "b");
}

#[test]
fn pushed_rows_keep_order_and_values() {
    let mut t = Table::new(vec!["a".to_string(), "b".to_string()]);
    t.push_row(vec![Some("1".to_string()), None]);
    t.push_row(vec![None, Some("2".to_string())]);
    assert_eq!(t.num_rows(), 2);
    assert_eq!(t.column(0).len(), 2);
    assert_eq!(t.column(1).len(), 2);
    assert_eq!(t.cell(0, 0), &Some("1".to_string()));
    assert_eq!(t.cell(0, 1), &None);
    assert_eq!(t.cell(1, 0), &None);
    assert_eq!(t.cell(1, 1), &Some("2".to_string()));
}

#[test]
fn cell_text_shows_absent_cells_as_empty() {
    let mut t = Table::new(vec!["a".to_string()]);
    t.push_row(vec![None]);
    t.push_row(vec![Some("texto".to_string())]);
    assert_eq!(t.cell_text(0, 0), "");
    assert_eq!(t.cell_text(1, 0), "texto");
}

#[test]
fn from_columns_assembles_uniform_columns() {
    let a = Column::new("a".to_string(), vec![Some("1".to_string()), Some("2".to_string())]);
    let b = Column::new("b".to_string(), vec![None, Some("3".to_string())]);
    let t = Table::from_columns(2, vec![a, b]);
    assert_eq!(t.num_rows(), 2);
    assert_eq!(t.num_cols(), 2);
    assert_eq!(t.cell(1, 1), &Some("3".to_string()));
}

#[test]
fn dataset_ids_enumerate_and_index_consistently() {
    let all = DatasetId::all();
    assert_eq!(all.len(), DATASET_COUNT);
    for (k, id) in all.iter().enumerate() {
        assert_eq!(id.index(), k);
        assert_eq!(DatasetId::from_index(k), *id);
    }
    assert_eq!(all[0], DatasetId::Contratos);
    assert_eq!(all[5], DatasetId::Automacoes);
}
