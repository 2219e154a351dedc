use licitacao360::ids::DatasetId;
use licitacao360::store::{initial_table, plan_load_or_create, read_table, save_payload, LoadAction, StoreError};
use licitacao360::table::Table;

#[test]
fn existing_file_is_parsed_not_recreated() {
    for id in DatasetId::all() {
        assert!(matches!(plan_load_or_create(id, true), LoadAction::ParseExisting));
    }
}

#[test]
fn missing_file_is_created_with_the_schema_and_zero_rows() {
    match plan_load_or_create(DatasetId::Contratos, false) {
        LoadAction::ParseExisting => panic!("a missing file must be created"),
        LoadAction::CreateFresh { table, bytes } => {
            assert_eq!(table, initial_table(DatasetId::Contratos));
            assert_eq!(table.num_rows(), 0);
            assert_eq!(table.num_cols(), 5);
            assert_eq!(bytes, save_payload(&initial_table(DatasetId::Contratos)));
        },
    }
}

#[test]
fn creation_is_idempotent() {
    // First call writes these bytes; the second call finds the file and
    // parses them back: same table, and nothing new to write.
    for id in DatasetId::all() {
        match plan_load_or_create(id, false) {
            LoadAction::ParseExisting => panic!("a missing file must be created"),
            LoadAction::CreateFresh { table, bytes } => {
                let reread = read_table(bytes.as_slice()).expect("created file must parse");
                assert_eq!(reread, table);
                assert!(matches!(plan_load_or_create(id, true), LoadAction::ParseExisting));
                let again = match plan_load_or_create(id, false) {
                    LoadAction::CreateFresh { bytes, .. } => bytes,
                    LoadAction::ParseExisting => panic!(),
                };
                assert_eq!(again, bytes);
            },
        }
    }
}

#[test]
fn corrupt_bytes_surface_a_read_error() {
    assert_eq!(read_table(&[0xAB, 0xCD]).unwrap_err(), StoreError::Read);
    assert_eq!(read_table(&[]).unwrap_err(), StoreError::Read);
}

#[test]
fn save_then_load_returns_the_same_table() {
    let mut t = Table::new(vec!["a".to_string(), "b".to_string()]);
    t.push_row(vec![Some("1".to_string()), Some("2".to_string())]);
    t.push_row(vec![Some("x".to_string()), Some("y".to_string())]);
    let bytes = save_payload(&t);
    let back = read_table(bytes.as_slice()).expect("saved table must load");
    assert_eq!(back, t);
}
