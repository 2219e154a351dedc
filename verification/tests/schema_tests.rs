use licitacao360::ids::DatasetId;
use licitacao360::schema::{names_unique, schema_names};
use licitacao360::store::initial_table;

#[test]
fn every_dataset_has_exactly_one_schema() {
    assert_eq!(schema_names(DatasetId::Contratos).len(), 5);
    assert_eq!(schema_names(DatasetId::Planejamento).len(), 32);
    assert_eq!(schema_names(DatasetId::MatrizRiscos).len(), 7);
    assert_eq!(schema_names(DatasetId::Atas).len(), 0);
    assert_eq!(schema_names(DatasetId::DispensaEletronica).len(), 0);
    assert_eq!(schema_names(DatasetId::Automacoes).len(), 0);
}

#[test]
fn contract_columns_in_order() {
    assert_eq!(
        schema_names(DatasetId::Contratos),
        vec!["numero", "ano", "id_processo", "nup", "objeto"]
    );
}

#[test]
fn planning_columns_start_and_end_as_declared() {
    let names = schema_names(DatasetId::Planejamento);
    assert_eq!(names[0], "tipo");
    assert_eq!(names[12], "coordenador_planejamento");
    assert_eq!(names[31], "situacao");
}

#[test]
fn risk_matrix_columns_in_order() {
    assert_eq!(
        schema_names(DatasetId::MatrizRiscos),
        vec![
            "risco",
            "causa",
            "consequencia",
            "acao_corretiva",
            "acao_preventiva",
            "impacto",
            "probabilidade"
        ]
    );
}

#[test]
fn column_names_are_unique_within_each_dataset() {
    for id in DatasetId::all() {
        assert!(names_unique(&schema_names(id)));
    }
}

#[test]
fn uniqueness_check_detects_duplicates() {
    let dup = vec!["a".to_string(), "b".to_string(), "a".to_string()];
    assert!(!names_unique(&dup));
    assert!(names_unique(&Vec::new()));
}

#[test]
fn initial_tables_carry_the_schema_and_no_rows() {
    for id in DatasetId::all() {
        let t = initial_table(id);
        let names = schema_names(id);
        assert_eq!(t.num_rows(), 0);
        assert_eq!(t.num_cols(), names.len());
        for (j, name) in names.iter().enumerate() {
            assert_eq!(t.column(j).name(), name);
            assert_eq!(t.column(j).len(), 0);
        }
    }
}
