use licitacao360::ids::DatasetId;
use licitacao360::records::{table_from_records, ContratosData, MatrizRiscosData, PlanejamentoData};
use licitacao360::schema::schema_names;
use licitacao360::store::{read_table, save_payload};

#[test]
fn new_contract_record_is_all_absent() {
    let r = ContratosData::new();
    assert_eq!(r.numero, None);
    assert_eq!(r.ano, None);
    assert_eq!(r.id_processo, None);
    assert_eq!(r.nup, None);
    assert_eq!(r.objeto, None);
}

#[test]
fn contract_record_becomes_one_row_in_schema_order() {
    let mut r = ContratosData::new();
    r.numero = Some("87".to_string());
    r.objeto = Some("tinta".to_string());
    let t = r.to_dataframe();
    assert_eq!(t.num_rows(), 1);
    assert_eq!(t.num_cols(), 5);
    let names = schema_names(DatasetId::Contratos);
    for (j, name) in names.iter().enumerate() {
        assert_eq!(t.column(j).name(), name);
    }
    assert_eq!(t.cell(0, 0), &Some("87".to_string()));
    assert_eq!(t.cell(0, 1), &None);
    assert_eq!(t.cell(0, 4), &Some("tinta".to_string()));
    assert_eq!(t.cell_text(0, 0), "87");
    assert_eq!(t.cell_text(0, 1), "");
}

#[test]
fn risk_record_becomes_one_row_in_schema_order() {
    let mut r = MatrizRiscosData::new();
    r.risco = Some("atraso".to_string());
    r.probabilidade = Some("alta".to_string());
    let t = r.to_dataframe();
    assert_eq!(t.num_rows(), 1);
    assert_eq!(t.num_cols(), 7);
    assert_eq!(t.cell(0, 0), &Some("atraso".to_string()));
    assert_eq!(t.cell(0, 6), &Some("alta".to_string()));
    assert_eq!(t.cell(0, 3), &None);
}

#[test]
fn planning_record_becomes_one_row_with_all_columns() {
    let mut r = PlanejamentoData::new();
    r.tipo = Some("PR".to_string());
    r.situacao = Some("aberta".to_string());
    let t = r.to_dataframe();
    assert_eq!(t.num_rows(), 1);
    assert_eq!(t.num_cols(), 32);
    assert_eq!(t.cell(0, 0), &Some("PR".to_string()));
    assert_eq!(t.cell(0, 31), &Some("aberta".to_string()));
    assert_eq!(t.cell(0, 15), &None);
}

#[test]
fn imported_records_fill_the_planning_table_row_by_row() {
    let mut r1 = PlanejamentoData::new();
    r1.tipo = Some("PR".to_string());
    r1.numero = Some("1".to_string());
    let mut r2 = PlanejamentoData::new();
    r2.tipo = Some("DL".to_string());
    r2.uasg = Some("787000".to_string());
    let t = table_from_records(&vec![r1, r2]);
    assert_eq!(t.num_rows(), 2);
    assert_eq!(t.num_cols(), 32);
    assert_eq!(t.cell(0, 0), &Some("PR".to_string()));
    assert_eq!(t.cell(0, 1), &Some("1".to_string()));
    assert_eq!(t.cell(1, 0), &Some("DL".to_string()));
    assert_eq!(t.cell(1, 8), &Some("787000".to_string()));
    assert_eq!(t.cell(1, 1), &None);
}

#[test]
fn a_record_saved_as_a_table_loads_back_equal() {
    let mut r = ContratosData::new();
    r.nup = Some("62055".to_string());
    let t = r.to_dataframe();
    let back = read_table(save_payload(&t).as_slice()).expect("saved table must load");
    assert_eq!(back, t);
}
