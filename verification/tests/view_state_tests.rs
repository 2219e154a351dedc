use licitacao360::ids::DatasetId;
use licitacao360::view_state::{
    dataset_for_view, Atas, Automacoes, AutomacoesController, ContratosController,
    DispensaEletronicaController, Inicio, InicioController, MatrizRiscosController,
    PlanejamentoController,
};

#[test]
fn each_dataset_view_demands_its_dataset() {
    assert_eq!(dataset_for_view("Planejamento"), Some(DatasetId::Planejamento));
    assert_eq!(dataset_for_view("Atas"), Some(DatasetId::Atas));
    assert_eq!(dataset_for_view("Contratos"), Some(DatasetId::Contratos));
    assert_eq!(dataset_for_view("Dispensa Eletrônica"), Some(DatasetId::DispensaEletronica));
    assert_eq!(dataset_for_view("Matriz de Riscos"), Some(DatasetId::MatrizRiscos));
    assert_eq!(dataset_for_view("Automações"), Some(DatasetId::Automacoes));
}

#[test]
fn other_views_demand_none() {
    assert_eq!(dataset_for_view("Início"), None);
    assert_eq!(dataset_for_view(""), None);
    assert_eq!(dataset_for_view("Atlas"), None);
    assert_eq!(dataset_for_view("contratos"), None);
}

#[test]
fn panel_names_match_their_selectors() {
    assert_eq!(Inicio::view_name(), "Início");
    assert_eq!(Atas::view_name(), "Atas");
    assert_eq!(Automacoes::view_name(), "Automações");
    assert_eq!(dataset_for_view(Atas::view_name()), Some(DatasetId::Atas));
    assert_eq!(dataset_for_view(Inicio::view_name()), None);
}

#[test]
fn controllers_start_from_their_default_fields() {
    assert_eq!(InicioController::default().some_field, "default value");
    assert_eq!(ContratosController::default().another_field, "default value");
    assert_eq!(PlanejamentoController::default().another_field, "default value");
    assert_eq!(DispensaEletronicaController::default().another_field, "default value");
    assert_eq!(MatrizRiscosController::default().another_field, "default value");
    assert_eq!(AutomacoesController::default().another_field, "default value");
}
