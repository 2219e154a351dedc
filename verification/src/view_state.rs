//! Session state the panel-switching shell keeps beside the dataset cache,
//! and the rule mapping an active view to the dataset it demands.
//!
//! The shell switches panels by a selector string; activating a panel that
//! shows a dataset is what triggers a demand on the cache.  That mapping is
//! the decision at the heart of the view switch and lives here; the widget
//! building around it stays outside this crate.

use vstd::prelude::*;
use crate::ids::DatasetId;

verus! {

/// The dataset a view selector demands, if any; the home panel demands none.
pub open spec fn spec_dataset_for_view(v: Seq<char>) -> Option<DatasetId> {
    if v == "Planejamento"@ {
        Option::Some(DatasetId::Planejamento)
    } else if v == "Atas"@ {
        Option::Some(DatasetId::Atas)
    } else if v == "Contratos"@ {
        Option::Some(DatasetId::Contratos)
    } else if v == "Dispensa Eletrônica"@ {
        Option::Some(DatasetId::DispensaEletronica)
    } else if v == "Matriz de Riscos"@ {
        Option::Some(DatasetId::MatrizRiscos)
    } else if v == "Automações"@ {
        Option::Some(DatasetId::Automacoes)
    } else {
        Option::None
    }
}

/// Plain text equality.
fn str_eq(a: &str, b: &str) -> (r: bool)
    ensures
        r == (a@ == b@),
{
    let sa = a.to_owned();
    let sb = b.to_owned();
    sa == sb
}

/// Decides which dataset the newly active view demands.  Selectors that name
/// no dataset — the home panel among them — demand none.
pub fn dataset_for_view(view: &str) -> (r: Option<DatasetId>)
    ensures
        r == spec_dataset_for_view(view@),
{
    if str_eq(view, "Planejamento") {
        Option::Some(DatasetId::Planejamento)
    } else if str_eq(view, "Atas") {
        Option::Some(DatasetId::Atas)
    } else if str_eq(view, "Contratos") {
        Option::Some(DatasetId::Contratos)
    } else if str_eq(view, "Dispensa Eletrônica") {
        Option::Some(DatasetId::DispensaEletronica)
    } else if str_eq(view, "Matriz de Riscos") {
        Option::Some(DatasetId::MatrizRiscos)
    } else if str_eq(view, "Automações") {
        Option::Some(DatasetId::Automacoes)
    } else {
        Option::None
    }
}

/// Per-panel state of the home panel.
#[derive(Clone, Debug, PartialEq, Eq)]
pub struct InicioController {
    pub some_field: String,
}

impl Default for InicioController {
    fn default() -> (r: InicioController)
        ensures
            r.some_field@ == "default value"@,
    {
        InicioController { some_field: "default value".to_owned() }
    }
}

/// Per-panel state of the contracts panel.
#[derive(Clone, Debug, PartialEq, Eq)]
pub struct ContratosController {
    pub another_field: String,
}

impl Default for ContratosController {
    fn default() -> (r: ContratosController)
        ensures
            r.another_field@ == "default value"@,
    {
        ContratosController { another_field: "default value".to_owned() }
    }
}

/// Per-panel state of the planning panel.
#[derive(Clone, Debug, PartialEq, Eq)]
pub struct PlanejamentoController {
    pub another_field: String,
}

impl Default for PlanejamentoController {
    fn default() -> (r: PlanejamentoController)
        ensures
            r.another_field@ == "default value"@,
    {
        PlanejamentoController { another_field: "default value".to_owned() }
    }
}

/// Per-panel state of the electronic-waiver panel.
#[derive(Clone, Debug, PartialEq, Eq)]
pub struct DispensaEletronicaController {
    pub another_field: String,
}

impl Default for DispensaEletronicaController {
    fn default() -> (r: DispensaEletronicaController)
        ensures
            r.another_field@ == "default value"@,
    {
        DispensaEletronicaController { another_field: "default value".to_owned() }
    }
}

/// Per-panel state of the risk-matrix panel.
#[derive(Clone, Debug, PartialEq, Eq)]
pub struct MatrizRiscosController {
    pub another_field: String,
}

impl Default for MatrizRiscosController {
    fn default() -> (r: MatrizRiscosController)
        ensures
            r.another_field@ == "default value"@,
    {
        MatrizRiscosController { another_field: "default value".to_owned() }
    }
}

/// Per-panel state of the automations panel.
#[derive(Clone, Debug, PartialEq, Eq)]
pub struct AutomacoesController {
    pub another_field: String,
}

impl Default for AutomacoesController {
    fn default() -> (r: AutomacoesController)
        ensures
            r.another_field@ == "default value"@,
    {
        AutomacoesController { another_field: "default value".to_owned() }
    }
}

/// Tag of the home panel; its widgets are built outside this crate.
#[derive(Clone, Copy, Debug, PartialEq, Eq, Structural)]
pub struct Inicio;

impl Inicio {
    /// The selector under which the shell shows this panel.
    pub fn view_name() -> (r: &'static str)
        ensures
            r@ == "Início"@,
    {
        "Início"
    }
}

/// Tag of the minutes panel; its widgets are built outside this crate.
#[derive(Clone, Copy, Debug, PartialEq, Eq, Structural)]
pub struct Atas;

impl Atas {
    /// The selector under which the shell shows this panel.
    pub fn view_name() -> (r: &'static str)
        ensures
            r@ == "Atas"@,
    {
        "Atas"
    }
}

/// Tag of the automations panel; its widgets are built outside this crate.
#[derive(Clone, Copy, Debug, PartialEq, Eq, Structural)]
pub struct Automacoes;

impl Automacoes {
    /// The selector under which the shell shows this panel.
    pub fn view_name() -> (r: &'static str)
        ensures
            r@ == "Automações"@,
    {
        "Automações"
    }
}

/// Tag of the shell's menu-command receiver; the command handling itself is
/// window plumbing and stays outside this crate.
#[derive(Clone, Copy, Debug, PartialEq, Eq, Structural)]
pub struct Delegate;

/// Every selector that demands a dataset demands a distinct one, and the
/// home panel's selector demands none.
pub proof fn lemma_view_mapping_sound()
    ensures
        spec_dataset_for_view("Início"@) is None,
        spec_dataset_for_view("Planejamento"@) == Option::Some(DatasetId::Planejamento),
        spec_dataset_for_view("Atas"@) == Option::Some(DatasetId::Atas),
        spec_dataset_for_view("Contratos"@) == Option::Some(DatasetId::Contratos),
        spec_dataset_for_view("Dispensa Eletrônica"@) == Option::Some(DatasetId::DispensaEletronica),
        spec_dataset_for_view("Matriz de Riscos"@) == Option::Some(DatasetId::MatrizRiscos),
        spec_dataset_for_view("Automações"@) == Option::Some(DatasetId::Automacoes),
{
    reveal_strlit("Início");
    reveal_strlit("Planejamento");
    reveal_strlit("Atas");
    reveal_strlit("Contratos");
    reveal_strlit("Dispensa Eletrônica");
    reveal_strlit("Matriz de Riscos");
    reveal_strlit("Automações");
    assert("Início"@.len() == 6);
    assert("Planejamento"@.len() == 12);
    assert("Atas"@.len() == 4);
    assert("Contratos"@.len() == 9);
    assert("Dispensa Eletrônica"@.len() == 19);
    assert("Matriz de Riscos"@.len() == 16);
    assert("Automações"@.len() == 10);
}

} // verus!
