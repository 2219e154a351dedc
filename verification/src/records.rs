//! Per-module record types: the column values a form hands over to persist.
//!
//! Each record mirrors one dataset's schema, every field optional text, and
//! turns into a one-row table in schema column order, ready to be saved over
//! the dataset's file.

use vstd::prelude::*;
use crate::ids::DatasetId;
use crate::schema::schema;
use crate::table::{Column, ColumnModel, Table, TableModel};

verus! {

/// Copies one optional text cell.
fn clone_cell(v: &Option<String>) -> (r: Option<String>)
    ensures
        r.deep_view() == v.deep_view(),
{
    match v {
        Option::None => Option::None,
        Option::Some(s) => Option::Some(s.clone()),
    }
}

/// A one-cell column body.
fn one_cell(v: &Option<String>) -> (r: Vec<Option<String>>)
    ensures
        r.deep_view() == seq![v.deep_view()],
{
    let mut c: Vec<Option<String>> = Vec::new();
    c.push(clone_cell(v));
    proof {
        assert(c.deep_view() =~= seq![v.deep_view()]);
    }
    c
}

/// One contract record.
#[derive(Clone, Debug, PartialEq, Eq)]
pub struct ContratosData {
    pub numero: Option<String>,
    pub ano: Option<String>,
    pub id_processo: Option<String>,
    pub nup: Option<String>,
    pub objeto: Option<String>,
}

impl ContratosData {
    /// The one-row table this record stands for, in schema column order.
    pub open spec fn spec_table(self) -> TableModel {
        TableModel {
            rows: 1,
            cols: seq![
                ColumnModel { name: "numero"@, cells: seq![self.numero.deep_view()] },
                ColumnModel { name: "ano"@, cells: seq![self.ano.deep_view()] },
                ColumnModel { name: "id_processo"@, cells: seq![self.id_processo.deep_view()] },
                ColumnModel { name: "nup"@, cells: seq![self.nup.deep_view()] },
                ColumnModel { name: "objeto"@, cells: seq![self.objeto.deep_view()] },
            ],
        }
    }

    /// An empty record.
    pub fn new() -> (r: ContratosData)
        ensures
            r.numero is None,
            r.ano is None,
            r.id_processo is None,
            r.nup is None,
            r.objeto is None,
    {
        ContratosData { numero: Option::None, ano: Option::None, id_processo: Option::None, nup: Option::None, objeto: Option::None }
    }

    /// The record as a one-row table.
    pub fn to_dataframe(&self) -> (t: Table)
        ensures
            t@ == self.spec_table(),
            t.wf(),
    {
        let mut cols: Vec<Column> = Vec::new();
        cols.push(Column::new("numero".to_owned(), one_cell(&self.numero)));
        cols.push(Column::new("ano".to_owned(), one_cell(&self.ano)));
        cols.push(Column::new("id_processo".to_owned(), one_cell(&self.id_processo)));
        cols.push(Column::new("nup".to_owned(), one_cell(&self.nup)));
        cols.push(Column::new("objeto".to_owned(), one_cell(&self.objeto)));
        proof {
            assert(cols.deep_view() =~= self.spec_table().cols);
        }
        Table::from_columns(1, cols)
    }
}

/// The contract record's table carries exactly the contract schema's
/// columns, in order, and is well-formed.
pub proof fn lemma_contratos_matches_schema(r: ContratosData)
    ensures
        r.spec_table().cols.len() == schema(DatasetId::Contratos).len(),
        forall|j: int| 0 <= j < schema(DatasetId::Contratos).len()
            ==> (#[trigger] r.spec_table().cols[j]).name == schema(DatasetId::Contratos)[j],
        r.spec_table().wf(),
{
}

/// One risk-matrix record.
#[derive(Clone, Debug, PartialEq, Eq)]
pub struct MatrizRiscosData {
    pub risco: Option<String>,
    pub causa: Option<String>,
    pub consequencia: Option<String>,
    pub acao_corretiva: Option<String>,
    pub acao_preventiva: Option<String>,
    pub impacto: Option<String>,
    pub probabilidade: Option<String>,
}

impl MatrizRiscosData {
    /// The one-row table this record stands for, in schema column order.
    pub open spec fn spec_table(self) -> TableModel {
        TableModel {
            rows: 1,
            cols: seq![
                ColumnModel { name: "risco"@, cells: seq![self.risco.deep_view()] },
                ColumnModel { name: "causa"@, cells: seq![self.causa.deep_view()] },
                ColumnModel { name: "consequencia"@, cells: seq![self.consequencia.deep_view()] },
                ColumnModel { name: "acao_corretiva"@, cells: seq![self.acao_corretiva.deep_view()] },
                ColumnModel { name: "acao_preventiva"@, cells: seq![self.acao_preventiva.deep_view()] },
                ColumnModel { name: "impacto"@, cells: seq![self.impacto.deep_view()] },
                ColumnModel { name: "probabilidade"@, cells: seq![self.probabilidade.deep_view()] },
            ],
        }
    }

    /// An empty record.
    pub fn new() -> (r: MatrizRiscosData)
        ensures
            r.risco is None,
            r.causa is None,
            r.consequencia is None,
            r.acao_corretiva is None,
            r.acao_preventiva is None,
            r.impacto is None,
            r.probabilidade is None,
    {
        MatrizRiscosData {
            risco: Option::None,
            causa: Option::None,
            consequencia: Option::None,
            acao_corretiva: Option::None,
            acao_preventiva: Option::None,
            impacto: Option::None,
            probabilidade: Option::None,
        }
    }

    /// The record as a one-row table.
    pub fn to_dataframe(&self) -> (t: Table)
        ensures
            t@ == self.spec_table(),
            t.wf(),
    {
        let mut cols: Vec<Column> = Vec::new();
        cols.push(Column::new("risco".to_owned(), one_cell(&self.risco)));
        cols.push(Column::new("causa".to_owned(), one_cell(&self.causa)));
        cols.push(Column::new("consequencia".to_owned(), one_cell(&self.consequencia)));
        cols.push(Column::new("acao_corretiva".to_owned(), one_cell(&self.acao_corretiva)));
        cols.push(Column::new("acao_preventiva".to_owned(), one_cell(&self.acao_preventiva)));
        cols.push(Column::new("impacto".to_owned(), one_cell(&self.impacto)));
        cols.push(Column::new("probabilidade".to_owned(), one_cell(&self.probabilidade)));
        proof {
            assert(cols.deep_view() =~= self.spec_table().cols);
        }
        Table::from_columns(1, cols)
    }
}

/// The risk-matrix record's table carries exactly the risk-matrix schema's
/// columns, in order, and is well-formed.
pub proof fn lemma_matriz_riscos_matches_schema(r: MatrizRiscosData)
    ensures
        r.spec_table().cols.len() == schema(DatasetId::MatrizRiscos).len(),
        forall|j: int| 0 <= j < schema(DatasetId::MatrizRiscos).len()
            ==> (#[trigger] r.spec_table().cols[j]).name == schema(DatasetId::MatrizRiscos)[j],
        r.spec_table().wf(),
{
}

/// One planning record.
#[derive(Clone, Debug, PartialEq, Eq)]
pub struct PlanejamentoData {
    pub tipo: Option<String>,
    pub numero: Option<String>,
    pub ano: Option<String>,
    pub id_processo: Option<String>,
    pub nup: Option<String>,
    pub objeto: Option<String>,
    pub objeto_completo: Option<String>,
    pub valor_total: Option<String>,
    pub uasg: Option<String>,
    pub orgao_responsavel: Option<String>,
    pub sigla_om: Option<String>,
    pub setor_responsavel: Option<String>,
    pub coordenador_planejamento: Option<String>,
    pub etapa: Option<String>,
    pub pregoeiro: Option<String>,
    pub item_pca: Option<String>,
    pub portaria_pca: Option<String>,
    pub data_sessao: Option<String>,
    pub data_limite_entrega_tr: Option<String>,
    pub nup_portaria_planejamento: Option<String>,
    pub srp: Option<String>,
    pub material_servico: Option<String>,
    pub parecer_agu: Option<String>,
    pub msg_irp: Option<String>,
    pub data_limite_manifestacao_irp: Option<String>,
    pub data_limite_confirmacao_irp: Option<String>,
    pub num_irp: Option<String>,
    pub om_participantes: Option<String>,
    pub link_pncp: Option<String>,
    pub link_portal_marinha: Option<String>,
    pub custeio: Option<String>,
    pub situacao: Option<String>,
}

impl PlanejamentoData {
    /// The one-row table this record stands for, in schema column order.
    pub open spec fn spec_table(self) -> TableModel {
        TableModel {
            rows: 1,
            cols: seq![
                ColumnModel { name: "tipo"@, cells: seq![self.tipo.deep_view()] },
                ColumnModel { name: "numero"@, cells: seq![self.numero.deep_view()] },
                ColumnModel { name: "ano"@, cells: seq![self.ano.deep_view()] },
                ColumnModel { name: "id_processo"@, cells: seq![self.id_processo.deep_view()] },
                ColumnModel { name: "nup"@, cells: seq![self.nup.deep_view()] },
                ColumnModel { name: "objeto"@, cells: seq![self.objeto.deep_view()] },
                ColumnModel { name: "objeto_completo"@, cells: seq![self.objeto_completo.deep_view()] },
                ColumnModel { name: "valor_total"@, cells: seq![self.valor_total.deep_view()] },
                ColumnModel { name: "uasg"@, cells: seq![self.uasg.deep_view()] },
                ColumnModel { name: "orgao_responsavel"@, cells: seq![self.orgao_responsavel.deep_view()] },
                ColumnModel { name: "sigla_om"@, cells: seq![self.sigla_om.deep_view()] },
                ColumnModel { name: "setor_responsavel"@, cells: seq![self.setor_responsavel.deep_view()] },
                ColumnModel { name: "coordenador_planejamento"@, cells: seq![self.coordenador_planejamento.deep_view()] },
                ColumnModel { name: "etapa"@, cells: seq![self.etapa.deep_view()] },
                ColumnModel { name: "pregoeiro"@, cells: seq![self.pregoeiro.deep_view()] },
                ColumnModel { name: "item_pca"@, cells: seq![self.item_pca.deep_view()] },
                ColumnModel { name: "portaria_pca"@, cells: seq![self.portaria_pca.deep_view()] },
                ColumnModel { name: "data_sessao"@, cells: seq![self.data_sessao.deep_view()] },
                ColumnModel { name: "data_limite_entrega_tr"@, cells: seq![self.data_limite_entrega_tr.deep_view()] },
                ColumnModel { name: "nup_portaria_planejamento"@, cells: seq![self.nup_portaria_planejamento.deep_view()] },
                ColumnModel { name: "srp"@, cells: seq![self.srp.deep_view()] },
                ColumnModel { name: "material_servico"@, cells: seq![self.material_servico.deep_view()] },
                ColumnModel { name: "parecer_agu"@, cells: seq![self.parecer_agu.deep_view()] },
                ColumnModel { name: "msg_irp"@, cells: seq![self.msg_irp.deep_view()] },
                ColumnModel { name: "data_limite_manifestacao_irp"@, cells: seq![self.data_limite_manifestacao_irp.deep_view()] },
                ColumnModel { name: "data_limite_confirmacao_irp"@, cells: seq![self.data_limite_confirmacao_irp.deep_view()] },
                ColumnModel { name: "num_irp"@, cells: seq![self.num_irp.deep_view()] },
                ColumnModel { name: "om_participantes"@, cells: seq![self.om_participantes.deep_view()] },
                ColumnModel { name: "link_pncp"@, cells: seq![self.link_pncp.deep_view()] },
                ColumnModel { name: "link_portal_marinha"@, cells: seq![self.link_portal_marinha.deep_view()] },
                ColumnModel { name: "custeio"@, cells: seq![self.custeio.deep_view()] },
                ColumnModel { name: "situacao"@, cells: seq![self.situacao.deep_view()] },
            ],
        }
    }

    /// An empty record.
    pub fn new() -> (r: PlanejamentoData)
        ensures
            r == (PlanejamentoData {
                tipo: Option::None,
                numero: Option::None,
                ano: Option::None,
                id_processo: Option::None,
                nup: Option::None,
                objeto: Option::None,
                objeto_completo: Option::None,
                valor_total: Option::None,
                uasg: Option::None,
                orgao_responsavel: Option::None,
                sigla_om: Option::None,
                setor_responsavel: Option::None,
                coordenador_planejamento: Option::None,
                etapa: Option::None,
                pregoeiro: Option::None,
                item_pca: Option::None,
                portaria_pca: Option::None,
                data_sessao: Option::None,
                data_limite_entrega_tr: Option::None,
                nup_portaria_planejamento: Option::None,
                srp: Option::None,
                material_servico: Option::None,
                parecer_agu: Option::None,
                msg_irp: Option::None,
                data_limite_manifestacao_irp: Option::None,
                data_limite_confirmacao_irp: Option::None,
                num_irp: Option::None,
                om_participantes: Option::None,
                link_pncp: Option::None,
                link_portal_marinha: Option::None,
                custeio: Option::None,
                situacao: Option::None,
            }),
    {
        PlanejamentoData {
            tipo: Option::None,
            numero: Option::None,
            ano: Option::None,
            id_processo: Option::None,
            nup: Option::None,
            objeto: Option::None,
            objeto_completo: Option::None,
            valor_total: Option::None,
            uasg: Option::None,
            orgao_responsavel: Option::None,
            sigla_om: Option::None,
            setor_responsavel: Option::None,
            coordenador_planejamento: Option::None,
            etapa: Option::None,
            pregoeiro: Option::None,
            item_pca: Option::None,
            portaria_pca: Option::None,
            data_sessao: Option::None,
            data_limite_entrega_tr: Option::None,
            nup_portaria_planejamento: Option::None,
            srp: Option::None,
            material_servico: Option::None,
            parecer_agu: Option::None,
            msg_irp: Option::None,
            data_limite_manifestacao_irp: Option::None,
            data_limite_confirmacao_irp: Option::None,
            num_irp: Option::None,
            om_participantes: Option::None,
            link_pncp: Option::None,
            link_portal_marinha: Option::None,
            custeio: Option::None,
            situacao: Option::None,
        }
    }

    /// The record's cells, one per schema column, in schema order.
    fn row_cells(&self) -> (r: Vec<Option<String>>)
        ensures
            r.deep_view().len() == schema(DatasetId::Planejamento).len(),
            forall|j: int| 0 <= j < schema(DatasetId::Planejamento).len()
                ==> #[trigger] r.deep_view()[j] == self.spec_table().cols[j].cells[0],
    {
        let mut r: Vec<Option<String>> = Vec::new();
        r.push(clone_cell(&self.tipo));
        r.push(clone_cell(&self.numero));
        r.push(clone_cell(&self.ano));
        r.push(clone_cell(&self.id_processo));
        r.push(clone_cell(&self.nup));
        r.push(clone_cell(&self.objeto));
        r.push(clone_cell(&self.objeto_completo));
        r.push(clone_cell(&self.valor_total));
        r.push(clone_cell(&self.uasg));
        r.push(clone_cell(&self.orgao_responsavel));
        r.push(clone_cell(&self.sigla_om));
        r.push(clone_cell(&self.setor_responsavel));
        r.push(clone_cell(&self.coordenador_planejamento));
        r.push(clone_cell(&self.etapa));
        r.push(clone_cell(&self.pregoeiro));
        r.push(clone_cell(&self.item_pca));
        r.push(clone_cell(&self.portaria_pca));
        r.push(clone_cell(&self.data_sessao));
        r.push(clone_cell(&self.data_limite_entrega_tr));
        r.push(clone_cell(&self.nup_portaria_planejamento));
        r.push(clone_cell(&self.srp));
        r.push(clone_cell(&self.material_servico));
        r.push(clone_cell(&self.parecer_agu));
        r.push(clone_cell(&self.msg_irp));
        r.push(clone_cell(&self.data_limite_manifestacao_irp));
        r.push(clone_cell(&self.data_limite_confirmacao_irp));
        r.push(clone_cell(&self.num_irp));
        r.push(clone_cell(&self.om_participantes));
        r.push(clone_cell(&self.link_pncp));
        r.push(clone_cell(&self.link_portal_marinha));
        r.push(clone_cell(&self.custeio));
        r.push(clone_cell(&self.situacao));
        proof {
            assert forall|j: int| 0 <= j < schema(DatasetId::Planejamento).len()
                implies #[trigger] r.deep_view()[j] == self.spec_table().cols[j].cells[0] by {
            }
        }
        r
    }

    /// The record as a one-row table.
    pub fn to_dataframe(&self) -> (t: Table)
        ensures
            t@ == self.spec_table(),
            t.wf(),
    {
        let mut cols: Vec<Column> = Vec::new();
        cols.push(Column::new("tipo".to_owned(), one_cell(&self.tipo)));
        cols.push(Column::new("numero".to_owned(), one_cell(&self.numero)));
        cols.push(Column::new("ano".to_owned(), one_cell(&self.ano)));
        cols.push(Column::new("id_processo".to_owned(), one_cell(&self.id_processo)));
        cols.push(Column::new("nup".to_owned(), one_cell(&self.nup)));
        cols.push(Column::new("objeto".to_owned(), one_cell(&self.objeto)));
        cols.push(Column::new("objeto_completo".to_owned(), one_cell(&self.objeto_completo)));
        cols.push(Column::new("valor_total".to_owned(), one_cell(&self.valor_total)));
        cols.push(Column::new("uasg".to_owned(), one_cell(&self.uasg)));
        cols.push(Column::new("orgao_responsavel".to_owned(), one_cell(&self.orgao_responsavel)));
        cols.push(Column::new("sigla_om".to_owned(), one_cell(&self.sigla_om)));
        cols.push(Column::new("setor_responsavel".to_owned(), one_cell(&self.setor_responsavel)));
        cols.push(Column::new("coordenador_planejamento".to_owned(), one_cell(&self.coordenador_planejamento)));
        cols.push(Column::new("etapa".to_owned(), one_cell(&self.etapa)));
        cols.push(Column::new("pregoeiro".to_owned(), one_cell(&self.pregoeiro)));
        cols.push(Column::new("item_pca".to_owned(), one_cell(&self.item_pca)));
        cols.push(Column::new("portaria_pca".to_owned(), one_cell(&self.portaria_pca)));
        cols.push(Column::new("data_sessao".to_owned(), one_cell(&self.data_sessao)));
        cols.push(Column::new("data_limite_entrega_tr".to_owned(), one_cell(&self.data_limite_entrega_tr)));
        cols.push(Column::new("nup_portaria_planejamento".to_owned(), one_cell(&self.nup_portaria_planejamento)));
        cols.push(Column::new("srp".to_owned(), one_cell(&self.srp)));
        cols.push(Column::new("material_servico".to_owned(), one_cell(&self.material_servico)));
        cols.push(Column::new("parecer_agu".to_owned(), one_cell(&self.parecer_agu)));
        cols.push(Column::new("msg_irp".to_owned(), one_cell(&self.msg_irp)));
        cols.push(Column::new("data_limite_manifestacao_irp".to_owned(), one_cell(&self.data_limite_manifestacao_irp)));
        cols.push(Column::new("data_limite_confirmacao_irp".to_owned(), one_cell(&self.data_limite_confirmacao_irp)));
        cols.push(Column::new("num_irp".to_owned(), one_cell(&self.num_irp)));
        cols.push(Column::new("om_participantes".to_owned(), one_cell(&self.om_participantes)));
        cols.push(Column::new("link_pncp".to_owned(), one_cell(&self.link_pncp)));
        cols.push(Column::new("link_portal_marinha".to_owned(), one_cell(&self.link_portal_marinha)));
        cols.push(Column::new("custeio".to_owned(), one_cell(&self.custeio)));
        cols.push(Column::new("situacao".to_owned(), one_cell(&self.situacao)));
        proof {
            assert(cols.deep_view() =~= self.spec_table().cols);
        }
        Table::from_columns(1, cols)
    }
}

/// Builds the planning table from a batch of records — the computation side
/// of a spreadsheet import, one record per sheet row.  The result has one
/// row per record, the planning schema's columns in order, and each cell
/// holds the matching field of the matching record.
pub fn table_from_records(records: &Vec<PlanejamentoData>) -> (t: Table)
    ensures
        t.wf(),
        t@.rows == records@.len(),
        t@.cols.len() == schema(DatasetId::Planejamento).len(),
        forall|j: int| 0 <= j < t@.cols.len()
            ==> (#[trigger] t@.cols[j]).name == schema(DatasetId::Planejamento)[j],
        forall|i: int, j: int| 0 <= i < records@.len() && 0 <= j < t@.cols.len()
            ==> (#[trigger] t@.cols[j].cells[i]) == records@[i].spec_table().cols[j].cells[0],
{
    let mut t = Table::new(crate::schema::schema_names(DatasetId::Planejamento));
    let n = records.len();
    let mut i: usize = 0;
    while i < n
        invariant
            i <= n,
            n == records@.len(),
            t.wf(),
            t@.rows == i,
            t@.cols.len() == schema(DatasetId::Planejamento).len(),
            forall|j: int| 0 <= j < t@.cols.len()
                ==> (#[trigger] t@.cols[j]).name == schema(DatasetId::Planejamento)[j],
            forall|k: int, j: int| 0 <= k < i && 0 <= j < t@.cols.len()
                ==> (#[trigger] t@.cols[j].cells[k]) == records@[k].spec_table().cols[j].cells[0],
        decreases n - i,
    {
        let row = records[i].row_cells();
        t.push_row(row);
        i = i + 1;
    }
    t
}

/// The planning record's table carries exactly the planning schema's
/// columns, in order, and is well-formed.
pub proof fn lemma_planejamento_matches_schema(r: PlanejamentoData)
    ensures
        r.spec_table().cols.len() == schema(DatasetId::Planejamento).len(),
        forall|j: int| 0 <= j < schema(DatasetId::Planejamento).len()
            ==> (#[trigger] r.spec_table().cols[j]).name == schema(DatasetId::Planejamento)[j],
        r.spec_table().wf(),
{
}

} // verus!
