//! The schema catalog: the ordered column names used to initialize each
//! dataset's table when no file exists yet.
//!
//! The mapping is static and total over the closed set of [`DatasetId`]s.
//! All columns are textual, so a schema is just its ordered list of names.
//! Column names are unique within a dataset; order is significant and becomes
//! the column order on disk.

use vstd::prelude::*;
use crate::ids::DatasetId;

verus! {

/// The ordered column names of the dataset's creation schema.
pub open spec fn schema(id: DatasetId) -> Seq<Seq<char>> {
    match id {
        DatasetId::Contratos => seq!["numero"@, "ano"@, "id_processo"@, "nup"@, "objeto"@],
        DatasetId::Planejamento => seq![
            "tipo"@,
            "numero"@,
            "ano"@,
            "id_processo"@,
            "nup"@,
            "objeto"@,
            "objeto_completo"@,
            "valor_total"@,
            "uasg"@,
            "orgao_responsavel"@,
            "sigla_om"@,
            "setor_responsavel"@,
            "coordenador_planejamento"@,
            "etapa"@,
            "pregoeiro"@,
            "item_pca"@,
            "portaria_pca"@,
            "data_sessao"@,
            "data_limite_entrega_tr"@,
            "nup_portaria_planejamento"@,
            "srp"@,
            "material_servico"@,
            "parecer_agu"@,
            "msg_irp"@,
            "data_limite_manifestacao_irp"@,
            "data_limite_confirmacao_irp"@,
            "num_irp"@,
            "om_participantes"@,
            "link_pncp"@,
            "link_portal_marinha"@,
            "custeio"@,
            "situacao"@,
        ],
        DatasetId::Atas => Seq::empty(),
        DatasetId::DispensaEletronica => Seq::empty(),
        DatasetId::MatrizRiscos => seq![
            "risco"@,
            "causa"@,
            "consequencia"@,
            "acao_corretiva"@,
            "acao_preventiva"@,
            "impacto"@,
            "probabilidade"@,
        ],
        DatasetId::Automacoes => Seq::empty(),
    }
}

/// No two of the given names are equal.
pub open spec fn distinct_names(names: Seq<Seq<char>>) -> bool {
    forall|a: int, b: int| 0 <= a < b < names.len() ==> names[a] != names[b]
}

/// The column names of `id`'s creation schema, in order.
pub fn schema_names(id: DatasetId) -> (names: Vec<String>)
    ensures
        names.deep_view() == schema(id),
{
    let mut v: Vec<String> = Vec::new();
    match id {
        DatasetId::Contratos => {
            v.push("numero".to_owned());
            v.push("ano".to_owned());
            v.push("id_processo".to_owned());
            v.push("nup".to_owned());
            v.push("objeto".to_owned());
        },
        DatasetId::Planejamento => {
            v.push("tipo".to_owned());
            v.push("numero".to_owned());
            v.push("ano".to_owned());
            v.push("id_processo".to_owned());
            v.push("nup".to_owned());
            v.push("objeto".to_owned());
            v.push("objeto_completo".to_owned());
            v.push("valor_total".to_owned());
            v.push("uasg".to_owned());
            v.push("orgao_responsavel".to_owned());
            v.push("sigla_om".to_owned());
            v.push("setor_responsavel".to_owned());
            v.push("coordenador_planejamento".to_owned());
            v.push("etapa".to_owned());
            v.push("pregoeiro".to_owned());
            v.push("item_pca".to_owned());
            v.push("portaria_pca".to_owned());
            v.push("data_sessao".to_owned());
            v.push("data_limite_entrega_tr".to_owned());
            v.push("nup_portaria_planejamento".to_owned());
            v.push("srp".to_owned());
            v.push("material_servico".to_owned());
            v.push("parecer_agu".to_owned());
            v.push("msg_irp".to_owned());
            v.push("data_limite_manifestacao_irp".to_owned());
            v.push("data_limite_confirmacao_irp".to_owned());
            v.push("num_irp".to_owned());
            v.push("om_participantes".to_owned());
            v.push("link_pncp".to_owned());
            v.push("link_portal_marinha".to_owned());
            v.push("custeio".to_owned());
            v.push("situacao".to_owned());
        },
        DatasetId::Atas => {},
        DatasetId::DispensaEletronica => {},
        DatasetId::MatrizRiscos => {
            v.push("risco".to_owned());
            v.push("causa".to_owned());
            v.push("consequencia".to_owned());
            v.push("acao_corretiva".to_owned());
            v.push("acao_preventiva".to_owned());
            v.push("impacto".to_owned());
            v.push("probabilidade".to_owned());
        },
        DatasetId::Automacoes => {},
    }
    proof {
        assert(v.deep_view() =~= schema(id));
    }
    v
}

/// True exactly when no two of the given names are equal.
pub fn names_unique(names: &Vec<String>) -> (r: bool)
    ensures
        r == distinct_names(names.deep_view()),
{
    let n = names.len();
    let mut a: usize = 0;
    while a < n
        invariant
            a <= n,
            n == names@.len(),
            forall|x: int, y: int| 0 <= x < y < n && x < a ==> names.deep_view()[x] != names.deep_view()[y],
        decreases n - a,
    {
        let mut b: usize = a + 1;
        while b < n
            invariant
                a < b <= n,
                a < n,
                n == names@.len(),
                forall|y: int| a < y < b ==> names.deep_view()[a as int] != names.deep_view()[y],
            decreases n - b,
        {
            if names[a] == names[b] {
                proof {
                    assert(names.deep_view()[a as int] == names.deep_view()[b as int]);
                    assert(!distinct_names(names.deep_view()));
                }
                return false;
            }
            b = b + 1;
        }
        a = a + 1;
    }
    true
}

} // verus!
