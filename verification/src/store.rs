//! The dataset store: the load-or-create and overwrite-save protocols for a
//! single dataset file.
//!
//! The store itself holds no state; it decides, from whether the file exists,
//! what the driver must do, and it owns serialization both ways.  The driver
//! around this crate performs the filesystem steps in this order: ensure the
//! database directory exists (creating it recursively when missing, a failure
//! being [`StoreError::DirectoryCreate`]); then follow the
//! [`plan_load_or_create`] plan, writing fresh bytes atomically — to a
//! temporary location first, renamed into place — so that no half-written
//! file is ever left looking valid.

use vstd::prelude::*;
use crate::codec::{dec_table, enc_table, encode_table, lemma_table_round_trip, parse_table, table_fits};
use crate::ids::DatasetId;
use crate::schema::schema;
use crate::table::{Table, TableModel};

verus! {

/// The failures this core surfaces.  None is retried: every failure is
/// reported upward and the caller decides what to do.
#[derive(Clone, Copy, Debug, PartialEq, Eq, Structural)]
pub enum StoreError {
    /// The database directory could not be created.
    DirectoryCreate,
    /// An existing file could not be parsed; it is never silently replaced
    /// with an empty table, which would hide corruption from the caller.
    Read,
    /// Serialization or the filesystem write failed; a write-then-rename
    /// driver leaves the previous file intact.
    Write,
}

/// The table a dataset starts with: the schema's columns and zero rows.
pub open spec fn spec_initial_table(id: DatasetId) -> TableModel {
    TableModel::empty(schema(id))
}

/// Builds the initial table for a dataset from its creation schema.
pub fn initial_table(id: DatasetId) -> (t: Table)
    ensures
        t@ == spec_initial_table(id),
        t.wf(),
{
    Table::new(crate::schema::schema_names(id))
}

/// What the filesystem driver must do for `load_or_create`, decided from
/// whether the dataset's file exists.
pub enum LoadAction {
    /// The file exists: read its bytes and hand them to [`read_table`].
    /// A parse failure is fatal for the call, never patched over.
    ParseExisting,
    /// No file yet: persist `bytes` atomically, then use `table`.
    CreateFresh { table: Table, bytes: Vec<u8> },
}

/// The decision step of `load_or_create`: an existing file is read and
/// parsed exactly as stored; a missing one is created with the schema's
/// empty table.  The bytes handed out for creation decode to exactly the
/// table handed out, so a later load returns an equal table: creation is
/// idempotent.
pub fn plan_load_or_create(id: DatasetId, file_exists: bool) -> (r: LoadAction)
    ensures
        file_exists ==> r is ParseExisting,
        !file_exists ==> (r matches LoadAction::CreateFresh { table, bytes }
            && table@ == spec_initial_table(id)
            && table.wf()
            && bytes@ == enc_table(spec_initial_table(id))
            && dec_table(bytes@) == Option::Some(table@)),
{
    if file_exists {
        LoadAction::ParseExisting
    } else {
        let table = initial_table(id);
        let bytes = encode_table(&table);
        proof {
            lemma_table_round_trip(table@);
        }
        LoadAction::CreateFresh { table, bytes }
    }
}

/// Parses the bytes of an existing dataset file.  Succeeds exactly when the
/// bytes are a table's file image; anything else is a read error.
pub fn read_table(bytes: &[u8]) -> (r: Result<Table, StoreError>)
    ensures
        r matches Ok(t) ==> dec_table(bytes@) == Option::Some(t@) && t.wf(),
        r matches Err(e) ==> e == StoreError::Read && dec_table(bytes@) is None,
{
    match parse_table(bytes) {
        Option::Some(t) => Result::Ok(t),
        Option::None => Result::Err(StoreError::Read),
    }
}

/// Serializes a table for an overwrite-save.  The driver writes these bytes
/// over the dataset's file; it does not create directories, and reports
/// [`StoreError::Write`] when the directory is missing or the write fails.
pub fn save_payload(t: &Table) -> (r: Vec<u8>)
    ensures
        r@ == enc_table(t@),
        table_fits(t@),
{
    encode_table(t)
}

/// The initial table is well-formed and machine-representable.
pub proof fn lemma_initial_table_wf(id: DatasetId)
    ensures
        spec_initial_table(id).wf(),
        table_fits(spec_initial_table(id)),
{
    reveal_strlit("numero");
    reveal_strlit("ano");
    reveal_strlit("id_processo");
    reveal_strlit("nup");
    reveal_strlit("objeto");
    reveal_strlit("tipo");
    reveal_strlit("objeto_completo");
    reveal_strlit("valor_total");
    reveal_strlit("uasg");
    reveal_strlit("orgao_responsavel");
    reveal_strlit("sigla_om");
    reveal_strlit("setor_responsavel");
    reveal_strlit("coordenador_planejamento");
    reveal_strlit("etapa");
    reveal_strlit("pregoeiro");
    reveal_strlit("item_pca");
    reveal_strlit("portaria_pca");
    reveal_strlit("data_sessao");
    reveal_strlit("data_limite_entrega_tr");
    reveal_strlit("nup_portaria_planejamento");
    reveal_strlit("srp");
    reveal_strlit("material_servico");
    reveal_strlit("parecer_agu");
    reveal_strlit("msg_irp");
    reveal_strlit("data_limite_manifestacao_irp");
    reveal_strlit("data_limite_confirmacao_irp");
    reveal_strlit("num_irp");
    reveal_strlit("om_participantes");
    reveal_strlit("link_pncp");
    reveal_strlit("link_portal_marinha");
    reveal_strlit("custeio");
    reveal_strlit("situacao");
    reveal_strlit("risco");
    reveal_strlit("causa");
    reveal_strlit("consequencia");
    reveal_strlit("acao_corretiva");
    reveal_strlit("acao_preventiva");
    reveal_strlit("impacto");
    reveal_strlit("probabilidade");
}

/// Idempotent creation: the file image written for a missing dataset parses
/// back to exactly the initial table, so a second `load_or_create` returns
/// an equal table and, taking the read branch, rewrites nothing.
pub proof fn lemma_idempotent_creation(id: DatasetId)
    ensures
        dec_table(enc_table(spec_initial_table(id))) == Option::Some(spec_initial_table(id)),
{
    lemma_initial_table_wf(id);
    lemma_table_round_trip(spec_initial_table(id));
}

} // verus!
