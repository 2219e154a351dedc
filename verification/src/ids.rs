//! The closed set of dataset identifiers.

use vstd::prelude::*;

verus! {

/// Number of datasets in the closed set.
pub const DATASET_COUNT: usize = 6;

/// Identifies one logical dataset.  The set is closed and known at build
/// time; every identifier owns exactly one schema and one file location.
#[derive(Clone, Copy, Debug, PartialEq, Eq, Structural)]
pub enum DatasetId {
    Contratos,
    Planejamento,
    Atas,
    DispensaEletronica,
    MatrizRiscos,
    Automacoes,
}

impl DatasetId {
    /// Position of this dataset in the fixed enumeration order.
    pub open spec fn ordinal(self) -> int {
        match self {
            DatasetId::Contratos => 0,
            DatasetId::Planejamento => 1,
            DatasetId::Atas => 2,
            DatasetId::DispensaEletronica => 3,
            DatasetId::MatrizRiscos => 4,
            DatasetId::Automacoes => 5,
        }
    }

    /// The dataset at a given position of the enumeration order.
    pub open spec fn spec_from_ordinal(i: int) -> DatasetId {
        if i == 0 {
            DatasetId::Contratos
        } else if i == 1 {
            DatasetId::Planejamento
        } else if i == 2 {
            DatasetId::Atas
        } else if i == 3 {
            DatasetId::DispensaEletronica
        } else if i == 4 {
            DatasetId::MatrizRiscos
        } else {
            DatasetId::Automacoes
        }
    }

    /// Index of this dataset in the fixed enumeration order.
    pub fn index(self) -> (i: usize)
        ensures
            i == self.ordinal(),
            i < DATASET_COUNT,
    {
        match self {
            DatasetId::Contratos => 0,
            DatasetId::Planejamento => 1,
            DatasetId::Atas => 2,
            DatasetId::DispensaEletronica => 3,
            DatasetId::MatrizRiscos => 4,
            DatasetId::Automacoes => 5,
        }
    }

    /// Inverse of `index` over the valid range.
    pub fn from_index(i: usize) -> (id: DatasetId)
        requires
            i < DATASET_COUNT,
        ensures
            id == Self::spec_from_ordinal(i as int),
            id.ordinal() == i,
    {
        if i == 0 {
            DatasetId::Contratos
        } else if i == 1 {
            DatasetId::Planejamento
        } else if i == 2 {
            DatasetId::Atas
        } else if i == 3 {
            DatasetId::DispensaEletronica
        } else if i == 4 {
            DatasetId::MatrizRiscos
        } else {
            DatasetId::Automacoes
        }
    }

    /// All dataset identifiers, in enumeration order.
    pub fn all() -> (v: Vec<DatasetId>)
        ensures
            v@.len() == DATASET_COUNT,
            forall|k: int| 0 <= k < DATASET_COUNT ==> v@[k] == #[trigger] Self::spec_from_ordinal(k),
    {
        let mut v: Vec<DatasetId> = Vec::new();
        v.push(DatasetId::Contratos);
        v.push(DatasetId::Planejamento);
        v.push(DatasetId::Atas);
        v.push(DatasetId::DispensaEletronica);
        v.push(DatasetId::MatrizRiscos);
        v.push(DatasetId::Automacoes);
        v
    }
}

/// The enumeration order lists every dataset exactly once: `ordinal` and
/// `spec_from_ordinal` are mutually inverse bijections between the closed
/// set of identifiers and the range `0 .. DATASET_COUNT`.
pub proof fn lemma_ordinal_bijective(id: DatasetId, i: int)
    ensures
        DatasetId::spec_from_ordinal(id.ordinal()) == id,
        0 <= id.ordinal() < DATASET_COUNT,
        0 <= i < DATASET_COUNT ==> DatasetId::spec_from_ordinal(i).ordinal() == i,
{
}

} // verus!
