//! The path registry: every filesystem location the core uses, derived by
//! pure string arithmetic from one base directory.
//!
//! No I/O happens here.  Invalid locations are not rejected; filesystem
//! operations surface such failures later.  Paths use `/` as the separator
//! and are relative to the base directory the caller supplies.

use vstd::prelude::*;
use vstd::string::StringExecFns;
use crate::ids::{DatasetId, DATASET_COUNT};

verus! {

/// `base/name`: one path component appended to a directory.
pub open spec fn spec_join(base: Seq<char>, name: Seq<char>) -> Seq<char> {
    base + seq!['/'] + name
}

/// The database directory holding one file per dataset.
pub open spec fn spec_database_dir(base: Seq<char>) -> Seq<char> {
    spec_join(base, "database"@)
}

/// The on-disk file name of a dataset's table.
pub open spec fn spec_dataset_file_name(id: DatasetId) -> Seq<char> {
    match id {
        DatasetId::Contratos => "contratos.table"@,
        DatasetId::Planejamento => "planejamento.table"@,
        DatasetId::Atas => "atas.table"@,
        DatasetId::DispensaEletronica => "dispensa_eletronica.table"@,
        DatasetId::MatrizRiscos => "matriz_riscos.table"@,
        DatasetId::Automacoes => "automacoes.table"@,
    }
}

/// The absolute location of a dataset's table file.
pub open spec fn spec_dataset_location(base: Seq<char>, id: DatasetId) -> Seq<char> {
    spec_join(spec_database_dir(base), spec_dataset_file_name(id))
}

/// The directory holding a module's document templates.
pub open spec fn spec_template_dir(base: Seq<char>, module: Seq<char>) -> Seq<char> {
    spec_join(spec_join(base, "modules"@), spec_join(module, "templates"@))
}

/// The module directory name belonging to each dataset.
pub open spec fn spec_module_name(id: DatasetId) -> Seq<char> {
    match id {
        DatasetId::Contratos => "contratos"@,
        DatasetId::Planejamento => "planejamento"@,
        DatasetId::Atas => "atas"@,
        DatasetId::DispensaEletronica => "dispensa_eletronica"@,
        DatasetId::MatrizRiscos => "matriz_riscos"@,
        DatasetId::Automacoes => "automacoes"@,
    }
}

/// A single filesystem location, kept as a plain path string.
#[derive(Clone, Debug, PartialEq, Eq)]
pub struct DataPath(pub String);

impl View for DataPath {
    type V = Seq<char>;

    open spec fn view(&self) -> Seq<char> {
        self.0@
    }
}

impl DeepView for DataPath {
    type V = Seq<char>;

    open spec fn deep_view(&self) -> Seq<char> {
        self.0@
    }
}

impl DataPath {
    /// Structural sameness: two locations are the same path string.
    pub fn same(&self, other: &DataPath) -> (r: bool)
        ensures
            r == (self@ == other@),
    {
        self.0 == other.0
    }
}

/// Appends one component to a directory path.
pub fn join(base: &str, name: &str) -> (r: String)
    ensures
        r@ == spec_join(base@, name@),
{
    let mut s = base.to_owned();
    s.append("/");
    s.append(name);
    proof {
        reveal_strlit("/");
        assert(s@ =~= spec_join(base@, name@));
    }
    s
}

/// The on-disk file name of a dataset's table.
pub fn dataset_file_name(id: DatasetId) -> (r: &'static str)
    ensures
        r@ == spec_dataset_file_name(id),
{
    match id {
        DatasetId::Contratos => "contratos.table",
        DatasetId::Planejamento => "planejamento.table",
        DatasetId::Atas => "atas.table",
        DatasetId::DispensaEletronica => "dispensa_eletronica.table",
        DatasetId::MatrizRiscos => "matriz_riscos.table",
        DatasetId::Automacoes => "automacoes.table",
    }
}

/// The module directory name belonging to a dataset.
pub fn module_name(id: DatasetId) -> (r: &'static str)
    ensures
        r@ == spec_module_name(id),
{
    match id {
        DatasetId::Contratos => "contratos",
        DatasetId::Planejamento => "planejamento",
        DatasetId::Atas => "atas",
        DatasetId::DispensaEletronica => "dispensa_eletronica",
        DatasetId::MatrizRiscos => "matriz_riscos",
        DatasetId::Automacoes => "automacoes",
    }
}

/// The full set of canonical locations derived from one base directory.
#[derive(Clone, Debug, PartialEq, Eq)]
pub struct Paths {
    pub base_path: DataPath,
    pub database_dir: DataPath,
    pub icons_path: DataPath,
    pub images_path: DataPath,
    pub templates_paths: Vec<DataPath>,
    pub inicio_path: DataPath,
    pub dataset_files: Vec<DataPath>,
}

impl Paths {
    /// All fields are the canonical derivations from `base_path`.
    pub open spec fn wf(self) -> bool {
        &&& self.database_dir@ == spec_database_dir(self.base_path@)
        &&& self.icons_path@ == spec_join(spec_join(self.base_path@, "resources"@), "icons"@)
        &&& self.images_path@ == spec_join(spec_join(self.base_path@, "resources"@), "images"@)
        &&& self.templates_paths.deep_view() == Seq::new(
            DATASET_COUNT as nat,
            |k: int| spec_template_dir(self.base_path@, spec_module_name(DatasetId::spec_from_ordinal(k))),
        )
        &&& self.inicio_path@ == spec_join(spec_join(self.base_path@, "modules"@), "inicio"@)
        &&& self.dataset_files.deep_view() == Seq::new(
            DATASET_COUNT as nat,
            |k: int| spec_dataset_location(self.base_path@, DatasetId::spec_from_ordinal(k)),
        )
    }

    /// Derives every canonical location from the base directory.
    pub fn new(base_path: &str) -> (r: Paths)
        ensures
            r.base_path@ == base_path@,
            r.wf(),
    {
        let base = base_path;
        let database_dir = DataPath(join(base, "database"));
        let resources = join(base, "resources");
        let modules = join(base, "modules");

        let mut dataset_files: Vec<DataPath> = Vec::new();
        let mut templates_paths: Vec<DataPath> = Vec::new();
        let mut k: usize = 0;
        while k < DATASET_COUNT
            invariant
                k <= DATASET_COUNT,
                database_dir@ == spec_database_dir(base@),
                modules@ == spec_join(base@, "modules"@),
                dataset_files.deep_view().len() == k,
                templates_paths.deep_view().len() == k,
                forall|i: int| 0 <= i < k ==> #[trigger] dataset_files.deep_view()[i]
                    == spec_dataset_location(base@, DatasetId::spec_from_ordinal(i)),
                forall|i: int| 0 <= i < k ==> #[trigger] templates_paths.deep_view()[i]
                    == spec_template_dir(base@, spec_module_name(DatasetId::spec_from_ordinal(i))),
            decreases DATASET_COUNT - k,
        {
            let id = DatasetId::from_index(k);
            let ghost df_pre = dataset_files.deep_view();
            let ghost tp_pre = templates_paths.deep_view();
            dataset_files.push(DataPath(join(database_dir.0.as_str(), dataset_file_name(id))));
            templates_paths.push(DataPath(join(modules.as_str(), join(module_name(id), "templates").as_str())));
            proof {
                assert forall|i: int| 0 <= i < k + 1 implies #[trigger] dataset_files.deep_view()[i]
                    == spec_dataset_location(base@, DatasetId::spec_from_ordinal(i)) by {
                    if i < k {
                        assert(dataset_files.deep_view()[i] == df_pre[i]);
                    } else {
                        assert(dataset_files.deep_view()[k as int]
                            == spec_dataset_location(base@, DatasetId::spec_from_ordinal(k as int)));
                    }
                }
                assert forall|i: int| 0 <= i < k + 1 implies #[trigger] templates_paths.deep_view()[i]
                    == spec_template_dir(base@, spec_module_name(DatasetId::spec_from_ordinal(i))) by {
                    if i < k {
                        assert(templates_paths.deep_view()[i] == tp_pre[i]);
                    } else {
                        assert(templates_paths.deep_view()[k as int]
                            == spec_template_dir(base@, spec_module_name(DatasetId::spec_from_ordinal(k as int))));
                    }
                }
            }
            k = k + 1;
        }

        let r = Paths {
            base_path: DataPath(base.to_owned()),
            database_dir,
            icons_path: DataPath(join(resources.as_str(), "icons")),
            images_path: DataPath(join(resources.as_str(), "images")),
            templates_paths,
            inicio_path: DataPath(join(modules.as_str(), "inicio")),
            dataset_files,
        };
        proof {
            assert(r.templates_paths.deep_view() =~= Seq::new(
                DATASET_COUNT as nat,
                |k: int| spec_template_dir(r.base_path@, spec_module_name(DatasetId::spec_from_ordinal(k))),
            ));
            assert(r.dataset_files.deep_view() =~= Seq::new(
                DATASET_COUNT as nat,
                |k: int| spec_dataset_location(r.base_path@, DatasetId::spec_from_ordinal(k)),
            ));
        }
        r
    }

    /// The location of a named icon resource.
    pub fn icon_path(&self, icon_name: &str) -> (r: String)
        ensures
            r@ == spec_join(self.icons_path@, icon_name@),
    {
        join(self.icons_path.0.as_str(), icon_name)
    }

    /// The location of a named image resource.
    pub fn image_path(&self, image_name: &str) -> (r: String)
        ensures
            r@ == spec_join(self.images_path@, image_name@),
    {
        join(self.images_path.0.as_str(), image_name)
    }

    /// The location of the menu logo image.
    pub fn menu_image_path(&self) -> (r: String)
        ensures
            r@ == spec_join(self.images_path@, "licitacao360.png"@),
    {
        join(self.images_path.0.as_str(), "licitacao360.png")
    }

    /// The database directory that holds every dataset file.
    pub fn database_init(&self) -> (r: String)
        ensures
            r@ == self.database_dir@,
    {
        self.database_dir.0.clone()
    }

    /// The location of one dataset's table file.
    pub fn dataset_location(&self, id: DatasetId) -> (r: String)
        ensures
            r@ == spec_join(self.database_dir@, spec_dataset_file_name(id)),
            self.wf() ==> r@ == spec_dataset_location(self.base_path@, id),
    {
        join(self.database_dir.0.as_str(), dataset_file_name(id))
    }

    /// Structural sameness: every derived location is the same path string.
    pub fn same(&self, other: &Paths) -> (r: bool)
        ensures
            r == {
                &&& self.base_path@ == other.base_path@
                &&& self.database_dir@ == other.database_dir@
                &&& self.icons_path@ == other.icons_path@
                &&& self.images_path@ == other.images_path@
                &&& self.templates_paths.deep_view() == other.templates_paths.deep_view()
                &&& self.inicio_path@ == other.inicio_path@
                &&& self.dataset_files.deep_view() == other.dataset_files.deep_view()
            },
    {
        let scalar = self.base_path.same(&other.base_path)
            && self.database_dir.same(&other.database_dir)
            && self.icons_path.same(&other.icons_path)
            && self.images_path.same(&other.images_path)
            && self.inicio_path.same(&other.inicio_path);
        if !scalar {
            return false;
        }
        if !data_path_vecs_same(&self.templates_paths, &other.templates_paths) {
            return false;
        }
        data_path_vecs_same(&self.dataset_files, &other.dataset_files)
    }
}

/// Elementwise sameness of two location vectors.
fn data_path_vecs_same(a: &Vec<DataPath>, b: &Vec<DataPath>) -> (r: bool)
    ensures
        r == (a.deep_view() == b.deep_view()),
{
    if a.len() != b.len() {
        proof {
            assert(a.deep_view().len() != b.deep_view().len());
        }
        return false;
    }
    let n = a.len();
    let mut i: usize = 0;
    while i < n
        invariant
            i <= n,
            n == a@.len(),
            n == b@.len(),
            forall|k: int| 0 <= k < i ==> #[trigger] a.deep_view()[k] == b.deep_view()[k],
        decreases n - i,
    {
        if !a[i].same(&b[i]) {
            proof {
                assert(a.deep_view()[i as int] != b.deep_view()[i as int]);
            }
            return false;
        }
        i = i + 1;
    }
    proof {
        assert(a.deep_view() =~= b.deep_view());
    }
    true
}

/// Distinct datasets resolve to distinct file locations under any base
/// directory: locations never collide.
pub proof fn lemma_dataset_locations_distinct(base: Seq<char>, id1: DatasetId, id2: DatasetId)
    requires
        id1 != id2,
    ensures
        spec_dataset_location(base, id1) != spec_dataset_location(base, id2),
{
    reveal_strlit("contratos.table");
    reveal_strlit("planejamento.table");
    reveal_strlit("atas.table");
    reveal_strlit("dispensa_eletronica.table");
    reveal_strlit("matriz_riscos.table");
    reveal_strlit("automacoes.table");
    assert(spec_dataset_file_name(id1).len() != spec_dataset_file_name(id2).len());
    assert(spec_dataset_location(base, id1).len() != spec_dataset_location(base, id2).len());
}

} // verus!
