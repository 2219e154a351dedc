use licitacao360::cache::DatasetCache;
use licitacao360::ids::DatasetId;
use licitacao360::store::initial_table;
use licitacao360::table::Table;

fn one_row(name: &str, value: &str) -> Table {
    let mut t = Table::new(vec![name.to_string()]);
    t.push_row(vec![Some(value.to_string())]);
    t
}

/// The driver's demand round: memo hit, or a (here simulated) store load.
fn get_or_load(cache: &mut DatasetCache, id: DatasetId, on_disk: &Table) -> Table {
    if let Some(t) = cache.get(id) {
        return t.clone();
    }
    let loaded = on_disk.clone();
    cache.complete_load(id, loaded.clone());
    loaded
}

#[test]
fn a_fresh_session_has_every_slot_unloaded() {
    let cache = DatasetCache::new();
    assert_eq!(cache.loads(), 0);
    for id in DatasetId::all() {
        assert!(cache.needs_load(id));
        assert!(cache.get(id).is_none());
    }
}

#[test]
fn at_most_one_load_per_dataset() {
    let mut cache = DatasetCache::new();
    let disk = initial_table(DatasetId::Atas);
    let first = get_or_load(&mut cache, DatasetId::Atas, &disk);
    let second = get_or_load(&mut cache, DatasetId::Atas, &disk);
    assert_eq!(first, second);
    assert_eq!(cache.loads(), 1);
    assert!(!cache.needs_load(DatasetId::Atas));
}

#[test]
fn put_counts_no_load_and_serves_the_given_table() {
    let mut cache = DatasetCache::new();
    let edited = one_row("numero", "42");
    cache.put(DatasetId::Contratos, edited.clone());
    assert_eq!(cache.loads(), 0);
    assert_eq!(cache.get(DatasetId::Contratos), Some(&edited));
}

#[test]
fn loads_touch_only_their_own_slot() {
    let mut cache = DatasetCache::new();
    let disk = one_row("risco", "fogo");
    get_or_load(&mut cache, DatasetId::MatrizRiscos, &disk);
    assert!(!cache.needs_load(DatasetId::MatrizRiscos));
    assert!(cache.needs_load(DatasetId::Contratos));
    assert!(cache.needs_load(DatasetId::Planejamento));
}

#[test]
fn invalidate_forces_a_reload_that_sees_the_new_file() {
    let mut cache = DatasetCache::new();
    let t1 = one_row("numero", "1");
    let t2 = one_row("numero", "2");
    cache.put(DatasetId::Contratos, t1.clone());
    cache.invalidate(DatasetId::Contratos);
    assert!(cache.needs_load(DatasetId::Contratos));
    // the file was rewritten externally to t2; the next demand reads it
    let served = get_or_load(&mut cache, DatasetId::Contratos, &t2);
    assert_eq!(served, t2);
    assert_ne!(served, t1);
    assert_eq!(cache.get(DatasetId::Contratos), Some(&t2));
    assert_eq!(cache.loads(), 1);
}
