use licitacao360::ids::DatasetId;
use licitacao360::paths::{dataset_file_name, join, DataPath, Paths};

#[test]
fn join_appends_one_component() {
    assert_eq!(join("base", "database"), "base/database");
    assert_eq!(join("", "x"), "/x");
}

#[test]
fn the_registry_derives_every_location_from_the_base() {
    let p = Paths::new("root");
    assert_eq!(p.base_path.0, "root");
    assert_eq!(p.database_dir.0, "root/database");
    assert_eq!(p.icons_path.0, "root/resources/icons");
    assert_eq!(p.images_path.0, "root/resources/images");
    assert_eq!(p.inicio_path.0, "root/modules/inicio");
    assert_eq!(p.database_init(), "root/database");
    assert_eq!(p.icon_path("save.png"), "root/resources/icons/save.png");
    assert_eq!(p.image_path("logo.png"), "root/resources/images/logo.png");
    assert_eq!(p.menu_image_path(), "root/resources/images/licitacao360.png");
}

#[test]
fn one_location_per_dataset_in_enumeration_order() {
    let p = Paths::new("root");
    let expected = [
        "root/database/contratos.table",
        "root/database/planejamento.table",
        "root/database/atas.table",
        "root/database/dispensa_eletronica.table",
        "root/database/matriz_riscos.table",
        "root/database/automacoes.table",
    ];
    assert_eq!(p.dataset_files.len(), expected.len());
    for (k, id) in DatasetId::all().into_iter().enumerate() {
        assert_eq!(p.dataset_files[k].0, expected[k]);
        assert_eq!(p.dataset_location(id), expected[k]);
    }
}

#[test]
fn locations_never_collide() {
    let p = Paths::new("root");
    let ids = DatasetId::all();
    for a in 0..ids.len() {
        for b in 0..ids.len() {
            if a != b {
                assert_ne!(p.dataset_location(ids[a]), p.dataset_location(ids[b]));
                assert_ne!(dataset_file_name(ids[a]), dataset_file_name(ids[b]));
            }
        }
    }
}

#[test]
fn template_directories_follow_the_module_names() {
    let p = Paths::new("root");
    assert_eq!(p.templates_paths[0].0, "root/modules/contratos/templates");
    assert_eq!(p.templates_paths[5].0, "root/modules/automacoes/templates");
}

#[test]
fn sameness_is_path_string_equality() {
    let a = Paths::new("root");
    let b = Paths::new("root");
    let c = Paths::new("other");
    assert!(a.same(&b));
    assert!(!a.same(&c));
    assert!(DataPath("x".to_string()).same(&DataPath("x".to_string())));
    assert!(!DataPath("x".to_string()).same(&DataPath("y".to_string())));
}
