use cf_to_mmc::instance::CurseForgeInstance;
use cf_to_mmc::modpack::{DirEntry, ModPack};

fn entry(path: &str, is_dir: bool) -> DirEntry {
    DirEntry { path: path.to_string(), is_dir }
}

#[test]
fn listing_keeps_directories_and_drops_files() {
    let entries = vec![
        entry("/cf/ATM6", true),
        entry("/cf/readme.txt", false),
        entry("/cf/SkyFactory", true),
        entry("/cf/cache.db", false),
        entry("/cf/Vanilla Plus", true),
    ];
    let mut selected = Some(ModPack { cf_dir: Some("/cf/ATM6".to_string()) });
    let packs = ModPack::list(Some(entries), &mut selected);
    assert_eq!(packs.len(), 3);
    assert_eq!(packs[0].cf_dir.as_deref(), Some("/cf/ATM6"));
    assert_eq!(packs[1].cf_dir.as_deref(), Some("/cf/SkyFactory"));
    assert_eq!(packs[2].cf_dir.as_deref(), Some("/cf/Vanilla Plus"));
    assert!(selected.is_some());
}

#[test]
fn unreadable_root_yields_no_candidates_and_clears_selection() {
    let mut selected = Some(ModPack { cf_dir: Some("/cf/ATM6".to_string()) });
    let packs = ModPack::list(None, &mut selected);
    assert!(packs.is_empty());
    assert!(selected.is_none());
}

#[test]
fn empty_root_is_empty_but_keeps_selection() {
    let mut selected = Some(ModPack { cf_dir: Some("/cf/ATM6".to_string()) });
    let packs = ModPack::list(Some(Vec::new()), &mut selected);
    assert!(packs.is_empty());
    assert!(selected.is_some());
}

#[test]
fn cf_path_is_the_directory_or_empty() {
    let p = ModPack { cf_dir: Some("/cf/ATM6".to_string()) };
    assert_eq!(p.cf_path(), "/cf/ATM6");
    let none = ModPack { cf_dir: None };
    assert_eq!(none.cf_path(), "");
}

#[test]
fn display_name_is_the_base_name() {
    let p = ModPack { cf_dir: Some("/cf/instances/ATM6".to_string()) };
    assert_eq!(p.display_name(), "ATM6");
    let w = ModPack { cf_dir: Some("C:\\cf\\Pack One".to_string()) };
    assert_eq!(w.display_name(), "Pack One");
    let trailing = ModPack { cf_dir: Some("/cf/instances/".to_string()) };
    assert_eq!(trailing.display_name(), "");
    let unset = ModPack { cf_dir: None };
    assert_eq!(unset.display_name(), "");
}

#[test]
fn mmc_path_joins_root_and_descriptor_name() {
    let p = ModPack { cf_dir: Some("/cf/ATM6".to_string()) };
    let d = CurseForgeInstance {
        name: "All the Mods 6".to_string(),
        minecraft_version: "1.16.5".to_string(),
        loader_name: "forge-36.2.0".to_string(),
        loader_version: "36.2.0".to_string(),
    };
    assert_eq!(p.mmc_path("/mmc/instances", &d), "/mmc/instances/All the Mods 6");
}
