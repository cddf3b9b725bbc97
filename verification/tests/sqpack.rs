use physis::repository::Category;
use physis::resource::{RepairAction, ResourceResolver, SqPackRelease, SqPackResource};
use physis::resource::sqpack::VersionSource;
use physis::Platform;

fn common_setup_data() -> SqPackResource {
    // A game directory holding the base game and two expansions, listed out of order.
    SqPackResource::from_existing(
        "game",
        Some("000000.win32.index"),
        true,
        Some("2012.01.01.0000.0000".to_string()),
        vec![
            ("ex2".to_string(), Some("2012.01.01.0000.0000".to_string())),
            ("ex1".to_string(), Some("2012.01.01.0000.0000".to_string())),
        ],
    )
}

#[test]
fn repository_ordering() {
    let data = common_setup_data();

    assert_eq!(data.repositories[0].name, "ffxiv");
    assert_eq!(data.repositories[1].name, "ex1");
    assert_eq!(data.repositories[2].name, "ex2");
}

#[test]
fn repository_and_category_parsing() {
    let data = common_setup_data();

    // fallback to ffxiv
    let (repo, category) = data.parse_repository_category("exd/root.exl").unwrap();
    assert!(std::ptr::eq(repo, &data.repositories[0]));
    assert_eq!(category, Category::EXD);
    // ex1
    let (repo, category) = data
        .parse_repository_category("bg/ex1/01_roc_r2/twn/r2t1/level/planevent.lgb")
        .unwrap();
    assert!(std::ptr::eq(repo, &data.repositories[1]));
    assert_eq!(category, Category::Background);
    // ex2
    let (repo, category) = data
        .parse_repository_category("bg/ex2/01_gyr_g3/fld/g3fb/level/planner.lgb")
        .unwrap();
    assert!(std::ptr::eq(repo, &data.repositories[2]));
    assert_eq!(category, Category::Background);
    // invalid but should still parse I guess
    assert!(data.parse_repository_category("what/some_font.dat").is_none());
}

#[test]
fn repository_platform_detection() {
    // The first index file found in each test directory.
    let test_cases = [
        ("0a0000.win32.index", (Platform::Win32, SqPackRelease::Retail)),
        ("0a0000.win32.d.index", (Platform::Win32, SqPackRelease::Debug)),
        ("0a0000.ps3.index", (Platform::PS3, SqPackRelease::Retail)),
        ("0a0000.ps4.index", (Platform::PS4, SqPackRelease::Retail)),
        ("0a0000.ps5.index", (Platform::PS5, SqPackRelease::Retail)),
        ("0a0000.lys.index", (Platform::Xbox, SqPackRelease::Retail)),
    ];

    for (index_file, (platform, release)) in test_cases {
        let resource = SqPackResource::from_existing("game", Some(index_file), true, None, vec![]);
        assert_eq!(resource.platform, platform);
        assert_eq!(resource.release, release);
    }
}

#[test]
fn new_install_defaults() {
    let resource = SqPackResource::from_existing("nowhere", None, false, None, vec![]);
    assert_eq!(resource.platform(), Platform::Win32);
    assert_eq!(resource.release, SqPackRelease::Retail);
    assert!(resource.repositories.is_empty());
}

#[test]
fn repository_repair_okay() {
    let resource = SqPackResource::from_existing(
        "/tmp/test_sqpack",
        None,
        true,
        Some("2023.09.15.0000.0000".to_string()),
        vec![],
    );
    let repo = resource.repositories.first().unwrap();
    assert_eq!(repo.name, "ffxiv");
    assert_eq!(repo.version, Some("2023.09.15.0000.0000".to_string()));
    assert!(resource.needs_repair(&vec![false]).is_none());
}

#[test]
fn repository_repair_extra_spacing() {
    let resource = SqPackResource::from_existing(
        "/tmp/test_sqpack_bad",
        None,
        true,
        Some("2023.09.15.0000.0000\r\n".to_string()),
        vec![],
    );
    let repairs = resource.needs_repair(&vec![false]).unwrap();
    assert_eq!(repairs.len(), 1);
    assert!(std::ptr::eq(repairs[0].0, &resource.repositories[0]));
    assert_eq!(repairs[0].1, RepairAction::VersionFileExtraSpacing);

    let steps = resource.repair_steps(&repairs);
    assert_eq!(steps.len(), 1);
    assert_eq!(steps[0].version_file, "/tmp/test_sqpack_bad/ffxivgame.ver");
    assert!(steps[0].recreate_directory.is_none());
    assert!(matches!(steps[0].source, VersionSource::Trimmed));
    assert_eq!(physis::text::trim_text("2023.09.15.0000.0000\r\n"), "2023.09.15.0000.0000");
}

#[test]
fn missing_versions_are_restored_or_recreated() {
    let resource = SqPackResource::from_existing(
        "/game",
        None,
        true,
        Some("2023.09.15.0000.0000".to_string()),
        vec![("ex1".to_string(), None), ("ex2".to_string(), None)],
    );
    let repairs = resource.needs_repair(&vec![false, true, false]).unwrap();
    assert_eq!(repairs.len(), 2);
    assert_eq!(repairs[0].0.name, "ex1");
    assert_eq!(repairs[0].1, RepairAction::VersionFileCanRestore);
    assert_eq!(repairs[1].0.name, "ex2");
    assert_eq!(repairs[1].1, RepairAction::VersionFileMissing);

    let steps = resource.repair_steps(&repairs);
    assert_eq!(steps[0].version_file, "/game/sqpack/ex1/ex1.ver");
    match &steps[0].source {
        VersionSource::Backup(path) => assert_eq!(path, "/game/sqpack/ex1/ex1.bck"),
        _ => panic!("expected a backup"),
    }
    assert_eq!(steps[1].recreate_directory.as_deref(), Some("/game/sqpack/ex2"));
    match &steps[1].source {
        VersionSource::Fixed(v) => assert_eq!(v, "2012.01.01.0000.0000"),
        _ => panic!("expected a fixed version"),
    }
}

#[test]
fn index_filenames_of_a_path() {
    let data = common_setup_data();
    let names = data.get_index_filenames("bg/ex1/01_roc_r2/twn/r2t1/level/planevent.lgb").unwrap();
    assert_eq!(names.len(), 510);
    assert_eq!(names[0], "game/sqpack/ex1/020100.win32.index");
    assert_eq!(names[1], "game/sqpack/ex1/020100.win32.index2");
    assert_eq!(names[509], "game/sqpack/ex1/0201254.win32.index2");
    assert!(data.get_index_filenames("what/some_font.dat").is_none());
}

#[test]
fn empty_resolver_finds_nothing() {
    let mut resolver = ResourceResolver::default();
    assert!(resolver.read("exd/root.exl").is_err());
    assert!(!resolver.file_exists("exd/root.exl"));
}
