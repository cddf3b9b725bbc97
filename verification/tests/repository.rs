use physis::repository::{string_to_category, Category, Repository, RepositoryType};
use physis::resource::SqPackRelease;
use physis::Platform;

#[test]
fn test_base() {
    // The base directory of the test data exists and its version file reads as below.
    let repository = Repository::from_existing_base(
        Platform::Win32,
        SqPackRelease::Retail,
        true,
        Some("2012.01.01.0000.0000".to_string()),
    );
    assert!(repository.is_some());
    assert_eq!(repository.unwrap().version.unwrap(), "2012.01.01.0000.0000");
}

#[test]
fn test_expansion() {
    // The "ex1" directory of the test data exists and its version file reads as below.
    let repository = Repository::from_existing_expansion(
        Platform::Win32,
        SqPackRelease::Retail,
        "ex1",
        true,
        Some("2012.01.01.0000.0000".to_string()),
    );
    assert!(repository.is_some());
    assert_eq!(repository.unwrap().version.unwrap(), "2012.01.01.0000.0000");
}

#[test]
fn test_win32_filenames() {
    let repo = Repository {
        name: "ffxiv".to_string(),
        platform: Platform::Win32,
        release: SqPackRelease::Retail,
        repo_type: RepositoryType::Base,
        version: None,
    };

    assert_eq!(repo.index_filename(0, Category::Music), "0c0000.win32.index");
    assert_eq!(repo.index2_filename(0, Category::Music), "0c0000.win32.index2");
}

#[test]
fn test_ps3_filenames() {
    let repo = Repository {
        name: "ffxiv".to_string(),
        platform: Platform::PS3,
        release: SqPackRelease::Retail,
        repo_type: RepositoryType::Base,
        version: None,
    };

    assert_eq!(repo.index_filename(0, Category::Music), "0c0000.ps3.index");
    assert_eq!(repo.index2_filename(0, Category::Music), "0c0000.ps3.index2");
}

#[test]
fn test_ps4_filenames() {
    let repo = Repository {
        name: "ffxiv".to_string(),
        platform: Platform::PS4,
        release: SqPackRelease::Retail,
        repo_type: RepositoryType::Base,
        version: None,
    };

    assert_eq!(repo.index_filename(0, Category::Music), "0c0000.ps4.index");
    assert_eq!(repo.index2_filename(0, Category::Music), "0c0000.ps4.index2");
}

#[test]
fn test_ps3_debug_filenames() {
    let repo = Repository {
        name: "ffxiv".to_string(),
        platform: Platform::PS3,
        release: SqPackRelease::Debug,
        repo_type: RepositoryType::Base,
        version: None,
    };

    assert_eq!(repo.index_filename(0, Category::Music), "0c0000.ps3.d.index");
    assert_eq!(repo.index2_filename(0, Category::Music), "0c0000.ps3.d.index2");
}

#[test]
fn expansion_filenames_carry_the_number() {
    let repo = Repository::from_existing_expansion(
        Platform::Win32,
        SqPackRelease::Retail,
        "ex3",
        true,
        None,
    )
    .unwrap();
    assert_eq!(repo.repo_type, RepositoryType::Expansion { number: 3 });
    assert_eq!(repo.index_filename(7, Category::Background), "020307.win32.index");
}

#[test]
fn missing_directories_give_no_repository() {
    assert!(Repository::from_existing_base(Platform::Win32, SqPackRelease::Retail, false, None)
        .is_none());
    assert!(Repository::from_existing_expansion(
        Platform::Win32,
        SqPackRelease::Retail,
        "exa",
        true,
        None
    )
    .is_none());
}

#[test]
fn categories_by_name() {
    assert_eq!(string_to_category("exd"), Some(Category::EXD));
    assert_eq!(string_to_category("bgcommon"), Some(Category::BackgroundCommon));
    assert_eq!(string_to_category("what"), None);
}

#[test]
fn base_sorts_before_expansions() {
    let base = Repository::from_existing_base(Platform::Win32, SqPackRelease::Retail, true, None)
        .unwrap();
    let ex1 = Repository::from_existing_expansion(
        Platform::Win32,
        SqPackRelease::Retail,
        "ex1",
        true,
        None,
    )
    .unwrap();
    assert_eq!(base.cmp(&ex1), std::cmp::Ordering::Less);
    assert_eq!(ex1.cmp(&base), std::cmp::Ordering::Greater);
    assert_eq!(ex1.cmp(&ex1), std::cmp::Ordering::Equal);
}

#[test]
fn base_compares_equal_to_itself() {
    let base = physis::repository::Repository::from_existing_base(
        physis::Platform::Win32,
        physis::resource::SqPackRelease::Retail,
        true,
        None,
    )
    .unwrap();
    assert_eq!(base.cmp(&base), std::cmp::Ordering::Equal);
}
