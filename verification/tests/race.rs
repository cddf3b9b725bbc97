use physis::race::{get_race_id, get_supported_tribes, Gender, Race, Tribe};

#[test]
fn test_convert_race_num() {
    // valid
    assert_eq!(get_race_id(Race::Roegadyn, Tribe::SeaWolf, Gender::Male), Some(901));
    // invalid
    assert_eq!(get_race_id(Race::Roegadyn, Tribe::Midlander, Gender::Male), None);
}

#[test]
fn supported_tribes_of_roegadyn() {
    let tribes = get_supported_tribes(Race::Roegadyn);
    assert_eq!(tribes, [Tribe::SeaWolf, Tribe::Hellsguard]);
}

#[test]
fn race_numbers_read_back() {
    assert_eq!(Race::try_from(Race::AuRa.number()).ok(), Some(Race::AuRa));
    assert!(Race::try_from(200).is_err());
    assert!(Gender::try_from(2).is_err());
    assert!(Tribe::try_from(0).is_err());
}

#[test]
fn lalafell_and_viera_have_their_own_ids_and_tribes() {
    assert_eq!(get_race_id(Race::Lalafell, Tribe::Plainsfolk, Gender::Male), Some(1101));
    assert_eq!(get_race_id(Race::Lalafell, Tribe::Dunesfolk, Gender::Female), Some(1201));
    assert_eq!(get_supported_tribes(Race::Viera), [Tribe::Rava, Tribe::Veena]);
    assert_eq!(get_race_id(Race::Viera, Tribe::Rava, Gender::Female), Some(1801));
    assert_eq!(get_race_id(Race::Viera, Tribe::Raen, Gender::Female), None);
}
