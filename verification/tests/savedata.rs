use physis::race::{Gender, Race, Tribe};
use physis::savedata::chardat::{CharacterData, CustomizeData};
use physis::savedata::dat::DatHeader;
use physis::savedata::gearsets::{GearSet, GearSets, GearSlot, GearSlotType};
use physis::savedata::log::{ChatLog, ChatLogHeader, EventChannel, EventFilter};
use physis::equipment::Slot;

fn slot(id: u32, glamour_id: Option<u32>) -> GearSlot {
    GearSlot {
        id,
        glamour_id,
        unknown1: 0,
        unknown2: 0,
        unknown3: 0,
        unknown4: 0,
        unknown5: 0,
    }
}

fn white_mage() -> GearSets {
    let mut slots = vec![None; 14];
    slots[GearSlotType::MainHand.number()] = Some(slot(5269, Some(2453)));
    slots[GearSlotType::Body.number()] = Some(slot(8395913, None));
    let mut gearsets = vec![None; 100];
    gearsets[0] = Some(GearSet {
        index: 0,
        name: "White Mage".to_string(),
        unknown1: 0,
        slots,
        facewear: None,
    });
    GearSets { unknown1: 0, current_gearset: 0, unknown3: 0, gearsets }
}

#[test]
fn gear_sets_read_back() {
    let bytes = white_mage().write_to_buffer().unwrap();
    assert_eq!(bytes.len(), 17 + 45204);
    assert_eq!(&bytes[0..4], &[0x05, 0x00, 0x6d, 0x00]);
    assert_eq!(bytes[16], 0xFF);
    // The content is masked: its first byte, zero, is stored as the key.
    assert_eq!(bytes[17], 0x73);

    let gearsets = GearSets::from_existing(&bytes).unwrap();
    assert_eq!(gearsets.current_gearset, 0);
    let gearset = gearsets.gearsets[0].as_ref().unwrap();
    for i in 1..gearsets.gearsets.len() {
        assert!(gearsets.gearsets[i].is_none());
    }
    assert_eq!(gearset.index, 0);
    assert_eq!(gearset.name, "White Mage");
    assert!(gearset.facewear.is_none());
    assert_eq!(gearset.slots.iter().filter(|s| s.is_some()).count(), 2);
    let main = gearset.slots[GearSlotType::MainHand.number()].unwrap();
    assert_eq!(main.id, 5269);
    assert_eq!(main.glamour_id, Some(2453));
    let body = gearset.slots[GearSlotType::Body.number()].unwrap();
    assert_eq!(body.id, 8395913);
    assert_eq!(body.glamour_id, None);

    // Writing what was read gives the same bytes.
    assert_eq!(gearsets.write_to_buffer().unwrap(), bytes);
}

#[test]
fn gear_sets_refuse_other_files() {
    assert!(GearSets::from_existing(&[0u8; 10]).is_none());
    let mut bytes = white_mage().write_to_buffer().unwrap();
    bytes.truncate(100);
    assert!(GearSets::from_existing(&bytes).is_none());
}

#[test]
fn gear_slot_types() {
    assert_eq!(GearSlotType::Bracelets.to_slot(), Some(Slot::Wrists));
    assert_eq!(GearSlotType::Soul.to_slot(), None);
    assert_eq!(GearSlotType::from_slot(Slot::RingLeft), Ok(GearSlotType::Ring1));
    assert_eq!(GearSlotType::try_from(13), Ok(GearSlotType::Soul));
    assert_eq!(GearSlotType::try_from(14), Err(()));
}

#[test]
fn dat_header_bytes() {
    let mut out = Vec::new();
    DatHeader::read(&[0x05, 0x00, 0x6d, 0x00, 1, 0, 0, 0, 2, 0, 0, 0, 0, 0, 0, 0, 0xFF])
        .unwrap()
        .write(&mut out);
    assert_eq!(out, vec![0x05, 0x00, 0x6d, 0x00, 1, 0, 0, 0, 2, 0, 0, 0, 0, 0, 0, 0, 0xFF]);
}

fn viera() -> CharacterData {
    let mut customize = CustomizeData::default();
    customize.race = Race::Viera;
    customize.gender = Gender::Female;
    customize.tribe = Tribe::Rava;
    customize.eyes = 131;
    customize.voice = 160;
    CharacterData {
        version: 4,
        checksum: 0,
        customize,
        timestamp: 1_700_000_000,
        comment: "Shadowbringers Comment Text".to_string(),
    }
}

#[test]
fn character_data_read_back() {
    let bytes = viera().write_to_buffer().unwrap();
    assert_eq!(bytes.len(), 212);
    assert_eq!(&bytes[0..4], &[0x14, 0xFF, 0x13, 0x20]);
    let read = CharacterData::from_existing(&bytes).unwrap();
    assert_eq!(read.version, 4);
    assert_eq!(read.customize, viera().customize);
    assert_eq!(read.customize.race, Race::Viera);
    assert_eq!(read.timestamp, 1_700_000_000);
    assert_eq!(read.comment, "Shadowbringers Comment Text");
    // The checksum read is the one written, and writing again gives the same bytes.
    assert_eq!(read.checksum, u32::from_le_bytes([bytes[8], bytes[9], bytes[10], bytes[11]]));
    assert_eq!(read.write_to_buffer().unwrap(), bytes);
}

#[test]
fn character_data_checksum_by_hand() {
    let data = viera();
    let bytes = data.write_to_buffer().unwrap();
    let mut covered = bytes[16..43].to_vec();
    covered.push(0);
    covered.extend_from_slice(&data.timestamp.to_le_bytes());
    covered.extend_from_slice(&bytes[48..212]);
    let mut checksum: u32 = 0;
    for (i, byte) in covered.iter().enumerate() {
        checksum ^= (*byte as u32) << (i % 24);
    }
    assert_eq!(u32::from_le_bytes([bytes[8], bytes[9], bytes[10], bytes[11]]), checksum);
}

#[test]
fn character_data_refuses_other_files() {
    assert!(CharacterData::from_existing(&[0u8; 212]).is_none());
    let mut bytes = viera().write_to_buffer().unwrap();
    bytes[16] = 200; // no race has this number
    assert!(CharacterData::from_existing(&bytes).is_none());
}

#[test]
fn customize_default() {
    let c = CustomizeData::default();
    assert_eq!(c.race, Race::Hyur);
    assert_eq!(c.tribe, Tribe::Midlander);
    assert_eq!(c.height, 50);
    assert_eq!(c.face_paint_color, 1);
}

#[test]
fn chat_log_entries() {
    // Two entries, with a content size of zero and a file size of two.
    let mut bytes: Vec<u8> = Vec::new();
    bytes.extend_from_slice(&0u32.to_le_bytes());
    bytes.extend_from_slice(&2u32.to_le_bytes());
    bytes.extend_from_slice(&0u32.to_le_bytes());
    bytes.extend_from_slice(&12u32.to_le_bytes());
    // first entry at 16: timestamp, filter, channel, four unused bytes, message
    bytes.extend_from_slice(&7u32.to_le_bytes());
    bytes.push(3);
    bytes.push(0);
    bytes.extend_from_slice(&1u32.to_le_bytes());
    bytes.extend_from_slice(b"hi");
    // second entry at 28
    bytes.extend_from_slice(&8u32.to_le_bytes());
    bytes.push(64);
    bytes.push(59);
    bytes.extend_from_slice(&1u32.to_le_bytes());
    bytes.extend_from_slice(b"there");
    let log = ChatLog::from_existing(&bytes).unwrap();
    assert_eq!(log.entries.len(), 2);
    assert_eq!(log.entries[0].timestamp, 7);
    assert_eq!(log.entries[0].filter, EventFilter::SystemMessages);
    assert_eq!(log.entries[0].channel, EventChannel::System);
    assert_eq!(log.entries[0].message, "hi");
    assert_eq!(log.entries[1].filter, EventFilter::ProgressionMessage);
    assert_eq!(log.entries[1].channel, EventChannel::NPCFriendly);
    assert_eq!(log.entries[1].message, "there");
}

#[test]
fn chat_log_with_implausible_sizes() {
    let mut bytes: Vec<u8> = Vec::new();
    bytes.extend_from_slice(&100u32.to_le_bytes());
    bytes.extend_from_slice(&0u32.to_le_bytes());
    assert!(ChatLog::from_existing(&bytes).is_none());
}

#[test]
fn event_numbers() {
    assert_eq!(EventFilter::from_number(69), Some(EventFilter::Unknown4));
    assert_eq!(EventFilter::from_number(1), None);
    assert_eq!(EventChannel::from_number(110), Some(EventChannel::Unknown19));
}

#[test]
fn chat_log_header_lists_its_offsets() {
    let mut bytes: Vec<u8> = Vec::new();
    bytes.extend_from_slice(&1u32.to_le_bytes());
    bytes.extend_from_slice(&3u32.to_le_bytes());
    bytes.extend_from_slice(&5u32.to_le_bytes());
    bytes.extend_from_slice(&9u32.to_le_bytes());
    let header = ChatLogHeader::read(&bytes);
    assert_eq!(header.content_size, 1);
    assert_eq!(header.file_size, 3);
    assert_eq!(header.offset_entries, vec![5, 9]);

    let mut none: Vec<u8> = Vec::new();
    none.extend_from_slice(&4u32.to_le_bytes());
    none.extend_from_slice(&2u32.to_le_bytes());
    assert!(ChatLogHeader::read(&none).offset_entries.is_empty());
}

#[test]
fn chat_log_rejects_invalid_data() {
    // Shorter than the two sizes of the header.
    assert!(ChatLog::from_existing(&[]).is_none());
    assert!(ChatLog::from_existing(&[1, 2, 3]).is_none());
    // The offset table runs past the end.
    let mut bytes: Vec<u8> = Vec::new();
    bytes.extend_from_slice(&0u32.to_le_bytes());
    bytes.extend_from_slice(&5u32.to_le_bytes());
    assert!(ChatLog::from_existing(&bytes).is_none());
    // An entry with an unknown filter number.
    let mut bytes: Vec<u8> = Vec::new();
    bytes.extend_from_slice(&0u32.to_le_bytes());
    bytes.extend_from_slice(&1u32.to_le_bytes());
    bytes.extend_from_slice(&0u32.to_le_bytes());
    bytes.extend_from_slice(&7u32.to_le_bytes());
    bytes.push(1);
    bytes.push(0);
    bytes.extend_from_slice(&1u32.to_le_bytes());
    assert!(ChatLog::from_existing(&bytes).is_none());
    // The same entry with a known filter reads.
    bytes[16] = 3;
    let log = ChatLog::from_existing(&bytes).unwrap();
    assert_eq!(log.entries.len(), 1);
    assert_eq!(log.entries[0].message, "");
    // An entry too short for its fixed fields.
    bytes.truncate(20);
    assert!(ChatLog::from_existing(&bytes).is_none());
}
