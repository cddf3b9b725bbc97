//! Gear set files (`GEARSET.DAT`): a character's gear sets, stored with every byte masked.
use vstd::prelude::*;
use crate::bytes::{
    push_bytes, push_u16_le, push_u32_le, push_u64_le, push_zeros, read_u16_le, read_u32_le,
    read_u64_le, u16_le, u16_le_bytes, u32_le, u32_le_bytes, u64_le, u64_le_bytes,
};
use crate::equipment::Slot;
use crate::savedata::dat::{dat_header_bytes, dat_header_of, DatFileType, DatHeader, DAT_HEADER_SIZE};
use vstd::string::StringSliceAdditionalSpecFns;
use vstd::utf8::encode_utf8;
use crate::savedata::chardat::no_nul;
use crate::text::{lossy_text, text_from_bytes_lossy};

verus! {

/// A flag that stored item IDs carry.
pub const UNKNOWN_FLAG: u32 = 1_000_000;

/// How many gear sets a file holds.
pub const NUMBER_OF_GEARSETS: usize = 100;

/// How many slots a gear set has.
pub const NUMBER_OF_GEARSLOTS: usize = 14;

/// The byte that every byte of the content is masked with.
pub const GEARSET_KEY: u8 = 0x73;

/// The size of the header of a gear set file, and of its content.
pub const GEARSET_FILE_SIZE: u32 = 45205;

/// The room a gear set's name has, its terminating zero byte included.
pub const NAME_FIELD_SIZE: usize = 47;

/// An item ID as stored, without the flag.
pub open spec fn from_gear_id(id: u32) -> u32 {
    id & !UNKNOWN_FLAG
}

/// An item ID with the flag, as stored.
pub open spec fn to_gear_id(id: u32) -> u32 {
    id | UNKNOWN_FLAG
}

/// A stored ID, zero standing for none.
pub open spec fn id_opt(id: u32) -> Option<u32> {
    if id == 0 {
        None
    } else {
        Some(id)
    }
}

/// An optional ID as stored, zero standing for none.
pub open spec fn opt_id(id: Option<u32>) -> u32 {
    match id {
        Some(x) => x,
        None => 0,
    }
}

/// Removes the flag from a stored item ID.
fn convert_from_gear_id(id: u32) -> (r: u32)
    ensures
        r == from_gear_id(id),
{
    id & !UNKNOWN_FLAG
}

/// Adds the flag to an item ID.
fn convert_to_gear_id(id: &u32) -> (r: u32)
    ensures
        r == to_gear_id(*id),
{
    *id | UNKNOWN_FLAG
}

/// A stored ID, zero standing for none.
fn convert_id_opt(id: u32) -> (r: Option<u32>)
    ensures
        r == id_opt(id),
{
    if id == 0 {
        None
    } else {
        Some(id)
    }
}

/// An optional ID as stored.
fn convert_opt_id(id: &Option<u32>) -> (r: u32)
    ensures
        r == opt_id(*id),
{
    match id {
        Some(x) => *x,
        None => 0,
    }
}

/// An item in a slot of a gear set.
#[derive(Debug, Clone, Copy, PartialEq, Eq, Structural)]
pub struct GearSlot {
    /// The ID of the item.
    pub id: u32,
    /// The ID of the item used as glamour.
    pub glamour_id: Option<u32>,
    /// Not known.
    pub unknown1: u32,
    /// Not known.
    pub unknown2: u32,
    /// Not known.
    pub unknown3: u32,
    /// Not known.
    pub unknown4: u32,
    /// Not known.
    pub unknown5: u32,
}

impl Default for GearSlot {
    /// An empty slot.
    fn default() -> (r: Self)
        ensures
            r == empty_slot(),
    {
        GearSlot {
            id: 0,
            glamour_id: None,
            unknown1: 0,
            unknown2: 0,
            unknown3: 0,
            unknown4: 0,
            unknown5: 0,
        }
    }
}

/// An empty slot.
pub open spec fn empty_slot() -> GearSlot {
    GearSlot {
        id: 0,
        glamour_id: None,
        unknown1: 0,
        unknown2: 0,
        unknown3: 0,
        unknown4: 0,
        unknown5: 0,
    }
}

/// The slots of a gear set, in the order they are stored.
#[derive(Debug, Clone, Copy, PartialEq, Eq, Structural)]
pub enum GearSlotType {
    /// The main hand.
    MainHand,
    /// The secondary hand.
    SecondaryHand,
    /// The head.
    Head,
    /// The body.
    Body,
    /// The hands.
    Hands,
    /// The waist, a legacy slot.
    Waist,
    /// The legs.
    Legs,
    /// The feet.
    Feet,
    /// The wrists.
    Bracelets,
    /// The neck.
    Necklace,
    /// The ears.
    Earrings,
    /// The first ring.
    Ring1,
    /// The second ring.
    Ring2,
    /// The soul crystal.
    Soul,
}

/// The position of a slot in a stored gear set.
pub open spec fn slot_number(t: GearSlotType) -> usize {
    match t {
        GearSlotType::MainHand => 0,
        GearSlotType::SecondaryHand => 1,
        GearSlotType::Head => 2,
        GearSlotType::Body => 3,
        GearSlotType::Hands => 4,
        GearSlotType::Waist => 5,
        GearSlotType::Legs => 6,
        GearSlotType::Feet => 7,
        GearSlotType::Bracelets => 8,
        GearSlotType::Necklace => 9,
        GearSlotType::Earrings => 10,
        GearSlotType::Ring1 => 11,
        GearSlotType::Ring2 => 12,
        GearSlotType::Soul => 13,
    }
}

/// The equipment slot a gear slot stands for, if any.
pub open spec fn equipment_slot_of(t: GearSlotType) -> Option<Slot> {
    match t {
        GearSlotType::Head => Some(Slot::Head),
        GearSlotType::Body => Some(Slot::Body),
        GearSlotType::Hands => Some(Slot::Hands),
        GearSlotType::Legs => Some(Slot::Legs),
        GearSlotType::Feet => Some(Slot::Feet),
        GearSlotType::Bracelets => Some(Slot::Wrists),
        GearSlotType::Necklace => Some(Slot::Neck),
        GearSlotType::Earrings => Some(Slot::Earring),
        GearSlotType::Ring1 => Some(Slot::RingLeft),
        GearSlotType::Ring2 => Some(Slot::RingRight),
        _ => None,
    }
}

impl GearSlotType {
    /// The position of this slot in a stored gear set.
    pub fn number(&self) -> (r: usize)
        ensures
            r == slot_number(*self),
    {
        match self {
            GearSlotType::MainHand => 0,
            GearSlotType::SecondaryHand => 1,
            GearSlotType::Head => 2,
            GearSlotType::Body => 3,
            GearSlotType::Hands => 4,
            GearSlotType::Waist => 5,
            GearSlotType::Legs => 6,
            GearSlotType::Feet => 7,
            GearSlotType::Bracelets => 8,
            GearSlotType::Necklace => 9,
            GearSlotType::Earrings => 10,
            GearSlotType::Ring1 => 11,
            GearSlotType::Ring2 => 12,
            GearSlotType::Soul => 13,
        }
    }

    /// The equipment slot this gear slot stands for, if any.
    pub fn to_slot(&self) -> (r: Option<Slot>)
        ensures
            r == equipment_slot_of(*self),
    {
        match self {
            GearSlotType::Head => Some(Slot::Head),
            GearSlotType::Body => Some(Slot::Body),
            GearSlotType::Hands => Some(Slot::Hands),
            GearSlotType::Legs => Some(Slot::Legs),
            GearSlotType::Feet => Some(Slot::Feet),
            GearSlotType::Bracelets => Some(Slot::Wrists),
            GearSlotType::Necklace => Some(Slot::Neck),
            GearSlotType::Earrings => Some(Slot::Earring),
            GearSlotType::Ring1 => Some(Slot::RingLeft),
            GearSlotType::Ring2 => Some(Slot::RingRight),
            _ => None,
        }
    }

    /// The gear slot that an equipment slot stands for.
    pub fn from_slot(v: Slot) -> (r: Result<GearSlotType, ()>)
        ensures
            r matches Ok(t) && equipment_slot_of(t) == Some(v),
    {
        match v {
            Slot::Head => Ok(GearSlotType::Head),
            Slot::Body => Ok(GearSlotType::Body),
            Slot::Hands => Ok(GearSlotType::Hands),
            Slot::Legs => Ok(GearSlotType::Legs),
            Slot::Feet => Ok(GearSlotType::Feet),
            Slot::Wrists => Ok(GearSlotType::Bracelets),
            Slot::Neck => Ok(GearSlotType::Necklace),
            Slot::Earring => Ok(GearSlotType::Earrings),
            Slot::RingLeft => Ok(GearSlotType::Ring1),
            Slot::RingRight => Ok(GearSlotType::Ring2),
        }
    }

    /// The gear slot at position `v` of a stored gear set; an error past the last.
    pub fn try_from(v: usize) -> (r: Result<GearSlotType, ()>)
        ensures
            r is Ok <==> v < NUMBER_OF_GEARSLOTS,
            r matches Ok(t) ==> slot_number(t) == v,
    {
        match v {
            0 => Ok(GearSlotType::MainHand),
            1 => Ok(GearSlotType::SecondaryHand),
            2 => Ok(GearSlotType::Head),
            3 => Ok(GearSlotType::Body),
            4 => Ok(GearSlotType::Hands),
            5 => Ok(GearSlotType::Waist),
            6 => Ok(GearSlotType::Legs),
            7 => Ok(GearSlotType::Feet),
            8 => Ok(GearSlotType::Bracelets),
            9 => Ok(GearSlotType::Necklace),
            10 => Ok(GearSlotType::Earrings),
            11 => Ok(GearSlotType::Ring1),
            12 => Ok(GearSlotType::Ring2),
            13 => Ok(GearSlotType::Soul),
            _ => Err(()),
        }
    }
}

/// Converting a gear slot to an equipment slot and back gives it again.
pub proof fn law_gear_slot_round_trip(t: GearSlotType, s: Slot)
    ensures
        equipment_slot_of(t) == Some(s) ==> (match s {
            Slot::Head => GearSlotType::Head,
            Slot::Body => GearSlotType::Body,
            Slot::Hands => GearSlotType::Hands,
            Slot::Legs => GearSlotType::Legs,
            Slot::Feet => GearSlotType::Feet,
            Slot::Wrists => GearSlotType::Bracelets,
            Slot::Neck => GearSlotType::Necklace,
            Slot::Earring => GearSlotType::Earrings,
            Slot::RingLeft => GearSlotType::Ring1,
            Slot::RingRight => GearSlotType::Ring2,
        }) == t,
{
}

/// A gear set.
#[derive(Debug, Clone)]
pub struct GearSet {
    /// The index of the gear set in the list of gear sets.
    pub index: u8,
    /// The name of the gear set.
    pub name: String,
    /// Not known.
    pub unknown1: u64,
    /// The slots of the gear set, by the position of each slot type (see
    /// `GearSlotType::number`); `None` for an empty slot.
    pub slots: Vec<Option<GearSlot>>,
    /// The ID of the facewear item.
    pub facewear: Option<u32>,
}

/// A gear set as plain values.
pub struct GearSetView {
    /// The index of the gear set.
    pub index: u8,
    /// The name of the gear set.
    pub name: Seq<char>,
    /// Not known.
    pub unknown1: u64,
    /// The slots of the gear set.
    pub slots: Seq<Option<GearSlot>>,
    /// The ID of the facewear item.
    pub facewear: Option<u32>,
}

impl View for GearSet {
    type V = GearSetView;

    open spec fn view(&self) -> GearSetView {
        GearSetView {
            index: self.index,
            name: self.name@,
            unknown1: self.unknown1,
            slots: self.slots@,
            facewear: self.facewear,
        }
    }
}

/// The gear sets of a character.
#[derive(Debug, Clone)]
pub struct GearSets {
    /// Not known; always zero.
    pub unknown1: u8,
    /// The index of the current active gear set.
    pub current_gearset: u8,
    /// Not known.
    pub unknown3: u16,
    /// The list of gear sets; `None` for an empty one.
    pub gearsets: Vec<Option<GearSet>>,
}

/// Gear sets as plain values.
pub struct GearSetsView {
    /// Not known.
    pub unknown1: u8,
    /// The index of the current active gear set.
    pub current_gearset: u8,
    /// Not known.
    pub unknown3: u16,
    /// The gear sets.
    pub gearsets: Seq<Option<GearSetView>>,
}

/// The views of optional gear sets.
pub open spec fn gear_set_views(s: Seq<Option<GearSet>>) -> Seq<Option<GearSetView>> {
    Seq::new(
        s.len(),
        |k: int|
            match s[k] {
                Some(g) => Some(g@),
                None => None,
            },
    )
}

impl View for GearSets {
    type V = GearSetsView;

    open spec fn view(&self) -> GearSetsView {
        GearSetsView {
            unknown1: self.unknown1,
            current_gearset: self.current_gearset,
            unknown3: self.unknown3,
            gearsets: gear_set_views(self.gearsets@),
        }
    }
}

/// The slot stored at `i` of a gear set's content: the item ID with the flag, the glamour ID
/// (zero for none), then five numbers not known.
pub open spec fn slot_at(d: Seq<u8>, i: int) -> GearSlot {
    GearSlot {
        id: from_gear_id(u32_le(d, i)),
        glamour_id: id_opt(u32_le(d, i + 4)),
        unknown1: u32_le(d, i + 8),
        unknown2: u32_le(d, i + 12),
        unknown3: u32_le(d, i + 16),
        unknown4: u32_le(d, i + 20),
        unknown5: u32_le(d, i + 24),
    }
}

/// The slots stored from `i` on, empty ones (of item ID zero) as `None`.
pub open spec fn slots_at(d: Seq<u8>, i: int) -> Seq<Option<GearSlot>> {
    Seq::new(
        NUMBER_OF_GEARSLOTS as nat,
        |k: int|
            if slot_at(d, i + 28 * k).id == 0 {
                None
            } else {
                Some(slot_at(d, i + 28 * k))
            },
    )
}

/// The first zero byte at or after `i`.
pub open spec fn first_zero(d: Seq<u8>, i: int) -> Option<int>
    decreases d.len() - i,
{
    if i < 0 || i >= d.len() {
        None
    } else if d[i] == 0 {
        Some(i)
    } else {
        first_zero(d, i + 1)
    }
}

/// The gear set stored at `i` of the content, with the position after it: its index, its
/// name up to a zero byte in a field of 47 bytes (the name runs on past the field where no
/// zero byte ends it within), a number not known, the slots and the facewear ID. `None`
/// where the content ends first.
pub open spec fn gear_set_at(d: Seq<u8>, i: int) -> Option<(GearSetView, int)> {
    match first_zero(d, i + 1) {
        None => None,
        Some(z) => {
            let field_end = if z + 1 < i + 1 + NAME_FIELD_SIZE {
                i + 1 + NAME_FIELD_SIZE
            } else {
                z + 1
            };
            let next = field_end + 8 + 28 * NUMBER_OF_GEARSLOTS + 4;
            if next > d.len() {
                None
            } else {
                Some(
                    (
                        GearSetView {
                            index: d[i],
                            name: lossy_text(d.subrange(i + 1, z)),
                            unknown1: u64_le(d, field_end),
                            slots: slots_at(d, field_end + 8),
                            facewear: id_opt(u32_le(d, field_end + 8 + 28 * NUMBER_OF_GEARSLOTS)),
                        },
                        next,
                    ),
                )
            }
        },
    }
}

/// The `n` gear sets stored from `i` on, unnamed ones as `None`.
pub open spec fn gear_sets_from(d: Seq<u8>, i: int, n: nat) -> Option<Seq<Option<GearSetView>>>
    decreases n,
{
    if n == 0 {
        Some(seq![])
    } else {
        match gear_set_at(d, i) {
            None => None,
            Some((g, next)) => match gear_sets_from(d, next, (n - 1) as nat) {
                None => None,
                Some(rest) => Some(
                    seq![if g.name.len() == 0 { None } else { Some(g) }] + rest,
                ),
            },
        }
    }
}

/// The gear sets stored in a content: a number not known, the current gear set, a number not
/// known, then the gear sets.
pub open spec fn gear_sets_content(d: Seq<u8>) -> Option<GearSetsView> {
    if d.len() < 4 {
        None
    } else {
        match gear_sets_from(d, 4, NUMBER_OF_GEARSETS as nat) {
            None => None,
            Some(sets) => Some(
                GearSetsView {
                    unknown1: d[0],
                    current_gearset: d[1],
                    unknown3: u16_le(d, 2),
                    gearsets: sets,
                },
            ),
        }
    }
}

/// `b` with every byte masked with the key.
pub open spec fn masked(b: Seq<u8>) -> Seq<u8> {
    Seq::new(b.len(), |k: int| b[k] ^ GEARSET_KEY)
}

/// The gear sets a file holds: after the header, as many bytes as its content size less one,
/// unmasked.
pub open spec fn gear_sets_file(b: Seq<u8>) -> Option<GearSetsView> {
    match dat_header_of(b) {
        None => None,
        Some(h) => if DAT_HEADER_SIZE + h.content_size - 1 > b.len() {
            None
        } else {
            gear_sets_content(
                masked(b.subrange(DAT_HEADER_SIZE as int, DAT_HEADER_SIZE + h.content_size - 1)),
            )
        },
    }
}

/// Whether reading `b` as a gear set file stays clear of a header that claims no content.
pub open spec fn gear_set_file_readable(b: Seq<u8>) -> bool {
    dat_header_of(b) matches Some(h) ==> h.content_size > 0
}

/// How a slot is stored.
pub open spec fn slot_bytes(s: GearSlot) -> Seq<u8> {
    u32_le_bytes(to_gear_id(s.id)) + u32_le_bytes(opt_id(s.glamour_id)) + u32_le_bytes(s.unknown1)
        + u32_le_bytes(s.unknown2) + u32_le_bytes(s.unknown3) + u32_le_bytes(s.unknown4)
        + u32_le_bytes(s.unknown5)
}

/// The slot stored at position `k`: the given one, or an empty one.
pub open spec fn slot_to_store(slots: Seq<Option<GearSlot>>, k: int) -> GearSlot {
    if k < slots.len() {
        match slots[k] {
            Some(s) => s,
            None => empty_slot(),
        }
    } else {
        empty_slot()
    }
}

/// How the first `n` slots are stored.
pub open spec fn slots_bytes(slots: Seq<Option<GearSlot>>, n: nat) -> Seq<u8>
    decreases n,
{
    if n == 0 {
        seq![]
    } else {
        slots_bytes(slots, (n - 1) as nat) + slot_bytes(slot_to_store(slots, n - 1))
    }
}

/// How a name is stored: its UTF-8 bytes and a zero byte, padded with zeros to the field's
/// size.
pub open spec fn name_field_bytes(name: Seq<char>) -> Seq<u8> {
    let b = encode_utf8(name).push(0u8);
    if b.len() < NAME_FIELD_SIZE {
        b + Seq::new((NAME_FIELD_SIZE - b.len()) as nat, |k: int| 0u8)
    } else {
        b
    }
}

/// How a gear set is stored.
pub open spec fn gear_set_bytes(g: GearSetView) -> Seq<u8> {
    seq![g.index] + name_field_bytes(g.name) + u64_le_bytes(g.unknown1) + slots_bytes(
        g.slots,
        NUMBER_OF_GEARSLOTS as nat,
    ) + u32_le_bytes(opt_id(g.facewear))
}

/// An unnamed gear set with empty slots.
pub open spec fn empty_gear_set() -> GearSetView {
    GearSetView { index: 0, name: seq![], unknown1: 0, slots: seq![], facewear: None }
}

/// The gear set stored at position `k`: the given one, or an empty one.
pub open spec fn gear_set_to_store(sets: Seq<Option<GearSetView>>, k: int) -> GearSetView {
    if k < sets.len() {
        match sets[k] {
            Some(g) => g,
            None => empty_gear_set(),
        }
    } else {
        empty_gear_set()
    }
}

/// How the first `n` gear sets are stored.
pub open spec fn gear_sets_bytes(sets: Seq<Option<GearSetView>>, n: nat) -> Seq<u8>
    decreases n,
{
    if n == 0 {
        seq![]
    } else {
        gear_sets_bytes(sets, (n - 1) as nat) + gear_set_bytes(gear_set_to_store(sets, n - 1))
    }
}

/// How the content of a gear set file is stored, before masking.
pub open spec fn gear_sets_content_bytes(g: GearSetsView) -> Seq<u8> {
    seq![g.unknown1, g.current_gearset] + u16_le_bytes(g.unknown3) + gear_sets_bytes(
        g.gearsets,
        NUMBER_OF_GEARSETS as nat,
    )
}

/// The header every written gear set file has.
pub open spec fn gear_set_file_header() -> DatHeader {
    DatHeader {
        file_type: DatFileType::Gearset,
        max_size: GEARSET_FILE_SIZE,
        content_size: GEARSET_FILE_SIZE,
    }
}

/// Reads the slot stored at `i`.
fn read_slot(d: &[u8], i: usize) -> (r: GearSlot)
    requires
        i + 28 <= d@.len(),
    ensures
        r == slot_at(d@, i as int),
{
    let _len = d.len();
    GearSlot {
        id: convert_from_gear_id(read_u32_le(d, i)),
        glamour_id: convert_id_opt(read_u32_le(d, i + 4)),
        unknown1: read_u32_le(d, i + 8),
        unknown2: read_u32_le(d, i + 12),
        unknown3: read_u32_le(d, i + 16),
        unknown4: read_u32_le(d, i + 20),
        unknown5: read_u32_le(d, i + 24),
    }
}

/// Reads the slots stored from `i` on, empty ones as `None`.
fn convert_from_slots(d: &[u8], i: usize) -> (r: Vec<Option<GearSlot>>)
    requires
        i + 28 * NUMBER_OF_GEARSLOTS <= d@.len(),
    ensures
        r@ == slots_at(d@, i as int),
{
    let mut out: Vec<Option<GearSlot>> = Vec::new();
    let mut k: usize = 0;
    let _len = d.len();
    while k < NUMBER_OF_GEARSLOTS
        invariant
            k <= NUMBER_OF_GEARSLOTS,
            d@.len() <= usize::MAX,
            i + 28 * NUMBER_OF_GEARSLOTS <= d@.len(),
            out@ == slots_at(d@, i as int).take(k as int),
        decreases NUMBER_OF_GEARSLOTS - k,
    {
        let slot = read_slot(d, i + 28 * k);
        if slot.id == 0 {
            out.push(None);
        } else {
            out.push(Some(slot));
        }
        assert(out@ =~= slots_at(d@, i as int).take(k + 1));
        k = k + 1;
    }
    assert(slots_at(d@, i as int).take(NUMBER_OF_GEARSLOTS as int) =~= slots_at(d@, i as int));
    out
}

/// The first zero byte at or after `i`.
fn find_zero(d: &[u8], i: usize) -> (r: Option<usize>)
    ensures
        r matches Some(z) ==> first_zero(d@, i as int) == Some(z as int) && i <= z < d@.len(),
        r is None ==> first_zero(d@, i as int) is None,
{
    let mut j = i;
    while j < d.len()
        invariant
            i <= j,
            first_zero(d@, i as int) == first_zero(d@, j as int),
        decreases d@.len() - j,
    {
        if d[j] == 0 {
            return Some(j);
        }
        j = j + 1;
    }
    None
}

/// Reads the gear set stored at `i`, with the position after it.
fn read_gear_set(d: &[u8], i: usize) -> (r: Option<(GearSet, usize)>)
    requires
        i < d@.len(),
        d@.len() <= isize::MAX,
    ensures
        r is Some <==> gear_set_at(d@, i as int) is Some,
        r matches Some((g, next)) ==> gear_set_at(d@, i as int) == Some((g@, next as int)),
{
    let z = match find_zero(d, i + 1) {
        Some(z) => z,
        None => return None,
    };
    let field_end = if z + 1 < i + 1 + NAME_FIELD_SIZE {
        i + 1 + NAME_FIELD_SIZE
    } else {
        z + 1
    };
    if field_end > d.len() || d.len() - field_end < 8 + 28 * NUMBER_OF_GEARSLOTS + 4 {
        return None;
    }
    let next = field_end + 8 + 28 * NUMBER_OF_GEARSLOTS + 4;
    let mut name_bytes: Vec<u8> = Vec::new();
    let mut k = i + 1;
    while k < z
        invariant
            i + 1 <= k <= z,
            z < d@.len(),
            name_bytes@ == d@.subrange(i + 1, k as int),
        decreases z - k,
    {
        name_bytes.push(d[k]);
        k = k + 1;
        assert(name_bytes@ =~= d@.subrange(i + 1, k as int));
    }
    let g = GearSet {
        index: d[i],
        name: text_from_bytes_lossy(name_bytes.as_slice()),
        unknown1: read_u64_le(d, field_end),
        slots: convert_from_slots(d, field_end + 8),
        facewear: convert_id_opt(read_u32_le(d, field_end + 8 + 28 * NUMBER_OF_GEARSLOTS)),
    };
    Some((g, next))
}

/// Reads the content of a gear set file, unmasked.
fn read_gear_sets(d: &[u8]) -> (r: Option<GearSets>)
    requires
        d@.len() <= isize::MAX,
    ensures
        r is Some <==> gear_sets_content(d@) is Some,
        r matches Some(g) ==> gear_sets_content(d@) == Some(g@),
{
    if d.len() < 4 {
        return None;
    }
    let mut sets: Vec<Option<GearSet>> = Vec::new();
    let mut i: usize = 4;
    let mut n: usize = 0;
    while n < NUMBER_OF_GEARSETS
        invariant
            n <= NUMBER_OF_GEARSETS,
            4 <= i,
            d@.len() <= isize::MAX,
            gear_sets_from(d@, 4, NUMBER_OF_GEARSETS as nat) == match gear_sets_from(
                d@,
                i as int,
                (NUMBER_OF_GEARSETS - n) as nat,
            ) {
                Some(rest) => Some(gear_set_views(sets@) + rest),
                None => None,
            },
        decreases NUMBER_OF_GEARSETS - n,
    {
        if i >= d.len() {
            proof {
                reveal_with_fuel(gear_sets_from, 2);
            }
            return None;
        }
        let (g, next) = match read_gear_set(d, i) {
            Some(found) => found,
            None => {
                proof {
                    reveal_with_fuel(gear_sets_from, 2);
                }
                return None;
            },
        };
        let ghost gv = g@;
        let ghost before = sets@;
        if g.name.as_str().is_empty() {
            sets.push(None);
        } else {
            sets.push(Some(g));
        }
        proof {
            let item = if gv.name.len() == 0 {
                None
            } else {
                Some(gv)
            };
            assert(gear_set_views(sets@) =~= gear_set_views(before).push(item));
            match gear_sets_from(d@, next as int, (NUMBER_OF_GEARSETS - n - 1) as nat) {
                Some(rest) => assert(gear_set_views(before) + (seq![item] + rest) =~= gear_set_views(
                    sets@,
                ) + rest),
                None => {},
            }
        }
        i = next;
        n = n + 1;
    }
    assert(gear_set_views(sets@) + seq![] =~= gear_set_views(sets@));
    Some(GearSets {
        unknown1: d[0],
        current_gearset: d[1],
        unknown3: read_u16_le(d, 2),
        gearsets: sets,
    })
}

/// Every byte of `b` masked with the key.
fn mask(b: &[u8]) -> (r: Vec<u8>)
    ensures
        r@ == masked(b@),
{
    let mut out: Vec<u8> = Vec::new();
    let mut k: usize = 0;
    while k < b.len()
        invariant
            k <= b@.len(),
            out@ == masked(b@).take(k as int),
        decreases b@.len() - k,
    {
        out.push(b[k] ^ GEARSET_KEY);
        k = k + 1;
        assert(out@ =~= masked(b@).take(k as int));
    }
    assert(masked(b@).take(b@.len() as int) =~= masked(b@));
    out
}

/// Appends the stored form of a slot.
fn write_slot(out: &mut Vec<u8>, s: &GearSlot)
    ensures
        final(out)@ == old(out)@ + slot_bytes(*s),
{
    push_u32_le(out, convert_to_gear_id(&s.id));
    push_u32_le(out, convert_opt_id(&s.glamour_id));
    push_u32_le(out, s.unknown1);
    push_u32_le(out, s.unknown2);
    push_u32_le(out, s.unknown3);
    push_u32_le(out, s.unknown4);
    push_u32_le(out, s.unknown5);
    assert(final(out)@ =~= old(out)@ + slot_bytes(*s));
}

/// Appends the stored form of the slots of a gear set: each of its first fourteen, empty
/// slots for the others.
fn convert_to_slots(out: &mut Vec<u8>, slots: &Vec<Option<GearSlot>>)
    ensures
        final(out)@ == old(out)@ + slots_bytes(slots@, NUMBER_OF_GEARSLOTS as nat),
{
    let mut k: usize = 0;
    while k < NUMBER_OF_GEARSLOTS
        invariant
            k <= NUMBER_OF_GEARSLOTS,
            out@ == old(out)@ + slots_bytes(slots@, k as nat),
        decreases NUMBER_OF_GEARSLOTS - k,
    {
        let slot = if k < slots.len() {
            match slots[k] {
                Some(s) => s,
                None => GearSlot::default(),
            }
        } else {
            GearSlot::default()
        };
        write_slot(out, &slot);
        k = k + 1;
        assert(out@ =~= old(out)@ + slots_bytes(slots@, k as nat));
    }
}

/// Appends the stored form of a name.
fn write_name_field(out: &mut Vec<u8>, name: &String)
    ensures
        final(out)@ == old(out)@ + name_field_bytes(name@),
{
    let bytes = name.as_str().as_bytes();
    push_bytes(out, bytes);
    out.push(0u8);
    if bytes.len() < NAME_FIELD_SIZE - 1 {
        push_zeros(out, NAME_FIELD_SIZE - 1 - bytes.len());
    }
    assert(final(out)@ =~= old(out)@ + name_field_bytes(name@));
}

/// Appends the stored form of a gear set.
fn write_gear_set(out: &mut Vec<u8>, g: &GearSet)
    ensures
        final(out)@ == old(out)@ + gear_set_bytes(g@),
{
    out.push(g.index);
    write_name_field(out, &g.name);
    push_u64_le(out, g.unknown1);
    convert_to_slots(out, &g.slots);
    push_u32_le(out, convert_opt_id(&g.facewear));
    assert(final(out)@ =~= old(out)@ + gear_set_bytes(g@));
}

/// Appends the stored form of an unnamed gear set with empty slots.
fn write_empty_gear_set(out: &mut Vec<u8>)
    ensures
        final(out)@ == old(out)@ + gear_set_bytes(empty_gear_set()),
{
    let g = GearSet {
        index: 0,
        name: String::new(),
        unknown1: 0,
        slots: Vec::new(),
        facewear: None,
    };
    write_gear_set(out, &g);
    assert(g@.slots =~= empty_gear_set().slots);
    assert(g@.name =~= empty_gear_set().name);
}

/// Appends the stored form of the gear sets: each of the first hundred, unnamed ones for the
/// others.
fn convert_to_gearsets(out: &mut Vec<u8>, sets: &Vec<Option<GearSet>>)
    ensures
        final(out)@ == old(out)@ + gear_sets_bytes(gear_set_views(sets@), NUMBER_OF_GEARSETS as nat),
{
    let mut k: usize = 0;
    while k < NUMBER_OF_GEARSETS
        invariant
            k <= NUMBER_OF_GEARSETS,
            out@ == old(out)@ + gear_sets_bytes(gear_set_views(sets@), k as nat),
        decreases NUMBER_OF_GEARSETS - k,
    {
        if k < sets.len() {
            match &sets[k] {
                Some(g) => write_gear_set(out, g),
                None => write_empty_gear_set(out),
            }
        } else {
            write_empty_gear_set(out);
        }
        k = k + 1;
        assert(out@ =~= old(out)@ + gear_sets_bytes(gear_set_views(sets@), k as nat));
    }
}

impl GearSets {
    /// Reads an existing file: its header, then as many bytes as its content size less one,
    /// unmasked; `None` where the file holds no gear sets.
    pub fn from_existing(buffer: &[u8]) -> (r: Option<GearSets>)
        requires
            gear_set_file_readable(buffer@),
            buffer@.len() <= isize::MAX,
        ensures
            r is Some <==> gear_sets_file(buffer@) is Some,
            r matches Some(g) ==> gear_sets_file(buffer@) == Some(g@),
    {
        let header = match DatHeader::read(buffer) {
            Some(h) => h,
            None => return None,
        };
        let size = (header.content_size - 1) as usize;
        if buffer.len() - DAT_HEADER_SIZE < size {
            return None;
        }
        let mut content: Vec<u8> = Vec::new();
        let mut k: usize = 0;
        while k < size
            invariant
                k <= size,
                buffer@.len() <= usize::MAX,
                DAT_HEADER_SIZE + size <= buffer@.len(),
                content@ == buffer@.subrange(DAT_HEADER_SIZE as int, DAT_HEADER_SIZE + k),
            decreases size - k,
        {
            content.push(buffer[DAT_HEADER_SIZE + k]);
            k = k + 1;
            assert(content@ =~= buffer@.subrange(DAT_HEADER_SIZE as int, DAT_HEADER_SIZE + k));
        }
        let decoded = mask(content.as_slice());
        read_gear_sets(decoded.as_slice())
    }

    /// Writes the gear sets to a file: a header whose sizes are those of a gear set file,
    /// then the stored gear sets, masked.
    pub fn write_to_buffer(&self) -> (r: Option<Vec<u8>>)
        ensures
            r matches Some(b) && b@ == dat_header_bytes(gear_set_file_header()) + masked(
                gear_sets_content_bytes(self@),
            ),
    {
        let mut buffer: Vec<u8> = Vec::new();
        let header = DatHeader {
            file_type: DatFileType::Gearset,
            max_size: GEARSET_FILE_SIZE,
            content_size: GEARSET_FILE_SIZE,
        };
        header.write(&mut buffer);
        let mut content: Vec<u8> = Vec::new();
        content.push(self.unknown1);
        content.push(self.current_gearset);
        push_u16_le(&mut content, self.unknown3);
        convert_to_gearsets(&mut content, &self.gearsets);
        assert(content@ =~= gear_sets_content_bytes(self@));
        let masked_content = mask(content.as_slice());
        push_bytes(&mut buffer, masked_content.as_slice());
        Some(buffer)
    }
}

/// Whether a name fits its field with the zero byte that ends it: it holds no zero
/// character, and its UTF-8 text takes at most 46 bytes.
pub open spec fn name_fits(name: Seq<char>) -> bool {
    no_nul(name) && encode_utf8(name).len() < NAME_FIELD_SIZE
}

/// A slot as it reads back once written: the flag is kept out of its item ID, and a glamour
/// ID of zero is none.
pub open spec fn read_back_slot(s: GearSlot) -> GearSlot {
    GearSlot {
        id: from_gear_id(to_gear_id(s.id)),
        glamour_id: id_opt(opt_id(s.glamour_id)),
        ..s
    }
}

/// The slots of a gear set as they read back once written: the first fourteen, empty ones
/// (of item ID zero) as `None`.
pub open spec fn read_back_slots(slots: Seq<Option<GearSlot>>) -> Seq<Option<GearSlot>> {
    Seq::new(
        NUMBER_OF_GEARSLOTS as nat,
        |j: int|
            if read_back_slot(slot_to_store(slots, j)).id == 0 {
                None
            } else {
                Some(read_back_slot(slot_to_store(slots, j)))
            },
    )
}

/// A gear set as it reads back once written.
pub open spec fn read_back_set(g: GearSetView) -> GearSetView {
    GearSetView {
        slots: read_back_slots(g.slots),
        facewear: id_opt(opt_id(g.facewear)),
        ..g
    }
}

/// The gear sets as they read back once written: the first hundred, unnamed ones as `None`.
pub open spec fn read_back_sets(sets: Seq<Option<GearSetView>>) -> Seq<Option<GearSetView>> {
    Seq::new(
        NUMBER_OF_GEARSETS as nat,
        |k: int|
            if gear_set_to_store(sets, k).name.len() == 0 {
                None
            } else {
                Some(read_back_set(gear_set_to_store(sets, k)))
            },
    )
}

/// No byte of the UTF-8 text of a name without zero characters is zero.
proof fn lemma_utf8_no_zero_byte(name: Seq<char>)
    requires
        no_nul(name),
    ensures
        forall|j: int| 0 <= j < encode_utf8(name).len() ==> encode_utf8(name)[j] != 0,
    decreases name.len(),
{
    if name.len() > 0 {
        let rest = name.drop_first();
        assert(no_nul(rest));
        lemma_utf8_no_zero_byte(rest);
        let c = name[0] as u32;
        assert(name[0] != '\0');
        if c == 0 {
            vstd::utf8::char_u32_cast(name[0], c);
            assert((0u32 as char) == '\0');
        }
        assert(c != 0);
        let e = vstd::utf8::encode_scalar(c);
        assert forall|x: u8| #[trigger] (0x80u8 | x) != 0u8 by {
            assert((0x80u8 | x) != 0u8) by (bit_vector);
        }
        assert forall|x: u8| #[trigger] (0xC0u8 | x) != 0u8 by {
            assert((0xC0u8 | x) != 0u8) by (bit_vector);
        }
        assert forall|x: u8| #[trigger] (0xE0u8 | x) != 0u8 by {
            assert((0xE0u8 | x) != 0u8) by (bit_vector);
        }
        assert forall|x: u8| #[trigger] (0xF0u8 | x) != 0u8 by {
            assert((0xF0u8 | x) != 0u8) by (bit_vector);
        }
        assert(c <= 0x7F ==> (c & 0x7F) as u8 != 0) by (bit_vector)
            requires
                c != 0,
        ;
        assert(forall|j: int| 0 <= j < e.len() ==> e[j] != 0);
        assert(encode_utf8(name) == e + encode_utf8(rest));
        assert forall|j: int| 0 <= j < encode_utf8(name).len() implies encode_utf8(name)[j] != 0 by {
            if j < e.len() {
                assert(encode_utf8(name)[j] == e[j]);
            } else {
                assert(encode_utf8(name)[j] == encode_utf8(rest)[j - e.len()]);
            }
        }
    }
}

/// Where `d` holds `x + y` at `p`, it holds `x` at `p` and `y` right after.
proof fn lemma_split_at(d: Seq<u8>, p: int, x: Seq<u8>, y: Seq<u8>)
    requires
        0 <= p,
        p + x.len() + y.len() <= d.len(),
        d.subrange(p, p + x.len() + y.len()) == x + y,
    ensures
        d.subrange(p, p + x.len()) == x,
        d.subrange(p + x.len(), p + x.len() + y.len()) == y,
{
    assert forall|k: int| 0 <= k < x.len() implies d.subrange(p, p + x.len())[k] == x[k] by {
        assert(d.subrange(p, p + x.len() + y.len())[k] == (x + y)[k]);
    }
    assert forall|k: int| 0 <= k < y.len() implies d.subrange(p + x.len(), p + x.len() + y.len())[k]
        == y[k] by {
        assert(d.subrange(p, p + x.len() + y.len())[x.len() + k] == (x + y)[x.len() + k]);
        assert(d.subrange(p, p + x.len() + y.len())[x.len() + k] == d[p + x.len() + k]);
        assert(d.subrange(p + x.len(), p + x.len() + y.len())[k] == d[p + x.len() + k]);
    }
    assert(d.subrange(p, p + x.len()) =~= x);
    assert(d.subrange(p + x.len(), p + x.len() + y.len()) =~= y);
}

/// The first zero byte at or after `a` is at `z`, where `z` is zero and nothing before it.
proof fn lemma_first_zero_at(d: Seq<u8>, a: int, z: int)
    requires
        0 <= a <= z < d.len(),
        d[z] == 0,
        forall|j: int| a <= j < z ==> d[j] != 0,
    ensures
        first_zero(d, a) == Some(z),
    decreases z - a,
{
    if a < z {
        lemma_first_zero_at(d, a + 1, z);
    }
}

/// The stored slots take 28 bytes each, and slot `j` is at `28 * j`.
proof fn lemma_slots_bytes(slots: Seq<Option<GearSlot>>, n: nat, j: int)
    requires
        0 <= j < n,
    ensures
        slots_bytes(slots, n).len() == 28 * n,
        slots_bytes(slots, n).subrange(28 * j, 28 * j + 28) == slot_bytes(slot_to_store(slots, j)),
    decreases n,
{
    lemma_slots_len(slots, n);
    if j < n - 1 {
        lemma_slots_bytes(slots, (n - 1) as nat, j);
        assert(slots_bytes(slots, n).subrange(28 * j, 28 * j + 28) =~= slots_bytes(
            slots,
            (n - 1) as nat,
        ).subrange(28 * j, 28 * j + 28));
    } else {
        lemma_slots_len(slots, (n - 1) as nat);
        assert(slots_bytes(slots, n).subrange(28 * j, 28 * j + 28) =~= slot_bytes(
            slot_to_store(slots, j),
        ));
    }
}

/// The stored slots take 28 bytes each.
proof fn lemma_slots_len(slots: Seq<Option<GearSlot>>, n: nat)
    ensures
        slots_bytes(slots, n).len() == 28 * n,
    decreases n,
{
    if n > 0 {
        lemma_slots_len(slots, (n - 1) as nat);
    }
}

/// A slot read from where one was written reads back.
proof fn lemma_slot_read(d: Seq<u8>, p: int, s: GearSlot)
    requires
        0 <= p,
        p + 28 <= d.len(),
        d.subrange(p, p + 28) == slot_bytes(s),
    ensures
        slot_at(d, p) == read_back_slot(s),
{
    let w0 = u32_le_bytes(to_gear_id(s.id));
    let w1 = u32_le_bytes(opt_id(s.glamour_id));
    let w2 = u32_le_bytes(s.unknown1);
    let w3 = u32_le_bytes(s.unknown2);
    let w4 = u32_le_bytes(s.unknown3);
    let w5 = u32_le_bytes(s.unknown4);
    let w6 = u32_le_bytes(s.unknown5);
    lemma_split_at(d, p, w0 + w1 + w2 + w3 + w4 + w5, w6);
    lemma_split_at(d, p, w0 + w1 + w2 + w3 + w4, w5);
    lemma_split_at(d, p, w0 + w1 + w2 + w3, w4);
    lemma_split_at(d, p, w0 + w1 + w2, w3);
    lemma_split_at(d, p, w0 + w1, w2);
    lemma_split_at(d, p, w0, w1);
    crate::bytes::lemma_u32_le(to_gear_id(s.id));
    crate::bytes::lemma_u32_le(opt_id(s.glamour_id));
    crate::bytes::lemma_u32_le(s.unknown1);
    crate::bytes::lemma_u32_le(s.unknown2);
    crate::bytes::lemma_u32_le(s.unknown3);
    crate::bytes::lemma_u32_le(s.unknown4);
    crate::bytes::lemma_u32_le(s.unknown5);
    crate::bytes::lemma_read_at(d, p, w0);
    crate::bytes::lemma_read_at(d, p + 4, w1);
    crate::bytes::lemma_read_at(d, p + 8, w2);
    crate::bytes::lemma_read_at(d, p + 12, w3);
    crate::bytes::lemma_read_at(d, p + 16, w4);
    crate::bytes::lemma_read_at(d, p + 20, w5);
    crate::bytes::lemma_read_at(d, p + 24, w6);
}

/// The size of a stored gear set whose name fits: its index, its name field of 47 bytes,
/// eight bytes, fourteen slots of 28 bytes and the facewear's four.
#[verifier::inline]
pub open spec fn gear_set_size() -> int {
    452
}

/// A gear set read from where one was written reads back, where its name fits.
proof fn lemma_gear_set_read(d: Seq<u8>, i: int, g: GearSetView)
    requires
        0 <= i,
        i + gear_set_size() <= d.len(),
        d.subrange(i, i + gear_set_size()) == gear_set_bytes(g),
        name_fits(g.name),
    ensures
        gear_set_bytes(g).len() == gear_set_size(),
        gear_set_at(d, i) == Some((read_back_set(g), i + gear_set_size())),
{
    let enc = encode_utf8(g.name);
    let field = name_field_bytes(g.name);
    let z = i + 1 + enc.len();
    lemma_slots_len(g.slots, 14);
    assert(field.len() == NAME_FIELD_SIZE);
    let b = gear_set_bytes(g);
    assert(b.len() == gear_set_size());
    let head = seq![g.index];
    let number = u64_le_bytes(g.unknown1);
    let slots = slots_bytes(g.slots, NUMBER_OF_GEARSLOTS as nat);
    let facewear = u32_le_bytes(opt_id(g.facewear));
    crate::bytes::lemma_u64_le(g.unknown1);
    crate::bytes::lemma_u32_le(opt_id(g.facewear));
    lemma_split_at(d, i, head + field + number + slots, facewear);
    lemma_split_at(d, i, head + field + number, slots);
    lemma_split_at(d, i, head + field, number);
    lemma_split_at(d, i, head, field);
    let pad = Seq::new((NAME_FIELD_SIZE - (enc.len() + 1)) as nat, |k: int| 0u8);
    assert(field == enc.push(0u8) + pad);
    assert(enc.push(0u8) == enc + seq![0u8]);
    lemma_split_at(d, i + 1, enc.push(0u8), pad);
    lemma_split_at(d, i + 1, enc, seq![0u8]);
    // the name
    lemma_utf8_no_zero_byte(g.name);
    assert forall|j: int| i + 1 <= j < z implies d[j] != 0 by {
        assert(d.subrange(i + 1, z)[j - i - 1] == d[j]);
    }
    assert(d.subrange(z, z + 1)[0] == d[z]);
    lemma_first_zero_at(d, i + 1, z);
    vstd::utf8::encode_utf8_valid_utf8(g.name);
    vstd::utf8::encode_utf8_decode_utf8(g.name);
    assert(d.subrange(i, i + 1)[0] == d[i]);
    let field_end = i + 1 + NAME_FIELD_SIZE;
    // the number after the name
    crate::bytes::lemma_read_at(d, field_end, number);
    // the slots
    let slots_start = field_end + 8;
    assert forall|j: int| 0 <= j < 14 implies slot_at(d, slots_start + 28 * j) == read_back_slot(
        slot_to_store(g.slots, j),
    ) by {
        lemma_slots_bytes(g.slots, 14, j);
        let window = d.subrange(slots_start + 28 * j, slots_start + 28 * j + 28);
        let want = slots.subrange(28 * j, 28 * j + 28);
        assert forall|k: int| 0 <= k < 28 implies #[trigger] window[k] == want[k] by {
            assert(d.subrange(slots_start, slots_start + 392)[28 * j + k] == slots[28 * j + k]);
        }
        assert(window =~= want);
        lemma_slot_read(d, slots_start + 28 * j, slot_to_store(g.slots, j));
    }
    assert(slots_at(d, slots_start) =~= read_back_slots(g.slots));
    // the facewear
    let facewear_at = slots_start + 28 * 14;
    crate::bytes::lemma_read_at(d, facewear_at, facewear);
}

/// A stored gear set whose name fits takes `gear_set_size()` bytes.
proof fn lemma_gear_set_len(g: GearSetView)
    requires
        name_fits(g.name),
    ensures
        gear_set_bytes(g).len() == gear_set_size(),
{
    lemma_slots_len(g.slots, 14);
}

/// The stored gear sets, where the names fit, take `gear_set_size()` bytes each, gear set
/// `k` at `k` times that.
proof fn lemma_gear_sets_bytes(sets: Seq<Option<GearSetView>>, n: nat, k: int)
    requires
        0 <= k < n,
        forall|m: int| 0 <= m < n ==> name_fits(#[trigger] gear_set_to_store(sets, m).name),
    ensures
        gear_sets_bytes(sets, n).len() == gear_set_size() * n,
        gear_sets_bytes(sets, n).subrange(gear_set_size() * k, gear_set_size() * (k + 1))
            == gear_set_bytes(gear_set_to_store(sets, k)),
    decreases n,
{
    lemma_gear_sets_len(sets, n);
    lemma_gear_sets_len(sets, (n - 1) as nat);
    let before = gear_sets_bytes(sets, (n - 1) as nat);
    let last = gear_set_bytes(gear_set_to_store(sets, n - 1));
    lemma_gear_set_len(gear_set_to_store(sets, n - 1));
    if k < n - 1 {
        lemma_gear_sets_bytes(sets, (n - 1) as nat, k);
        assert(gear_sets_bytes(sets, n).subrange(gear_set_size() * k, gear_set_size() * (k + 1))
            =~= before.subrange(gear_set_size() * k, gear_set_size() * (k + 1)));
    } else {
        assert(gear_sets_bytes(sets, n).subrange(gear_set_size() * k, gear_set_size() * (k + 1))
            =~= last);
    }
}

/// The stored gear sets, where the names fit, take `gear_set_size()` bytes each.
proof fn lemma_gear_sets_len(sets: Seq<Option<GearSetView>>, n: nat)
    requires
        forall|m: int| 0 <= m < n ==> name_fits(#[trigger] gear_set_to_store(sets, m).name),
    ensures
        gear_sets_bytes(sets, n).len() == gear_set_size() * n,
    decreases n,
{
    if n > 0 {
        lemma_gear_sets_len(sets, (n - 1) as nat);
        lemma_gear_set_len(gear_set_to_store(sets, n - 1));
    }
}

/// The gear sets read from where they were written, from the `k`-th on, read back.
proof fn lemma_gear_sets_from(c: Seq<u8>, sets: Seq<Option<GearSetView>>, k: nat)
    requires
        k <= NUMBER_OF_GEARSETS,
        c.len() == 4 + gear_set_size() * NUMBER_OF_GEARSETS,
        forall|m: int|
            0 <= m < NUMBER_OF_GEARSETS ==> name_fits(#[trigger] gear_set_to_store(sets, m).name),
        c.subrange(4, c.len() as int) == gear_sets_bytes(sets, NUMBER_OF_GEARSETS as nat),
    ensures
        gear_sets_from(c, 4 + gear_set_size() * k, (NUMBER_OF_GEARSETS - k) as nat) == Some(
            read_back_sets(sets).subrange(k as int, NUMBER_OF_GEARSETS as int),
        ),
    decreases NUMBER_OF_GEARSETS - k,
{
    if k < NUMBER_OF_GEARSETS {
        lemma_gear_sets_from(c, sets, k + 1);
        let g = gear_set_to_store(sets, k as int);
        let at = 4 + gear_set_size() * k;
        lemma_gear_sets_bytes(sets, NUMBER_OF_GEARSETS as nat, k as int);
        let all = gear_sets_bytes(sets, NUMBER_OF_GEARSETS as nat);
        let window = c.subrange(at, at + gear_set_size());
        let want = all.subrange(gear_set_size() * k, gear_set_size() * (k + 1));
        assert forall|j: int| 0 <= j < gear_set_size() implies #[trigger] window[j] == want[j] by {
            assert(c.subrange(4, c.len() as int)[gear_set_size() * k + j] == c[at + j]);
        }
        assert(window =~= want);
        lemma_gear_set_read(c, at, g);
        assert(read_back_sets(sets).subrange(k as int, NUMBER_OF_GEARSETS as int) =~= seq![
            read_back_sets(sets)[k as int],
        ] + read_back_sets(sets).subrange((k + 1) as int, NUMBER_OF_GEARSETS as int));
    } else {
        assert(read_back_sets(sets).subrange(k as int, NUMBER_OF_GEARSETS as int) =~= seq![]);
    }
}

/// Masking twice gives the bytes back.
proof fn lemma_masked_twice(b: Seq<u8>)
    ensures
        masked(masked(b)) == b,
{
    assert forall|k: int| 0 <= k < b.len() implies #[trigger] masked(masked(b))[k] == b[k] by {
        let x = b[k];
        assert((x ^ GEARSET_KEY) ^ GEARSET_KEY == x) by (bit_vector);
    }
    assert(masked(masked(b)) =~= b);
}

/// Gear sets read back from the file written for them are the same, but that only the
/// first hundred are kept, unnamed ones and empty slots (of item ID zero) as `None`, the
/// flag is kept out of item IDs, and zero IDs are none; where the names fit their fields.
pub proof fn law_gear_sets_round_trip(g: GearSetsView)
    requires
        forall|k: int|
            0 <= k < NUMBER_OF_GEARSETS ==> name_fits(
                #[trigger] gear_set_to_store(g.gearsets, k).name,
            ),
    ensures
        gear_set_file_readable(
            dat_header_bytes(gear_set_file_header()) + masked(gear_sets_content_bytes(g)),
        ),
        gear_sets_file(
            dat_header_bytes(gear_set_file_header()) + masked(gear_sets_content_bytes(g)),
        ) == Some(GearSetsView { gearsets: read_back_sets(g.gearsets), ..g }),
{
    let h = gear_set_file_header();
    let hb = dat_header_bytes(h);
    let c = gear_sets_content_bytes(g);
    let file = hb + masked(c);
    let sets_bytes = gear_sets_bytes(g.gearsets, NUMBER_OF_GEARSETS as nat);
    lemma_gear_sets_len(g.gearsets, NUMBER_OF_GEARSETS as nat);
    assert(c.len() == 4 + gear_set_size() * NUMBER_OF_GEARSETS);
    // the header
    crate::savedata::dat::law_dat_header_round_trip(h);
    assert(file.subrange(0, 17) =~= hb);
    crate::bytes::lemma_read_at(file, 0, hb);
    assert(hb.subrange(4, 17) =~= file.subrange(4, 17));
    crate::bytes::lemma_read_at(file, 4, hb.subrange(4, 17));
    crate::bytes::lemma_read_at(hb, 4, hb.subrange(4, 17));
    assert(hb.subrange(8, 17) =~= file.subrange(8, 17));
    crate::bytes::lemma_read_at(file, 8, hb.subrange(8, 17));
    crate::bytes::lemma_read_at(hb, 8, hb.subrange(8, 17));
    assert(dat_header_of(file) == Some(h));
    // the content
    assert(file.subrange(17, 17 + 45205 - 1) =~= masked(c));
    lemma_masked_twice(c);
    crate::bytes::lemma_u16_le(g.unknown3);
    assert(c.subrange(2, 4) =~= u16_le_bytes(g.unknown3));
    crate::bytes::lemma_read_at(c, 2, u16_le_bytes(g.unknown3));
    assert(c.subrange(4, c.len() as int) =~= sets_bytes);
    lemma_gear_sets_from(c, g.gearsets, 0);
    assert(read_back_sets(g.gearsets).subrange(0, NUMBER_OF_GEARSETS as int) =~= read_back_sets(
        g.gearsets,
    ));
}

} // verus!
