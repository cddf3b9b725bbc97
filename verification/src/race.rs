//! Playable races, tribes and genders.
use vstd::prelude::*;
use crate::decimal::{all_digits, dec_value, fmt_nat, is_digit, lemma_fmt_nat, push_nat};
use crate::text::{chars_of, push_str, string_from_chars};
use crate::Error;

verus! {

/// The playable genders in the game.
#[derive(PartialEq, Eq, Structural, Clone, Copy, Debug)]
pub enum Gender {
    Male,
    Female,
}

/// The playable tribes in the game.
/// Each race has two similar-looking tribes, with the exception of Highlander Hyur which are
/// visually distinct.
#[derive(PartialEq, Eq, Structural, Clone, Copy, Debug)]
pub enum Tribe {
    Midlander,
    Highlander,
    Wildwood,
    Duskwight,
    Plainsfolk,
    Dunesfolk,
    Seeker,
    Keeper,
    SeaWolf,
    Hellsguard,
    Raen,
    Xaela,
    Hellion,
    Lost,
    Rava,
    Veena,
}

/// The playable races in the game.
#[derive(PartialEq, Eq, Structural, Clone, Copy, Debug)]
pub enum Race {
    Hyur,
    Elezen,
    Lalafell,
    Miqote,
    Roegadyn,
    AuRa,
    Hrothgar,
    Viera,
}

impl Gender {
    /// The number that stands for the gender in game files.
    pub open spec fn spec_number(self) -> u8 {
        match self {
            Gender::Male => 0,
            Gender::Female => 1,
        }
    }

    /// The number that stands for the gender in game files.
    pub fn number(&self) -> (r: u8)
        ensures
            r == self.spec_number(),
    {
        match self {
            Gender::Male => 0,
            Gender::Female => 1,
        }
    }

    /// Reads a gender from its number.
    pub fn try_from(value: u8) -> (r: Result<Gender, Error>)
        ensures
            r matches Ok(g) ==> g.spec_number() == value,
            r is Err <==> value > 1,
            r matches Err(e) ==> e == Error::Unknown,
    {
        match value {
            0 => Ok(Gender::Male),
            1 => Ok(Gender::Female),
            _ => Err(Error::Unknown),
        }
    }
}

impl Tribe {
    /// The number that stands for the tribe in game files.
    pub open spec fn spec_number(self) -> u8 {
        match self {
            Tribe::Midlander => 1,
            Tribe::Highlander => 2,
            Tribe::Wildwood => 3,
            Tribe::Duskwight => 4,
            Tribe::Plainsfolk => 5,
            Tribe::Dunesfolk => 6,
            Tribe::Seeker => 7,
            Tribe::Keeper => 8,
            Tribe::SeaWolf => 9,
            Tribe::Hellsguard => 10,
            Tribe::Raen => 11,
            Tribe::Xaela => 12,
            Tribe::Hellion => 13,
            Tribe::Lost => 14,
            Tribe::Rava => 15,
            Tribe::Veena => 16,
        }
    }

    /// The number that stands for the tribe in game files.
    pub fn number(&self) -> (r: u8)
        ensures
            r == self.spec_number(),
    {
        match self {
            Tribe::Midlander => 1,
            Tribe::Highlander => 2,
            Tribe::Wildwood => 3,
            Tribe::Duskwight => 4,
            Tribe::Plainsfolk => 5,
            Tribe::Dunesfolk => 6,
            Tribe::Seeker => 7,
            Tribe::Keeper => 8,
            Tribe::SeaWolf => 9,
            Tribe::Hellsguard => 10,
            Tribe::Raen => 11,
            Tribe::Xaela => 12,
            Tribe::Hellion => 13,
            Tribe::Lost => 14,
            Tribe::Rava => 15,
            Tribe::Veena => 16,
        }
    }

    /// Reads a tribe from its number.
    pub fn try_from(value: u8) -> (r: Result<Tribe, Error>)
        ensures
            r matches Ok(t) ==> t.spec_number() == value,
            r is Err <==> (value == 0 || value > 16),
            r matches Err(e) ==> e == Error::Unknown,
    {
        match value {
            1 => Ok(Tribe::Midlander),
            2 => Ok(Tribe::Highlander),
            3 => Ok(Tribe::Wildwood),
            4 => Ok(Tribe::Duskwight),
            5 => Ok(Tribe::Plainsfolk),
            6 => Ok(Tribe::Dunesfolk),
            7 => Ok(Tribe::Seeker),
            8 => Ok(Tribe::Keeper),
            9 => Ok(Tribe::SeaWolf),
            10 => Ok(Tribe::Hellsguard),
            11 => Ok(Tribe::Raen),
            12 => Ok(Tribe::Xaela),
            13 => Ok(Tribe::Hellion),
            14 => Ok(Tribe::Lost),
            15 => Ok(Tribe::Rava),
            16 => Ok(Tribe::Veena),
            _ => Err(Error::Unknown),
        }
    }
}

impl Race {
    /// The number that stands for the race in game files.
    pub open spec fn spec_number(self) -> u8 {
        match self {
            Race::Hyur => 1,
            Race::Elezen => 2,
            Race::Lalafell => 3,
            Race::Miqote => 4,
            Race::Roegadyn => 5,
            Race::AuRa => 6,
            Race::Hrothgar => 7,
            Race::Viera => 8,
        }
    }

    /// The number that stands for the race in game files.
    pub fn number(&self) -> (r: u8)
        ensures
            r == self.spec_number(),
    {
        match self {
            Race::Hyur => 1,
            Race::Elezen => 2,
            Race::Lalafell => 3,
            Race::Miqote => 4,
            Race::Roegadyn => 5,
            Race::AuRa => 6,
            Race::Hrothgar => 7,
            Race::Viera => 8,
        }
    }

    /// Reads a race from its number.
    pub fn try_from(value: u8) -> (r: Result<Race, Error>)
        ensures
            r matches Ok(race) ==> race.spec_number() == value,
            r is Err <==> (value == 0 || value > 8),
            r matches Err(e) ==> e == Error::Unknown,
    {
        match value {
            1 => Ok(Race::Hyur),
            2 => Ok(Race::Elezen),
            3 => Ok(Race::Lalafell),
            4 => Ok(Race::Miqote),
            5 => Ok(Race::Roegadyn),
            6 => Ok(Race::AuRa),
            7 => Ok(Race::Hrothgar),
            8 => Ok(Race::Viera),
            _ => Err(Error::Unknown),
        }
    }
}

/// The two tribes of a race.
pub open spec fn supported_tribes(race: Race) -> (Tribe, Tribe) {
    match race {
        Race::Hyur => (Tribe::Midlander, Tribe::Highlander),
        Race::Elezen => (Tribe::Wildwood, Tribe::Duskwight),
        Race::Lalafell => (Tribe::Plainsfolk, Tribe::Dunesfolk),
        Race::Miqote => (Tribe::Seeker, Tribe::Keeper),
        Race::Roegadyn => (Tribe::SeaWolf, Tribe::Hellsguard),
        Race::AuRa => (Tribe::Raen, Tribe::Xaela),
        Race::Hrothgar => (Tribe::Hellion, Tribe::Lost),
        Race::Viera => (Tribe::Rava, Tribe::Veena),
    }
}

/// The race identifier of a race, tribe and gender, for supported tribes of the race.
pub open spec fn race_id(race: Race, tribe: Tribe, gender: Gender) -> Option<i32> {
    let tribes = supported_tribes(race);
    if tribe != tribes.0 && tribe != tribes.1 {
        None
    } else {
        let male = gender == Gender::Male;
        match race {
            Race::Hyur => if tribe == Tribe::Midlander {
                Some(if male { 101i32 } else { 201i32 })
            } else {
                Some(if male { 301i32 } else { 401i32 })
            },
            Race::Elezen => Some(if male { 501i32 } else { 601i32 }),
            Race::Lalafell => Some(if male { 1101i32 } else { 1201i32 }),
            Race::Miqote => Some(if male { 701i32 } else { 801i32 }),
            Race::Roegadyn => Some(if male { 901i32 } else { 1001i32 }),
            Race::AuRa => Some(if male { 1301i32 } else { 1401i32 }),
            Race::Hrothgar => Some(if male { 1501i32 } else { 1601i32 }),
            Race::Viera => Some(if male { 1701i32 } else { 1801i32 }),
        }
    }
}

/// The game's race identifiers: for each race the male identifier of its tribes (the Hyur
/// have one for each tribe), and the female identifier is always the male one plus 100; a
/// tribe of another race has none.
pub proof fn law_race_ids(race: Race, tribe: Tribe)
    ensures
        race_id(Race::Hyur, Tribe::Midlander, Gender::Male) == Some(101i32),
        race_id(Race::Hyur, Tribe::Highlander, Gender::Male) == Some(301i32),
        tribe == Tribe::Wildwood || tribe == Tribe::Duskwight ==> race_id(Race::Elezen, tribe, Gender::Male)
            == Some(501i32),
        tribe == Tribe::Plainsfolk || tribe == Tribe::Dunesfolk ==> race_id(
            Race::Lalafell,
            tribe,
            Gender::Male,
        ) == Some(1101i32),
        tribe == Tribe::Seeker || tribe == Tribe::Keeper ==> race_id(Race::Miqote, tribe, Gender::Male)
            == Some(701i32),
        tribe == Tribe::SeaWolf || tribe == Tribe::Hellsguard ==> race_id(Race::Roegadyn, tribe, Gender::Male)
            == Some(901i32),
        tribe == Tribe::Raen || tribe == Tribe::Xaela ==> race_id(Race::AuRa, tribe, Gender::Male)
            == Some(1301i32),
        tribe == Tribe::Hellion || tribe == Tribe::Lost ==> race_id(Race::Hrothgar, tribe, Gender::Male)
            == Some(1501i32),
        tribe == Tribe::Rava || tribe == Tribe::Veena ==> race_id(Race::Viera, tribe, Gender::Male)
            == Some(1701i32),
        race_id(race, tribe, Gender::Male) matches Some(male) ==> race_id(race, tribe, Gender::Female)
            == Some((male + 100) as i32),
        race_id(race, tribe, Gender::Male) is None <==> race_id(race, tribe, Gender::Female) is None,
{
}

/// Returns the two tribes associated with a given `race`. For example, `Hyur` gives
/// `[Midlander, Highlander]`.
pub fn get_supported_tribes(race: Race) -> (r: [Tribe; 2])
    ensures
        r@ == seq![supported_tribes(race).0, supported_tribes(race).1],
{
    let r = match race {
        Race::Hyur => [Tribe::Midlander, Tribe::Highlander],
        Race::Elezen => [Tribe::Wildwood, Tribe::Duskwight],
        Race::Lalafell => [Tribe::Plainsfolk, Tribe::Dunesfolk],
        Race::Miqote => [Tribe::Seeker, Tribe::Keeper],
        Race::Roegadyn => [Tribe::SeaWolf, Tribe::Hellsguard],
        Race::AuRa => [Tribe::Raen, Tribe::Xaela],
        Race::Hrothgar => [Tribe::Hellion, Tribe::Lost],
        Race::Viera => [Tribe::Rava, Tribe::Veena],
    };
    assert(r@ =~= seq![supported_tribes(race).0, supported_tribes(race).1]);
    r
}

/// Gets a race identifier (such as 101, for Hyur-Midlander-Males) given a race, a tribe, and
/// a gender; `None` when the tribe does not belong to the race.
pub fn get_race_id(race: Race, tribe: Tribe, gender: Gender) -> (r: Option<i32>)
    ensures
        r == race_id(race, tribe, gender),
        r is Some <==> (tribe == supported_tribes(race).0 || tribe == supported_tribes(race).1),
{
    let tribes = get_supported_tribes(race);
    if tribe != tribes[0] && tribe != tribes[1] {
        return None;
    }
    let male = gender == Gender::Male;
    match race {
        Race::Hyur => match tribe {
            Tribe::Midlander => Some(if male { 101 } else { 201 }),
            _ => Some(if male { 301 } else { 401 }),
        },
        Race::Elezen => Some(if male { 501 } else { 601 }),
        Race::Lalafell => Some(if male { 1101 } else { 1201 }),
        Race::Miqote => Some(if male { 701 } else { 801 }),
        Race::Roegadyn => Some(if male { 901 } else { 1001 }),
        Race::AuRa => Some(if male { 1301 } else { 1401 }),
        Race::Hrothgar => Some(if male { 1501 } else { 1601 }),
        Race::Viera => Some(if male { 1701 } else { 1801 }),
    }
}

/// `n` in decimal, padded with leading zeros to at least four digits.
pub open spec fn pad4(n: nat) -> Seq<char> {
    let d = fmt_nat(n);
    if d.len() < 4 {
        Seq::new((4 - d.len()) as nat, |i: int| '0') + d
    } else {
        d
    }
}

/// The path of the skeleton file of a race identifier.
pub open spec fn skeleton_path(id: nat) -> Seq<char> {
    "chara/human/c"@ + pad4(id) + "/skeleton/base/b0001/skl_c"@ + pad4(id) + "b0001.sklb"@
}

proof fn lemma_fmt_nat_short(n: nat, k: nat)
    requires
        1 <= k,
        n < vstd::arithmetic::power::pow(10, k),
    ensures
        fmt_nat(n).len() <= k,
    decreases k,
{
    vstd::arithmetic::power::lemma_pow_positive(10, k);
    if n >= 10 {
        vstd::arithmetic::power::lemma_pow_adds(10, 1, (k - 1) as nat);
        vstd::arithmetic::power::lemma_pow1(10);
        if k == 1 {
            assert(false);
        } else {
            assert(n / 10 < vstd::arithmetic::power::pow(10, (k - 1) as nat)) by (nonlinear_arith)
                requires
                    n < 10 * vstd::arithmetic::power::pow(10, (k - 1) as nat),
            ;
            lemma_fmt_nat_short(n / 10, (k - 1) as nat);
        }
    }
}

proof fn lemma_zero_prefix(z: nat, d: Seq<char>)
    ensures
        dec_value(Seq::new(z, |i: int| '0') + d) == dec_value(d),
    decreases d.len(),
{
    let zs = Seq::new(z, |i: int| '0');
    if d.len() == 0 {
        assert(zs + d =~= zs);
        lemma_zeros_value(z);
    } else {
        lemma_zero_prefix(z, d.drop_last());
        assert((zs + d).drop_last() =~= zs + d.drop_last());
    }
}

proof fn lemma_zeros_value(z: nat)
    ensures
        dec_value(Seq::new(z, |i: int| '0')) == 0,
    decreases z,
{
    if z > 0 {
        lemma_zeros_value((z - 1) as nat);
        assert(Seq::new(z, |i: int| '0').drop_last() =~= Seq::new((z - 1) as nat, |i: int| '0'));
    }
}

/// A number below 10000 padded to four digits is four decimal digits that read back as it.
pub proof fn law_pad4(n: nat)
    requires
        n < 10000,
    ensures
        pad4(n).len() == 4,
        all_digits(pad4(n)),
        dec_value(pad4(n)) == n,
{
    lemma_fmt_nat(n);
    vstd::arithmetic::power::lemma_pow_adds(10, 2, 2);
    assert(vstd::arithmetic::power::pow(10, 4) == 10000) by {
        reveal_with_fuel(vstd::arithmetic::power::pow, 5);
    }
    lemma_fmt_nat_short(n, 4);
    let d = fmt_nat(n);
    if d.len() < 4 {
        lemma_zero_prefix((4 - d.len()) as nat, d);
        let p = pad4(n);
        assert forall|i: int| 0 <= i < p.len() implies is_digit(#[trigger] p[i]) by {
            if i >= 4 - d.len() {
                assert(p[i] == d[i - (4 - d.len())]);
            }
        }
    }
}

/// The skeleton of a race identifier below 10000 lies under `chara/human/c` and the
/// identifier in four digits, in `skeleton/base/b0001`, in the file named `skl_c`, the
/// identifier in four digits again, then `b0001.sklb`.
pub proof fn law_skeleton_path(id: nat)
    requires
        id < 10000,
    ensures
        skeleton_path(id).len() == 57,
        skeleton_path(id).subrange(0, 13) == "chara/human/c"@,
        all_digits(skeleton_path(id).subrange(13, 17)),
        dec_value(skeleton_path(id).subrange(13, 17)) == id,
        skeleton_path(id).subrange(17, 43) == "/skeleton/base/b0001/skl_c"@,
        all_digits(skeleton_path(id).subrange(43, 47)),
        dec_value(skeleton_path(id).subrange(43, 47)) == id,
        skeleton_path(id).subrange(47, 57) == "b0001.sklb"@,
{
    law_pad4(id);
    reveal_strlit("chara/human/c");
    reveal_strlit("/skeleton/base/b0001/skl_c");
    reveal_strlit("b0001.sklb");
    let p = skeleton_path(id);
    assert(p.subrange(0, 13) =~= "chara/human/c"@);
    assert(p.subrange(13, 17) =~= pad4(id));
    assert(p.subrange(17, 43) =~= "/skeleton/base/b0001/skl_c"@);
    assert(p.subrange(43, 47) =~= pad4(id));
    assert(p.subrange(47, 57) =~= "b0001.sklb"@);
}

/// The two tribes of each race.
pub proof fn law_supported_tribes(race: Race)
    ensures
        supported_tribes(Race::Hyur) == (Tribe::Midlander, Tribe::Highlander),
        supported_tribes(Race::Elezen) == (Tribe::Wildwood, Tribe::Duskwight),
        supported_tribes(Race::Lalafell) == (Tribe::Plainsfolk, Tribe::Dunesfolk),
        supported_tribes(Race::Miqote) == (Tribe::Seeker, Tribe::Keeper),
        supported_tribes(Race::Roegadyn) == (Tribe::SeaWolf, Tribe::Hellsguard),
        supported_tribes(Race::AuRa) == (Tribe::Raen, Tribe::Xaela),
        supported_tribes(Race::Hrothgar) == (Tribe::Hellion, Tribe::Lost),
        supported_tribes(Race::Viera) == (Tribe::Rava, Tribe::Veena),
        supported_tribes(race).0 != supported_tribes(race).1,
{
}

/// Appends `n` in decimal, padded with leading zeros to at least four digits.
fn push_pad4(out: &mut Vec<char>, n: u64)
    ensures
        final(out)@ == old(out)@ + pad4(n as nat),
{
    let mut digits: Vec<char> = Vec::new();
    push_nat(&mut digits, n);
    assert(digits@ =~= fmt_nat(n as nat));
    let len = digits.len();
    let mut k = len;
    let ghost before = out@;
    assert(out@ =~= before + Seq::new((k - len) as nat, |i: int| '0'));
    while k < 4
        invariant
            len <= k,
            len < 4 ==> k <= 4,
            len >= 4 ==> k == len,
            len == digits@.len(),
            out@ == before + Seq::new((k - len) as nat, |i: int| '0'),
        decreases 4 - k,
    {
        out.push('0');
        k = k + 1;
        assert(out@ =~= before + Seq::new((k - len) as nat, |i: int| '0'));
    }
    out.append(&mut digits);
    proof {
        if fmt_nat(n as nat).len() >= 4 {
            assert(out@ =~= before + fmt_nat(n as nat));
        } else {
            assert(out@ =~= before + pad4(n as nat));
        }
    }
}


/// Builds the path to the skeleton (sklb) file for a given `race`, `tribe` and `gender`.
pub fn build_skeleton_path(race: Race, tribe: Tribe, gender: Gender) -> (r: String)
    requires
        race_id(race, tribe, gender) is Some,
    ensures
        r@ == skeleton_path(race_id(race, tribe, gender)->0 as nat),
{
    let id = get_race_id(race, tribe, gender).unwrap();
    let mut out: Vec<char> = Vec::new();
    push_str(&mut out, "chara/human/c");
    push_pad4(&mut out, id as u64);
    push_str(&mut out, "/skeleton/base/b0001/skl_c");
    push_pad4(&mut out, id as u64);
    push_str(&mut out, "b0001.sklb");
    string_from_chars(&out)
}

} // verus!
