//! Character data files (`FFXIV_CHARA_XX.DAT`), which the character creator uses to save
//! presets.
use vstd::prelude::*;
use crate::bytes::{push_bytes, push_u32_le, push_zeros, read_u32_le, u32_le, u32_le_bytes};
use crate::race::{Gender, Race, Tribe};
use vstd::string::StringSliceAdditionalSpecFns;
use vstd::utf8::{decode_utf8, encode_utf8, valid_utf8};
use crate::text::{text_from_bytes_lossy, trim_nul_chars, trim_nul_end, trim_nul_start};

verus! {

/// The number that marks a character data file.
pub const CHARACTER_DATA_MAGIC: u32 = 0x2013FF14;

/// The room the comment has, in bytes.
pub const MAX_COMMENT_LENGTH: usize = 164;

/// How many bytes stored customize data take.
pub const CUSTOMIZE_SIZE: usize = 27;

/// How many bytes a character data file takes.
pub const CHARACTER_DATA_SIZE: usize = 212;

/// Where the customize data starts in a file.
pub const CUSTOMIZE_OFFSET: usize = 16;

/// Where the comment starts in a file.
pub const COMMENT_OFFSET: usize = 48;

/// The looks of a character.
#[derive(Clone, Copy, Debug, PartialEq, Eq, Structural)]
pub struct CustomizeData {
    /// The race of the character.
    pub race: Race,
    /// The gender of the character.
    pub gender: Gender,
    /// The age of the character. Normal = 1, Old = 3, Young = 4.
    pub age: u8,
    /// The height of the character from 0 to 100.
    pub height: u8,
    /// The character's tribe.
    pub tribe: Tribe,
    /// The character's selected face.
    pub face: u8,
    /// The character's selected hair.
    pub hair: u8,
    /// If hair highlights are enabled for this character.
    pub enable_highlights: bool,
    /// The character's skin tone.
    pub skin_tone: u8,
    /// The character's right eye color.
    pub right_eye_color: u8,
    /// The character's hair color.
    pub hair_tone: u8,
    /// The color of the hair highlights.
    pub highlights: u8,
    /// The selected facial features.
    pub facial_features: u8,
    /// The color of the character's facial features.
    pub facial_feature_color: u8,
    /// The character's selected eyebrows.
    pub eyebrows: u8,
    /// The character's left eye color.
    pub left_eye_color: u8,
    /// The character's selected eyes; "Small Iris" adds 128.
    pub eyes: u8,
    /// The character's selected nose.
    pub nose: u8,
    /// The character's selected jaw.
    pub jaw: u8,
    /// The character's selected mouth.
    pub mouth: u8,
    /// The character's selected pattern.
    pub lips_tone_fur_pattern: u8,
    /// Depending on the race, the ear size, muscle size or tail size.
    pub race_feature_size: u8,
    /// Depending on the race, the selected tail or ears.
    pub race_feature_type: u8,
    /// The size of the character's bust from 0 to 100.
    pub bust: u8,
    /// The character's choice of face paint.
    pub face_paint: u8,
    /// The color of the face paint; "Light" adds 128.
    pub face_paint_color: u8,
    /// The character's chosen voice.
    pub voice: u8,
}

/// The looks a new character starts with: a young-adult male Midlander Hyur of middle height,
/// with the first choice of each feature.
pub open spec fn default_customize() -> CustomizeData {
    CustomizeData {
        race: Race::Hyur,
        tribe: Tribe::Midlander,
        gender: Gender::Male,
        age: 1,
        height: 50,
        face: 1,
        hair: 1,
        enable_highlights: false,
        skin_tone: 1,
        right_eye_color: 1,
        hair_tone: 1,
        highlights: 1,
        facial_features: 0,
        facial_feature_color: 1,
        eyebrows: 1,
        left_eye_color: 1,
        eyes: 1,
        nose: 1,
        jaw: 1,
        mouth: 1,
        lips_tone_fur_pattern: 0,
        race_feature_size: 0,
        race_feature_type: 0,
        bust: 0,
        face_paint: 0,
        face_paint_color: 1,
        voice: 1,
    }
}

impl Default for CustomizeData {
    /// The looks a new character starts with.
    fn default() -> (r: Self)
        ensures
            r == default_customize(),
    {
        CustomizeData {
            race: Race::Hyur,
            tribe: Tribe::Midlander,
            gender: Gender::Male,
            age: 1,
            height: 50,
            face: 1,
            hair: 1,
            enable_highlights: false,
            skin_tone: 1,
            right_eye_color: 1,
            hair_tone: 1,
            highlights: 1,
            facial_features: 0,
            facial_feature_color: 1,
            eyebrows: 1,
            left_eye_color: 1,
            eyes: 1,
            nose: 1,
            jaw: 1,
            mouth: 1,
            lips_tone_fur_pattern: 0,
            race_feature_size: 0,
            race_feature_type: 0,
            bust: 0,
            face_paint: 0,
            face_paint_color: 1,
            voice: 1,
        }
    }
}

/// The race a number stands for.
pub open spec fn race_of(n: u8) -> Option<Race> {
    if exists|r: Race| r.spec_number() == n {
        Some(choose|r: Race| r.spec_number() == n)
    } else {
        None
    }
}

/// The gender a number stands for.
pub open spec fn gender_of(n: u8) -> Option<Gender> {
    if exists|g: Gender| g.spec_number() == n {
        Some(choose|g: Gender| g.spec_number() == n)
    } else {
        None
    }
}

/// The tribe a number stands for.
pub open spec fn tribe_of(n: u8) -> Option<Tribe> {
    if exists|t: Tribe| t.spec_number() == n {
        Some(choose|t: Tribe| t.spec_number() == n)
    } else {
        None
    }
}

/// How customize data is stored: a byte each, in the order of the fields, a flag as 1 or 0.
pub open spec fn customize_bytes(c: CustomizeData) -> Seq<u8> {
    seq![
        c.race.spec_number(),
        c.gender.spec_number(),
        c.age,
        c.height,
        c.tribe.spec_number(),
        c.face,
        c.hair,
        if c.enable_highlights { 1u8 } else { 0u8 },
        c.skin_tone,
        c.right_eye_color,
        c.hair_tone,
        c.highlights,
        c.facial_features,
        c.facial_feature_color,
        c.eyebrows,
        c.left_eye_color,
        c.eyes,
        c.nose,
        c.jaw,
        c.mouth,
        c.lips_tone_fur_pattern,
        c.race_feature_size,
        c.race_feature_type,
        c.bust,
        c.face_paint,
        c.face_paint_color,
        c.voice,
    ]
}

/// The customize data stored at `i`: `None` where a race, gender or tribe number is not
/// known. A flag is set by any byte but zero.
pub open spec fn customize_at(b: Seq<u8>, i: int) -> Option<CustomizeData> {
    match (race_of(b[i]), gender_of(b[i + 1]), tribe_of(b[i + 4])) {
        (Some(race), Some(gender), Some(tribe)) => Some(
            CustomizeData {
                race,
                gender,
                age: b[i + 2],
                height: b[i + 3],
                tribe,
                face: b[i + 5],
                hair: b[i + 6],
                enable_highlights: b[i + 7] != 0,
                skin_tone: b[i + 8],
                right_eye_color: b[i + 9],
                hair_tone: b[i + 10],
                highlights: b[i + 11],
                facial_features: b[i + 12],
                facial_feature_color: b[i + 13],
                eyebrows: b[i + 14],
                left_eye_color: b[i + 15],
                eyes: b[i + 16],
                nose: b[i + 17],
                jaw: b[i + 18],
                mouth: b[i + 19],
                lips_tone_fur_pattern: b[i + 20],
                race_feature_size: b[i + 21],
                race_feature_type: b[i + 22],
                bust: b[i + 23],
                face_paint: b[i + 24],
                face_paint_color: b[i + 25],
                voice: b[i + 26],
            },
        ),
        _ => None,
    }
}

/// Reads the customize data stored at `i`.
fn read_customize(b: &[u8], i: usize) -> (r: Option<CustomizeData>)
    requires
        i + CUSTOMIZE_SIZE <= b@.len(),
    ensures
        r == customize_at(b@, i as int),
{
    let _len = b.len();
    let race = match Race::try_from(b[i]) {
        Ok(r) => r,
        Err(_) => return None,
    };
    let gender = match Gender::try_from(b[i + 1]) {
        Ok(g) => g,
        Err(_) => return None,
    };
    let tribe = match Tribe::try_from(b[i + 4]) {
        Ok(t) => t,
        Err(_) => return None,
    };
    Some(
        CustomizeData {
            race,
            gender,
            age: b[i + 2],
            height: b[i + 3],
            tribe,
            face: b[i + 5],
            hair: b[i + 6],
            enable_highlights: b[i + 7] != 0,
            skin_tone: b[i + 8],
            right_eye_color: b[i + 9],
            hair_tone: b[i + 10],
            highlights: b[i + 11],
            facial_features: b[i + 12],
            facial_feature_color: b[i + 13],
            eyebrows: b[i + 14],
            left_eye_color: b[i + 15],
            eyes: b[i + 16],
            nose: b[i + 17],
            jaw: b[i + 18],
            mouth: b[i + 19],
            lips_tone_fur_pattern: b[i + 20],
            race_feature_size: b[i + 21],
            race_feature_type: b[i + 22],
            bust: b[i + 23],
            face_paint: b[i + 24],
            face_paint_color: b[i + 25],
            voice: b[i + 26],
        },
    )
}

/// Appends the stored form of customize data.
fn write_customize(out: &mut Vec<u8>, c: &CustomizeData)
    ensures
        final(out)@ == old(out)@ + customize_bytes(*c),
{
    out.push(c.race.number());
    out.push(c.gender.number());
    out.push(c.age);
    out.push(c.height);
    out.push(c.tribe.number());
    out.push(c.face);
    out.push(c.hair);
    out.push(if c.enable_highlights { 1u8 } else { 0u8 });
    out.push(c.skin_tone);
    out.push(c.right_eye_color);
    out.push(c.hair_tone);
    out.push(c.highlights);
    out.push(c.facial_features);
    out.push(c.facial_feature_color);
    out.push(c.eyebrows);
    out.push(c.left_eye_color);
    out.push(c.eyes);
    out.push(c.nose);
    out.push(c.jaw);
    out.push(c.mouth);
    out.push(c.lips_tone_fur_pattern);
    out.push(c.race_feature_size);
    out.push(c.race_feature_type);
    out.push(c.bust);
    out.push(c.face_paint);
    out.push(c.face_paint_color);
    out.push(c.voice);
    assert(final(out)@ =~= old(out)@ + customize_bytes(*c));
}

/// The presets a character creator saves: the looks, when they were saved and a comment.
#[derive(Debug, Clone)]
pub struct CharacterData {
    /// The "version" of the game this was created with. Always corresponds to the released
    /// expansion at the time, e.g. A Realm Reborn character will have a version of 1.
    pub version: u32,
    /// The checksum of the data fields, as read.
    pub checksum: u32,
    /// The looks of the character.
    pub customize: CustomizeData,
    /// The timestamp when the preset was created, in seconds since the Unix epoch, UTC.
    pub timestamp: u32,
    /// The comment.
    pub comment: String,
}

/// Character data as plain values.
pub struct CharacterDataView {
    /// The version.
    pub version: u32,
    /// The checksum, as read.
    pub checksum: u32,
    /// The looks of the character.
    pub customize: CustomizeData,
    /// The timestamp.
    pub timestamp: u32,
    /// The comment.
    pub comment: Seq<char>,
}

impl View for CharacterData {
    type V = CharacterDataView;

    open spec fn view(&self) -> CharacterDataView {
        CharacterDataView {
            version: self.version,
            checksum: self.checksum,
            customize: self.customize,
            timestamp: self.timestamp,
            comment: self.comment@,
        }
    }
}

/// The bytes of the comment field of `b`.
pub open spec fn comment_field(b: Seq<u8>) -> Seq<u8> {
    b.subrange(COMMENT_OFFSET as int, CHARACTER_DATA_SIZE as int)
}

/// The character data a file holds: the mark, the version, the checksum, four empty bytes,
/// the looks, an empty byte, the timestamp and the comment, whose UTF-8 text is read without
/// leading and trailing zero characters. `None` where the file is too short, the mark is
/// missing or the looks hold a number that is not known.
pub open spec fn character_data_of(b: Seq<u8>) -> Option<CharacterDataView> {
    if b.len() < CHARACTER_DATA_SIZE || u32_le(b, 0) != CHARACTER_DATA_MAGIC {
        None
    } else {
        match customize_at(b, CUSTOMIZE_OFFSET as int) {
            None => None,
            Some(c) => Some(
                CharacterDataView {
                    version: u32_le(b, 4),
                    checksum: u32_le(b, 8),
                    customize: c,
                    timestamp: u32_le(b, 44),
                    comment: trim_nul_end(trim_nul_start(decode_utf8(comment_field(b)))),
                },
            ),
        }
    }
}

/// Whether reading `b` as character data finds a comment that is UTF-8, where it gets as far
/// as the comment.
pub open spec fn character_data_readable(b: Seq<u8>) -> bool {
    (b.len() >= CHARACTER_DATA_SIZE && u32_le(b, 0) == CHARACTER_DATA_MAGIC && customize_at(
        b,
        CUSTOMIZE_OFFSET as int,
    ) is Some) ==> valid_utf8(comment_field(b))
}

/// `v` cut or padded with zeros to `n` bytes.
pub open spec fn resized(v: Seq<u8>, n: nat) -> Seq<u8> {
    if v.len() >= n {
        v.take(n as int)
    } else {
        v + Seq::new((n - v.len()) as nat, |k: int| 0u8)
    }
}

/// The UTF-8 bytes of the comment and a zero byte.
pub open spec fn comment_with_nul(comment: Seq<char>) -> Seq<u8> {
    encode_utf8(comment).push(0u8)
}

/// How the comment is stored: its bytes and a zero byte, padded with zeros to the field's
/// size.
pub open spec fn comment_bytes(comment: Seq<char>) -> Seq<u8> {
    if comment_with_nul(comment).len() >= MAX_COMMENT_LENGTH {
        comment_with_nul(comment)
    } else {
        resized(comment_with_nul(comment), MAX_COMMENT_LENGTH as nat)
    }
}

/// The bytes the checksum is taken over: the stored looks, a zero byte, the timestamp and the
/// comment with its zero byte, cut or padded to the field's size.
pub open spec fn checksum_data(d: CharacterDataView) -> Seq<u8> {
    customize_bytes(d.customize) + seq![0u8] + u32_le_bytes(d.timestamp) + resized(
        comment_with_nul(d.comment),
        MAX_COMMENT_LENGTH as nat,
    )
}

/// The checksum of the first `n` bytes of `data`: each byte shifted left by its position
/// modulo 24, all combined with exclusive or.
pub open spec fn checksum_of(data: Seq<u8>, n: nat) -> u32
    decreases n,
{
    if n == 0 {
        0
    } else {
        checksum_of(data, (n - 1) as nat) ^ ((data[n - 1] as u32) << (((n - 1) % 24) as u32))
    }
}

/// How character data is stored, with its checksum computed anew.
pub open spec fn character_data_bytes(d: CharacterDataView) -> Seq<u8> {
    u32_le_bytes(CHARACTER_DATA_MAGIC) + u32_le_bytes(d.version) + u32_le_bytes(
        checksum_of(checksum_data(d), checksum_data(d).len()),
    ) + seq![0u8, 0u8, 0u8, 0u8] + customize_bytes(d.customize) + seq![0u8] + u32_le_bytes(
        d.timestamp,
    ) + comment_bytes(d.comment)
}

/// Whether `s` holds no zero character.
pub open spec fn no_nul(s: Seq<char>) -> bool {
    forall|k: int| 0 <= k < s.len() ==> s[k] != '\0'
}

impl CharacterData {
    /// Parses existing character data; see `character_data_of`.
    pub fn from_existing(buffer: &[u8]) -> (r: Option<CharacterData>)
        requires
            character_data_readable(buffer@),
        ensures
            r is Some <==> character_data_of(buffer@) is Some,
            r matches Some(d) ==> character_data_of(buffer@) == Some(d@),
    {
        if buffer.len() < CHARACTER_DATA_SIZE || read_u32_le(buffer, 0) != CHARACTER_DATA_MAGIC {
            return None;
        }
        let customize = match read_customize(buffer, CUSTOMIZE_OFFSET) {
            Some(c) => c,
            None => return None,
        };
        let mut field: Vec<u8> = Vec::new();
        let mut k: usize = COMMENT_OFFSET;
        while k < CHARACTER_DATA_SIZE
            invariant
                COMMENT_OFFSET <= k <= CHARACTER_DATA_SIZE,
                CHARACTER_DATA_SIZE <= buffer@.len(),
                field@ == buffer@.subrange(COMMENT_OFFSET as int, k as int),
            decreases CHARACTER_DATA_SIZE - k,
        {
            field.push(buffer[k]);
            k = k + 1;
            assert(field@ =~= buffer@.subrange(COMMENT_OFFSET as int, k as int));
        }
        let text = text_from_bytes_lossy(field.as_slice());
        let comment = crate::text::string_from_chars(&trim_nul_chars(&crate::text::chars_of(text.as_str())));
        Some(
            CharacterData {
                version: read_u32_le(buffer, 4),
                checksum: read_u32_le(buffer, 8),
                customize,
                timestamp: read_u32_le(buffer, 44),
                comment,
            },
        )
    }

    /// The checksum of the data fields.
    fn calc_checksum(&self) -> (r: u32)
        ensures
            r == checksum_of(checksum_data(self@), checksum_data(self@).len()),
    {
        let mut buffer: Vec<u8> = Vec::new();
        write_customize(&mut buffer, &self.customize);
        buffer.push(0u8);
        push_u32_le(&mut buffer, self.timestamp);
        let comment = self.comment.as_str().as_bytes();
        let mut k: usize = 0;
        let ghost start = buffer@;
        let ghost with_nul = comment_with_nul(self.comment@);
        while k < MAX_COMMENT_LENGTH
            invariant
                k <= MAX_COMMENT_LENGTH,
                comment@ == encode_utf8(self.comment@),
                with_nul == comment@.push(0u8),
                buffer@ == start + resized(with_nul, MAX_COMMENT_LENGTH as nat).take(k as int),
            decreases MAX_COMMENT_LENGTH - k,
        {
            let byte = if k < comment.len() {
                comment[k]
            } else {
                0u8
            };
            buffer.push(byte);
            k = k + 1;
            assert(buffer@ =~= start + resized(with_nul, MAX_COMMENT_LENGTH as nat).take(k as int));
        }
        assert(resized(with_nul, MAX_COMMENT_LENGTH as nat).take(MAX_COMMENT_LENGTH as int)
            =~= resized(with_nul, MAX_COMMENT_LENGTH as nat));
        assert(buffer@ =~= checksum_data(self@));
        let mut checksum: u32 = 0;
        let mut i: usize = 0;
        while i < buffer.len()
            invariant
                i <= buffer@.len(),
                checksum == checksum_of(buffer@, i as nat),
            decreases buffer@.len() - i,
        {
            checksum = checksum ^ ((buffer[i] as u32) << ((i % 24) as u32));
            i = i + 1;
        }
        checksum
    }

    /// Writes character data to a buffer, with its checksum computed anew.
    pub fn write_to_buffer(&self) -> (r: Option<Vec<u8>>)
        ensures
            r matches Some(b) && b@ == character_data_bytes(self@),
    {
        let mut buffer: Vec<u8> = Vec::new();
        push_u32_le(&mut buffer, CHARACTER_DATA_MAGIC);
        push_u32_le(&mut buffer, self.version);
        push_u32_le(&mut buffer, self.calc_checksum());
        push_zeros(&mut buffer, 4);
        write_customize(&mut buffer, &self.customize);
        buffer.push(0u8);
        push_u32_le(&mut buffer, self.timestamp);
        let comment = self.comment.as_str().as_bytes();
        push_bytes(&mut buffer, comment);
        buffer.push(0u8);
        if comment.len() < MAX_COMMENT_LENGTH - 1 {
            push_zeros(&mut buffer, MAX_COMMENT_LENGTH - 1 - comment.len());
        }
        assert(buffer@ =~= character_data_bytes(self@));
        Some(buffer)
    }
}

/// `k` zero characters.
pub open spec fn nuls(k: nat) -> Seq<char> {
    Seq::new(k, |i: int| '\0')
}

/// The UTF-8 encoding of two texts one after the other is the encoding of the first, then of
/// the second.
proof fn lemma_encode_concat(a: Seq<char>, b: Seq<char>)
    ensures
        encode_utf8(a + b) == encode_utf8(a) + encode_utf8(b),
    decreases a.len(),
{
    if a.len() > 0 {
        lemma_encode_concat(a.drop_first(), b);
        assert((a + b).drop_first() =~= a.drop_first() + b);
        assert((a + b)[0] == a[0]);
    } else {
        assert(a + b =~= b);
    }
}

/// Zero characters are encoded as zero bytes.
proof fn lemma_encode_nuls(k: nat)
    ensures
        encode_utf8(nuls(k)) == Seq::new(k, |i: int| 0u8),
    decreases k,
{
    if k > 0 {
        lemma_encode_nuls((k - 1) as nat);
        assert(nuls(k).drop_first() =~= nuls((k - 1) as nat));
        assert(nuls(k)[0] as u32 == 0);
        assert((0u32 & 0x7F) as u8 == 0u8) by (bit_vector);
        assert(vstd::utf8::encode_scalar(0u32) =~= seq![0u8]);
        assert(encode_utf8(nuls(k)) =~= Seq::new(k, |i: int| 0u8));
    } else {
        assert(nuls(k) =~= Seq::<char>::empty());
    }
}

/// A text without zero characters, followed by zero characters, is the text again once they
/// are trimmed.
proof fn lemma_trim_nuls(c: Seq<char>, k: nat)
    requires
        no_nul(c),
    ensures
        trim_nul_end(trim_nul_start(c + nuls(k))) == c,
    decreases k,
{
    if c.len() > 0 {
        assert((c + nuls(k))[0] == c[0]);
        lemma_trim_end_nuls(c, k);
    } else {
        assert(c + nuls(k) =~= nuls(k));
        lemma_trim_start_all_nuls(k);
    }
}

/// Trimming zero characters from the end of a text without them, followed by them, gives the
/// text.
proof fn lemma_trim_end_nuls(c: Seq<char>, k: nat)
    requires
        no_nul(c),
    ensures
        trim_nul_end(c + nuls(k)) == c,
    decreases k,
{
    if k > 0 {
        assert((c + nuls(k)).drop_last() =~= c + nuls((k - 1) as nat));
        lemma_trim_end_nuls(c, (k - 1) as nat);
    } else {
        assert(c + nuls(k) =~= c);
        if c.len() > 0 {
            assert(c.last() != '\0');
        }
    }
}

/// Trimming zero characters from the start of zero characters leaves nothing.
proof fn lemma_trim_start_all_nuls(k: nat)
    ensures
        trim_nul_start(nuls(k)) == Seq::<char>::empty(),
        trim_nul_end(Seq::<char>::empty()) == Seq::<char>::empty(),
    decreases k,
{
    if k > 0 {
        assert(nuls(k).drop_first() =~= nuls((k - 1) as nat));
        lemma_trim_start_all_nuls((k - 1) as nat);
    } else {
        assert(nuls(k) =~= Seq::<char>::empty());
    }
}

/// The numbers of written character data read back.
proof fn lemma_character_data_numbers(d: CharacterDataView, b: Seq<u8>, sum: u32)
    requires
        b == character_data_bytes(d),
        sum == checksum_of(checksum_data(d), checksum_data(d).len()),
    ensures
        u32_le(b, 0) == CHARACTER_DATA_MAGIC,
        u32_le(b, 4) == d.version,
        u32_le(b, 8) == sum,
        u32_le(b, 44) == d.timestamp,
{
    crate::bytes::lemma_u32_le(CHARACTER_DATA_MAGIC);
    crate::bytes::lemma_u32_le(d.version);
    crate::bytes::lemma_u32_le(sum);
    crate::bytes::lemma_u32_le(d.timestamp);
    assert(b.subrange(0, 4) =~= u32_le_bytes(CHARACTER_DATA_MAGIC));
    assert(b.subrange(4, 8) =~= u32_le_bytes(d.version));
    assert(b.subrange(8, 12) =~= u32_le_bytes(sum));
    assert(b.subrange(44, 48) =~= u32_le_bytes(d.timestamp));
    crate::bytes::lemma_read_at(b, 0, u32_le_bytes(CHARACTER_DATA_MAGIC));
    crate::bytes::lemma_read_at(b, 4, u32_le_bytes(d.version));
    crate::bytes::lemma_read_at(b, 8, u32_le_bytes(sum));
    crate::bytes::lemma_read_at(b, 44, u32_le_bytes(d.timestamp));
}

/// The looks of written character data read back.
proof fn lemma_character_data_customize(d: CharacterDataView, b: Seq<u8>)
    requires
        b == character_data_bytes(d),
    ensures
        customize_at(b, CUSTOMIZE_OFFSET as int) == Some(d.customize),
{
    let cb = customize_bytes(d.customize);
    assert(b.subrange(16, 43) =~= cb);
    assert forall|j: int| 0 <= j < 27 implies b[16 + j] == cb[j] by {
        assert(b.subrange(16, 43)[j] == b[16 + j]);
    }
}

/// Character data read back from what was written for it is the same, but for the checksum,
/// which is computed anew, where the comment holds no zero character and its UTF-8 text
/// leaves room in its field for a terminating zero byte.
pub proof fn law_character_data_round_trip(d: CharacterDataView)
    requires
        no_nul(d.comment),
        encode_utf8(d.comment).len() < MAX_COMMENT_LENGTH,
    ensures
        character_data_readable(character_data_bytes(d)),
        character_data_of(character_data_bytes(d)) == Some(
            CharacterDataView {
                checksum: checksum_of(checksum_data(d), checksum_data(d).len()),
                ..d
            },
        ),
{
    let b = character_data_bytes(d);
    let enc = encode_utf8(d.comment);
    let k = (MAX_COMMENT_LENGTH - enc.len()) as nat;
    let sum = checksum_of(checksum_data(d), checksum_data(d).len());
    lemma_encode_nuls(k);
    lemma_encode_concat(d.comment, nuls(k));
    assert(comment_bytes(d.comment) =~= encode_utf8(d.comment + nuls(k)));
    vstd::utf8::encode_utf8_valid_utf8(d.comment + nuls(k));
    vstd::utf8::encode_utf8_decode_utf8(d.comment + nuls(k));
    lemma_trim_nuls(d.comment, k);
    assert(b.len() == CHARACTER_DATA_SIZE);
    assert(comment_field(b) =~= comment_bytes(d.comment));
    lemma_character_data_numbers(d, b, sum);
    lemma_character_data_customize(d, b);
}

} // verus!
