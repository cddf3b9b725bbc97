//! Game repositories, such as "ffxiv" and "ex1", and the names of their index files.
use vstd::prelude::*;
use core::cmp::Ordering;
use vstd::string::StringSliceAdditionalSpecFns;
use vstd::utf8::encode_utf8;
use crate::common::{platform_shortname, Platform};
use crate::decimal::{dec_value, digit_char, fmt_int_padded, fmt_nat, lemma_fmt_nat, push_i64_padded};
use crate::resource::sqpack::{release_suffix, SqPackRelease};
use crate::text::{chars_of, push_str, same_chars, string_from_chars};

verus! {

/// The type of repository, discerning game data from expansion data.
#[derive(Debug, PartialEq, Eq, Structural, Copy, Clone)]
pub enum RepositoryType {
    /// The base game directory, like "ffxiv".
    Base,
    /// An expansion directory, like "ex1".
    Expansion {
        /// The expansion number starting at 1.
        number: i32,
    },
}

/// A directory of game data, such as "ex1", and its version.
/// This handles calculating the correct dat and index filenames.
#[derive(Debug, Clone)]
pub struct Repository {
    /// The folder name, such as "ex1".
    pub name: String,
    /// The platform the data was built for.
    pub platform: Platform,
    /// How the data was released.
    pub release: SqPackRelease,
    /// The type of repository, such as "base game" or "expansion".
    pub repo_type: RepositoryType,
    /// The version of the game data.
    pub version: Option<String>,
}

/// What a repository is, as plain values.
pub struct RepositoryView {
    /// The folder name.
    pub name: Seq<char>,
    /// The platform the data was built for.
    pub platform: Platform,
    /// How the data was released.
    pub release: SqPackRelease,
    /// The type of repository.
    pub repo_type: RepositoryType,
    /// The version of the game data.
    pub version: Option<Seq<char>>,
}

/// The text of an optional string.
pub open spec fn opt_text(o: Option<String>) -> Option<Seq<char>> {
    match o {
        Some(s) => Some(s@),
        None => None,
    }
}

impl View for Repository {
    type V = RepositoryView;

    open spec fn view(&self) -> RepositoryView {
        RepositoryView {
            name: self.name@,
            platform: self.platform,
            release: self.release,
            repo_type: self.repo_type,
            version: opt_text(self.version),
        }
    }
}

impl PartialEq for Repository {
    fn eq(&self, other: &Self) -> (r: bool) {
        same_chars(&chars_of(self.name.as_str()), &chars_of(other.name.as_str()))
    }
}

impl vstd::std_specs::cmp::PartialEqSpecImpl for Repository {
    open spec fn obeys_eq_spec() -> bool {
        true
    }

    /// Two repositories are the same when their names are.
    open spec fn eq_spec(&self, other: &Self) -> bool {
        self.name@ == other.name@
    }
}

/// How two repositories are ordered: the base game first, then the expansions by number.
pub open spec fn repository_order(a: RepositoryType, b: RepositoryType) -> Ordering {
    match a {
        RepositoryType::Base => match b {
            RepositoryType::Base => Ordering::Equal,
            RepositoryType::Expansion { .. } => Ordering::Less,
        },
        RepositoryType::Expansion { number } => match b {
            RepositoryType::Base => Ordering::Greater,
            RepositoryType::Expansion { number: other } => if number < other {
                Ordering::Less
            } else if number == other {
                Ordering::Equal
            } else {
                Ordering::Greater
            },
        },
    }
}

/// The order of repositories is a total order: comparing two one way or the other gives
/// opposite answers, they compare as equal exactly when they are the same, comparisons chain,
/// and the base game comes before every expansion.
pub proof fn law_repository_order(a: RepositoryType, b: RepositoryType, c: RepositoryType)
    ensures
        repository_order(a, a) == Ordering::Equal,
        repository_order(a, b) == Ordering::Less <==> repository_order(b, a) == Ordering::Greater,
        repository_order(a, b) == Ordering::Equal <==> a == b,
        repository_order(a, b) == Ordering::Less && repository_order(b, c) == Ordering::Less
            ==> repository_order(a, c) == Ordering::Less,
        a is Base && b is Expansion ==> repository_order(a, b) == Ordering::Less,
{
}

/// Repositories sort as the base game, then the expansions by their numbers: ffxiv, ex1,
/// ex2 and so on. An expansion of a smaller number comes before one of a larger number, and
/// after it where the number is larger; the base game comes before every expansion.
pub proof fn law_expansions_sort_by_number(n: i32, m: i32)
    ensures
        n < m ==> repository_order(
            RepositoryType::Expansion { number: n },
            RepositoryType::Expansion { number: m },
        ) == Ordering::Less,
        n > m ==> repository_order(
            RepositoryType::Expansion { number: n },
            RepositoryType::Expansion { number: m },
        ) == Ordering::Greater,
        repository_order(RepositoryType::Base, RepositoryType::Expansion { number: n })
            == Ordering::Less,
        repository_order(RepositoryType::Expansion { number: n }, RepositoryType::Base)
            == Ordering::Greater,
{
}

/// The root directory a file is located in. This is a fixed list of directories, and all of
/// them are known.
#[derive(Debug, PartialEq, Eq, Structural, Copy, Clone)]
pub enum Category {
    /// Common files such as game fonts, and other data that doesn't really fit anywhere else.
    Common,
    /// Shared data between game maps.
    BackgroundCommon,
    /// Game map data such as models, textures, and so on.
    Background,
    /// Cutscene content such as animations.
    Cutscene,
    /// Character model files and more.
    Character,
    /// Compiled shaders used by the retail client.
    Shader,
    /// UI layouts and textures.
    UI,
    /// Sound effects, basically anything not under `Music`.
    Sound,
    /// Visual effects.
    VFX,
    /// A leftover from the first version, where the UI was driven by LUA scripts.
    UIScript,
    /// Excel data.
    EXD,
    /// Many game events are driven by LUA scripts, such as cutscenes.
    GameScript,
    /// Music.
    Music,
    /// Unknown purpose, most likely to test SqPack functionality.
    SqPackTest,
    /// Unknown purpose, most likely debug files.
    Debug,
}

impl Category {
    /// The number of the category in index file names.
    pub open spec fn spec_number(self) -> u8 {
        match self {
            Category::Common => 0x00,
            Category::BackgroundCommon => 0x01,
            Category::Background => 0x02,
            Category::Cutscene => 0x03,
            Category::Character => 0x04,
            Category::Shader => 0x05,
            Category::UI => 0x06,
            Category::Sound => 0x07,
            Category::VFX => 0x08,
            Category::UIScript => 0x09,
            Category::EXD => 0x0A,
            Category::GameScript => 0x0B,
            Category::Music => 0x0C,
            Category::SqPackTest => 0x12,
            Category::Debug => 0x13,
        }
    }

    /// The number of the category in index file names.
    pub fn number(&self) -> (r: u8)
        ensures
            r == self.spec_number(),
    {
        match self {
            Category::Common => 0x00,
            Category::BackgroundCommon => 0x01,
            Category::Background => 0x02,
            Category::Cutscene => 0x03,
            Category::Character => 0x04,
            Category::Shader => 0x05,
            Category::UI => 0x06,
            Category::Sound => 0x07,
            Category::VFX => 0x08,
            Category::UIScript => 0x09,
            Category::EXD => 0x0A,
            Category::GameScript => 0x0B,
            Category::Music => 0x0C,
            Category::SqPackTest => 0x12,
            Category::Debug => 0x13,
        }
    }
}

/// The category a directory name stands for.
pub open spec fn category_of(s: Seq<char>) -> Option<Category> {
    if s == "common"@ {
        Some(Category::Common)
    } else if s == "bgcommon"@ {
        Some(Category::BackgroundCommon)
    } else if s == "bg"@ {
        Some(Category::Background)
    } else if s == "cut"@ {
        Some(Category::Cutscene)
    } else if s == "chara"@ {
        Some(Category::Character)
    } else if s == "shader"@ {
        Some(Category::Shader)
    } else if s == "ui"@ {
        Some(Category::UI)
    } else if s == "sound"@ {
        Some(Category::Sound)
    } else if s == "vfx"@ {
        Some(Category::VFX)
    } else if s == "ui_script"@ {
        Some(Category::UIScript)
    } else if s == "exd"@ {
        Some(Category::EXD)
    } else if s == "game_script"@ {
        Some(Category::GameScript)
    } else if s == "music"@ {
        Some(Category::Music)
    } else if s == "sqpack_test"@ {
        Some(Category::SqPackTest)
    } else if s == "debug"@ {
        Some(Category::Debug)
    } else {
        None
    }
}

/// The category a directory name stands for.
pub fn string_to_category(string: &str) -> (r: Option<Category>)
    ensures
        r == category_of(string@),
{
    let s = chars_of(string);
    if same_chars(&s, &chars_of("common")) {
        Some(Category::Common)
    } else if same_chars(&s, &chars_of("bgcommon")) {
        Some(Category::BackgroundCommon)
    } else if same_chars(&s, &chars_of("bg")) {
        Some(Category::Background)
    } else if same_chars(&s, &chars_of("cut")) {
        Some(Category::Cutscene)
    } else if same_chars(&s, &chars_of("chara")) {
        Some(Category::Character)
    } else if same_chars(&s, &chars_of("shader")) {
        Some(Category::Shader)
    } else if same_chars(&s, &chars_of("ui")) {
        Some(Category::UI)
    } else if same_chars(&s, &chars_of("sound")) {
        Some(Category::Sound)
    } else if same_chars(&s, &chars_of("vfx")) {
        Some(Category::VFX)
    } else if same_chars(&s, &chars_of("ui_script")) {
        Some(Category::UIScript)
    } else if same_chars(&s, &chars_of("exd")) {
        Some(Category::EXD)
    } else if same_chars(&s, &chars_of("game_script")) {
        Some(Category::GameScript)
    } else if same_chars(&s, &chars_of("music")) {
        Some(Category::Music)
    } else if same_chars(&s, &chars_of("sqpack_test")) {
        Some(Category::SqPackTest)
    } else if same_chars(&s, &chars_of("debug")) {
        Some(Category::Debug)
    } else {
        None
    }
}

proof fn lemma_ascii_name(c0: char, c1: char, c2: char)
    requires
        (c0 as u32) < 0x80,
        (c1 as u32) < 0x80,
        (c2 as u32) < 0x80,
    ensures
        encode_utf8(seq![c0, c1, c2])[2] == (c2 as u32) as u8,
{
    let s = seq![c0, c1, c2];
    let x = c2 as u32;
    assert(x <= 0x7F ==> (x & 0x7F) == x) by (bit_vector);
    assert(s.drop_first().drop_first() =~= seq![c2]);
    assert(s.drop_first() =~= seq![c1, c2]);
    assert(seq![c2].drop_first() =~= Seq::<char>::empty());
    assert(encode_utf8(Seq::<char>::empty()) =~= Seq::<u8>::empty());
    assert(vstd::utf8::encode_scalar(x) =~= seq![(x & 0x7F) as u8]);
    let e2 = encode_utf8(seq![c2]);
    assert(e2 == vstd::utf8::encode_scalar(seq![c2][0] as u32) + encode_utf8(seq![c2].drop_first()));
    assert(e2 =~= seq![(x & 0x7F) as u8]);
    let e1 = encode_utf8(seq![c1, c2]);
    assert(e1.len() == 2);
    assert(e1[1] == e2[0]);
    assert(encode_utf8(s)[2] == e1[1]);
}

/// The directory of an expansion, `ex` and a digit, gives the expansion the digit's number.
pub proof fn law_expansion_digit(j: nat)
    requires
        j < 10,
    ensures
        expansion_digit(seq!['e', 'x', digit_char(j)]) == Some(j as i32),
{
    lemma_ascii_name('e', 'x', digit_char(j));
}

/// Expansions sort by the digits of their directories' names: ex1 before ex2, and so on.
pub proof fn law_expansion_names_sort(j: nat, k: nat)
    requires
        j < k < 10,
    ensures
        repository_order(
            RepositoryType::Expansion { number: expansion_digit(seq!['e', 'x', digit_char(j)])->0 },
            RepositoryType::Expansion { number: expansion_digit(seq!['e', 'x', digit_char(k)])->0 },
        ) == Ordering::Less,
{
    law_expansion_digit(j);
    law_expansion_digit(k);
}

/// The lower-case hexadecimal digit of `n < 16`.
pub open spec fn hex_lower(n: nat) -> char {
    if n < 10 {
        (('0' as int) + n) as char
    } else {
        (('a' as int) + n - 10) as char
    }
}

/// `n` as two lower-case hexadecimal digits, as the format `{:02x}` writes a number below 256.
pub open spec fn hex2(n: u8) -> Seq<char> {
    seq![hex_lower((n / 16) as nat), hex_lower((n % 16) as nat)]
}

/// The expansion number of a repository type: zero for the base game.
pub open spec fn expansion_number(t: RepositoryType) -> i32 {
    match t {
        RepositoryType::Base => 0,
        RepositoryType::Expansion { number } => number,
    }
}

/// The index file name of a chunk of a category in a repository.
pub open spec fn index_name(
    platform: Platform,
    release: SqPackRelease,
    t: RepositoryType,
    chunk: u8,
    category: Category,
) -> Seq<char> {
    hex2(category.spec_number()) + fmt_int_padded(expansion_number(t) as int, 2) + fmt_int_padded(
        chunk as int,
        2,
    ) + "."@ + platform_shortname(platform) + release_suffix(release) + ".index"@
}

/// The value of a lower-case hexadecimal digit.
pub open spec fn hex_value(c: char) -> int {
    if '0' <= c <= '9' {
        c as int - '0' as int
    } else {
        c as int - 'a' as int + 10
    }
}

/// The numbers of the categories in index file names.
pub proof fn law_category_numbers()
    ensures
        Category::Common.spec_number() == 0x00,
        Category::BackgroundCommon.spec_number() == 0x01,
        Category::Background.spec_number() == 0x02,
        Category::Cutscene.spec_number() == 0x03,
        Category::Character.spec_number() == 0x04,
        Category::Shader.spec_number() == 0x05,
        Category::UI.spec_number() == 0x06,
        Category::Sound.spec_number() == 0x07,
        Category::VFX.spec_number() == 0x08,
        Category::UIScript.spec_number() == 0x09,
        Category::EXD.spec_number() == 0x0A,
        Category::GameScript.spec_number() == 0x0B,
        Category::Music.spec_number() == 0x0C,
        Category::SqPackTest.spec_number() == 0x12,
        Category::Debug.spec_number() == 0x13,
{
}

proof fn lemma_two_digits(v: int)
    requires
        0 <= v < 100,
    ensures
        fmt_int_padded(v, 2).len() == 2,
        dec_value(fmt_int_padded(v, 2)) == v,
{
    let t = fmt_int_padded(v, 2);
    let d = fmt_nat(v as nat);
    lemma_fmt_nat(v as nat);
    if v < 10 {
        assert(d =~= seq![digit_char(v as nat)]);
        assert(t =~= seq!['0', digit_char(v as nat)]);
        assert(t.drop_last() =~= seq!['0']);
        assert(seq!['0'].drop_last() =~= Seq::<char>::empty());
        assert(dec_value(Seq::<char>::empty()) == 0);
        assert(dec_value(seq!['0']) == 0);
        assert(crate::decimal::digit_value(digit_char(v as nat)) == v);
        assert(dec_value(t) == dec_value(seq!['0']) * 10 + crate::decimal::digit_value(t.last()));
    } else {
        assert(d =~= fmt_nat((v / 10) as nat).push(digit_char((v % 10) as nat)));
        assert(fmt_nat((v / 10) as nat) =~= seq![digit_char((v / 10) as nat)]);
        assert(t =~= d);
    }
}

/// An index file name starts with the category's number in two hexadecimal digits, then the
/// expansion number and the chunk in two decimal digits each, then a dot, the platform's
/// short name, the release's suffix and `.index`.
pub proof fn law_index_name(
    platform: Platform,
    release: SqPackRelease,
    t: RepositoryType,
    chunk: u8,
    category: Category,
)
    requires
        0 <= expansion_number(t) < 100,
        chunk < 100,
    ensures
        ({
            let name = index_name(platform, release, t, chunk, category);
            &&& hex_value(name[0]) * 16 + hex_value(name[1]) == category.spec_number()
            &&& dec_value(name.subrange(2, 4)) == expansion_number(t)
            &&& dec_value(name.subrange(4, 6)) == chunk
            &&& name[6] == '.'
            &&& name.subrange(7, 7 + platform_shortname(platform).len() as int) == platform_shortname(
                platform,
            )
            &&& name.subrange(name.len() - 6, name.len() as int) == ".index"@
        }),
{
    let name = index_name(platform, release, t, chunk, category);
    let n = category.spec_number();
    let e = fmt_int_padded(expansion_number(t) as int, 2);
    let c = fmt_int_padded(chunk as int, 2);
    lemma_two_digits(expansion_number(t) as int);
    lemma_two_digits(chunk as int);
    reveal_strlit(".");
    reveal_strlit(".index");
    let pre = hex2(n) + e + c + "."@;
    assert(name =~= pre + platform_shortname(platform) + release_suffix(release) + ".index"@);
    assert(name.subrange(2, 4) =~= e);
    assert(name.subrange(4, 6) =~= c);
    assert(name.subrange(7, 7 + platform_shortname(platform).len() as int) =~= platform_shortname(platform));
    assert(name.subrange(name.len() - 6, name.len() as int) =~= ".index"@);
    assert(hex_value(hex_lower((n / 16) as nat)) == n / 16);
    assert(hex_value(hex_lower((n % 16) as nat)) == n % 16);
}

/// The base repository of a game directory, "ffxiv".
pub open spec fn base_repository(
    platform: Platform,
    release: SqPackRelease,
    version: Option<Seq<char>>,
) -> RepositoryView {
    RepositoryView {
        name: "ffxiv"@,
        platform,
        release,
        repo_type: RepositoryType::Base,
        version,
    }
}

/// The expansion number a directory name such as "ex1" gives: its third byte read as a
/// decimal digit, if it is one.
pub open spec fn expansion_digit(name: Seq<char>) -> Option<i32> {
    let b = encode_utf8(name)[2];
    if '0' as u8 <= b <= '9' as u8 {
        Some((b - '0' as u8) as i32)
    } else {
        None
    }
}

/// The expansion repository in the directory `name`, if the name gives an expansion number.
pub open spec fn expansion_repository(
    platform: Platform,
    release: SqPackRelease,
    name: Seq<char>,
    version: Option<Seq<char>>,
) -> Option<RepositoryView> {
    match expansion_digit(name) {
        Some(number) => Some(
            RepositoryView {
                name,
                platform,
                release,
                repo_type: RepositoryType::Expansion { number },
                version,
            },
        ),
        None => None,
    }
}

/// The lower-case hexadecimal digit of `n < 16`.
fn hex_digit(n: u8) -> (c: char)
    requires
        n < 16,
    ensures
        c == hex_lower(n as nat),
{
    if n < 10 {
        ((48u8 + n) as char)
    } else {
        ((97u8 + n - 10) as char)
    }
}

impl Repository {
    /// Creates a base repository from what its directory holds: `None` if the directory does
    /// not exist, else a repository named "ffxiv" with the given version.
    pub fn from_existing_base(
        platform: Platform,
        release: SqPackRelease,
        dir_exists: bool,
        version: Option<String>,
    ) -> (r: Option<Repository>)
        ensures
            r is Some <==> dir_exists,
            r matches Some(repo) ==> repo@ == base_repository(platform, release, opt_text(version))
                && repo.version == version,
    {
        if !dir_exists {
            return None;
        }
        Some(
            Repository {
                name: string_from_chars(&chars_of("ffxiv")),
                platform,
                release,
                repo_type: RepositoryType::Base,
                version,
            },
        )
    }

    /// Creates an expansion repository from the name of its directory (such as "ex1") and
    /// what the directory holds: `None` if the directory does not exist or the third
    /// character of its name is not a digit, else a repository of that expansion number.
    pub fn from_existing_expansion(
        platform: Platform,
        release: SqPackRelease,
        name: &str,
        dir_exists: bool,
        version: Option<String>,
    ) -> (r: Option<Repository>)
        requires
            dir_exists ==> name.spec_bytes().len() >= 3 && vstd::utf8::is_char_boundary(
                name.spec_bytes(),
                2,
            ) && vstd::utf8::is_char_boundary(name.spec_bytes(), 3),
        ensures
            r is Some <==> dir_exists && expansion_digit(name@) is Some,
            r matches Some(repo) ==> expansion_repository(platform, release, name@, opt_text(version))
                == Some(repo@) && repo.version == version,
    {
        if !dir_exists {
            return None;
        }
        let bytes = name.as_bytes();
        let b = bytes[2];
        if b < 48u8 || b > 57u8 {
            return None;
        }
        let number = (b - 48u8) as i32;
        Some(
            Repository {
                name: string_from_chars(&chars_of(name)),
                platform,
                release,
                repo_type: RepositoryType::Expansion { number },
                version,
            },
        )
    }

    /// The expansion number of the repository: zero for the base game.
    fn expansion(&self) -> (r: i32)
        ensures
            r == expansion_number(self.repo_type),
    {
        match self.repo_type {
            RepositoryType::Base => 0,
            RepositoryType::Expansion { number } => number,
        }
    }

    /// Calculates an index filename for a specific category, like "0a0000.win32.index".
    pub fn index_filename(&self, chunk: u8, category: Category) -> (r: String)
        ensures
            r@ == index_name(self.platform, self.release, self.repo_type, chunk, category),
    {
        let mut out: Vec<char> = Vec::new();
        let n = category.number();
        out.push(hex_digit(n / 16));
        out.push(hex_digit(n % 16));
        push_i64_padded(&mut out, self.expansion() as i64, 2);
        push_i64_padded(&mut out, chunk as i64, 2);
        push_str(&mut out, ".");
        push_str(&mut out, self.platform.shortname());
        push_str(&mut out, self.release.suffix());
        push_str(&mut out, ".index");
        assert(out@ =~= index_name(self.platform, self.release, self.repo_type, chunk, category));
        string_from_chars(&out)
    }

    /// Calculates an index2 filename for a specific category, like "0a0000.win32.index2".
    pub fn index2_filename(&self, chunk: u8, category: Category) -> (r: String)
        ensures
            r@ == index_name(self.platform, self.release, self.repo_type, chunk, category) + "2"@,
    {
        let mut out = chars_of(self.index_filename(chunk, category).as_str());
        push_str(&mut out, "2");
        string_from_chars(&out)
    }

    /// How this repository is ordered before or after `other`: the base game first, then the
    /// expansions by number.
    pub fn cmp(&self, other: &Self) -> (r: Ordering)
        ensures
            r == repository_order(self.repo_type, other.repo_type),
    {
        match self.repo_type {
            RepositoryType::Base => match other.repo_type {
                RepositoryType::Base => Ordering::Equal,
                RepositoryType::Expansion { .. } => Ordering::Less,
            },
            RepositoryType::Expansion { number } => match other.repo_type {
                RepositoryType::Base => Ordering::Greater,
                RepositoryType::Expansion { number: other_number } => if number < other_number {
                    Ordering::Less
                } else if number == other_number {
                    Ordering::Equal
                } else {
                    Ordering::Greater
                },
            },
        }
    }
}

} // verus!
