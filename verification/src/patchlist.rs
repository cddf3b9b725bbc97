//! Patch lists: the text a patch server answers with, listing the patch files a client
//! has to download and install.
use vstd::prelude::*;
use crate::decimal::{
    fmt_int, parse_i32, parse_i32_in, parse_i64, parse_i64_in, parse_u64, parse_u64_in, push_i64,
    push_nat,
};
use crate::split::{
    find, find_from, find_in, join_with, lacks, matches_at, no_match_in, piece_start, pieces_view,
    split, split_chars, sub_chars,
};
use crate::text::{chars_of, push_str, string_from_chars};

verus! {

/// A patch to be downloaded.
pub struct PatchEntry {
    /// The URL of the patch file. Usually an HTTP URL.
    pub url: String,
    /// The version for this patch.
    pub version: String,
    /// How many bytes each SHA1 hash block is considering.
    pub hash_block_size: i64,
    /// Length of the patch file (in bytes.)
    pub length: i64,
    /// New size of the game when the patch is installed.
    pub size_on_disk: i64,
    /// The list of SHA1 hashes.
    pub hashes: Vec<String>,
    /// A field of unknown meaning.
    pub unknown_a: i32,
    /// A field of unknown meaning.
    pub unknown_b: i32,
}

/// A list of patch files the client is requested to download, and install.
pub struct PatchList {
    /// The id of the patch list.
    pub id: String,
    /// Size of the base game's patches only, in bytes.
    pub patch_length: u64,
    /// The content location, usually from an HTTP URL.
    pub content_location: String,
    /// The version that was requested from the server.
    pub requested_version: String,
    /// The list of patches.
    pub patches: Vec<PatchEntry>,
}

/// The kind of patch list.
/// This must be the kind of patch list you're parsing, or else the fields will be filled in
/// the wrong order.
#[derive(PartialEq, Eq, Structural, Clone, Copy, Debug)]
pub enum PatchListType {
    /// A boot patch list.
    Boot,
    /// A game patch list.
    Game,
}

/// The contents of a [PatchEntry].
pub struct PatchEntryView {
    pub url: Seq<char>,
    pub version: Seq<char>,
    pub hash_block_size: i64,
    pub length: i64,
    pub size_on_disk: i64,
    pub hashes: Seq<Seq<char>>,
    pub unknown_a: i32,
    pub unknown_b: i32,
}

/// The contents of a [PatchList].
pub struct PatchListView {
    pub id: Seq<char>,
    pub patch_length: u64,
    pub content_location: Seq<char>,
    pub requested_version: Seq<char>,
    pub patches: Seq<PatchEntryView>,
}

/// The texts of a vector of strings.
pub open spec fn strings_view(v: Seq<String>) -> Seq<Seq<char>> {
    Seq::new(v.len(), |i: int| v[i]@)
}

impl View for PatchEntry {
    type V = PatchEntryView;

    open spec fn view(&self) -> PatchEntryView {
        PatchEntryView {
            url: self.url@,
            version: self.version@,
            hash_block_size: self.hash_block_size,
            length: self.length,
            size_on_disk: self.size_on_disk,
            hashes: strings_view(self.hashes@),
            unknown_a: self.unknown_a,
            unknown_b: self.unknown_b,
        }
    }
}

impl View for PatchList {
    type V = PatchListView;

    open spec fn view(&self) -> PatchListView {
        PatchListView {
            id: self.id@,
            patch_length: self.patch_length,
            content_location: self.content_location@,
            requested_version: self.requested_version@,
            patches: Seq::new(self.patches@.len(), |i: int| self.patches@[i]@),
        }
    }
}

// ---------------------------------------------------------------------------
// The text format.
// ---------------------------------------------------------------------------

/// The line separator.
pub open spec fn crlf() -> Seq<char> {
    seq!['\r', '\n']
}

/// The field separator of a patch line.
pub open spec fn tab() -> Seq<char> {
    seq!['\t']
}

/// The separator of the hashes of a patch line.
pub open spec fn comma() -> Seq<char> {
    seq![',']
}

/// The boundary marker `--`.
pub open spec fn dashes() -> Seq<char> {
    seq!['-', '-']
}

/// The name of the hash type of game patches.
pub open spec fn sha1_name() -> Seq<char> {
    seq!['s', 'h', 'a', '1']
}

/// The content type line.
pub open spec fn content_type_line() -> Seq<char> {
    "Content-Type: application/octet-stream"@
}

/// The key of the content location header.
pub open spec fn content_location_key() -> Seq<char> {
    "Content-Location: "@
}

/// The key of the patch length header.
pub open spec fn patch_length_key() -> Seq<char> {
    "X-Patch-Length: "@
}

/// The sum of the lengths of the patches.
pub open spec fn total_length(ps: Seq<PatchEntryView>) -> int
    decreases ps.len(),
{
    if ps.len() == 0 {
        0
    } else {
        total_length(ps.drop_last()) + ps.last().length
    }
}

/// Whether every partial sum of the lengths of the patches fits in an `i64`.
pub open spec fn lengths_fit(ps: Seq<PatchEntryView>) -> bool {
    forall|k: int|
        0 <= k <= ps.len() ==> i64::MIN <= #[trigger] total_length(ps.take(k)) <= i64::MAX
}

/// The hashes joined by commas.
pub open spec fn join_hashes(hs: Seq<Seq<char>>) -> Seq<char> {
    join_with(hs, comma())
}

/// The line of one patch, without its line separator.
pub open spec fn entry_line(e: PatchEntryView, t: PatchListType) -> Seq<char> {
    fmt_int(e.length as int) + tab() + fmt_int(e.size_on_disk as int) + tab() + fmt_int(
        e.unknown_a as int,
    ) + tab() + fmt_int(e.unknown_b as int) + tab() + e.version + tab() + (if t
        == PatchListType::Game {
        sha1_name() + tab() + fmt_int(e.hash_block_size as int) + tab() + join_hashes(e.hashes)
            + tab()
    } else {
        Seq::empty()
    }) + e.url
}

/// The lines of all patches, each followed by a line separator.
pub open spec fn entries_text(ps: Seq<PatchEntryView>, t: PatchListType) -> Seq<char>
    decreases ps.len(),
{
    if ps.len() == 0 {
        Seq::empty()
    } else {
        entries_text(ps.drop_last(), t) + entry_line(ps.last(), t) + crlf()
    }
}

/// The text of a patch list of kind `t`.
pub open spec fn patch_list_text(pl: PatchListView, t: PatchListType) -> Seq<char> {
    dashes() + pl.id + crlf() + content_type_line() + crlf() + content_location_key()
        + pl.content_location + crlf() + patch_length_key() + fmt_int(pl.patch_length as int)
        + crlf() + crlf() + entries_text(pl.patches, t) + dashes() + pl.id + dashes() + crlf()
}

/// The value of the header `key` in `text`: what follows the first occurrence of `key`, up
/// to the next line separator.
pub open spec fn header_value(text: Seq<char>, key: Seq<char>) -> Option<Seq<char>> {
    match find(text, key) {
        None => None,
        Some(i) => match find_from(text, crlf(), i + key.len()) {
            None => None,
            Some(j) => Some(text.subrange(i + key.len(), j)),
        },
    }
}

/// The fields of a patch line.
pub open spec fn entry_fields(line: Seq<char>) -> Seq<Seq<char>> {
    split(line, tab())
}

/// Whether a patch line can be read as a patch of kind `t`: it has enough fields, and the
/// numeric ones are numbers that fit.
pub open spec fn valid_entry_line(line: Seq<char>, t: PatchListType) -> bool {
    let f = entry_fields(line);
    if t == PatchListType::Boot {
        &&& f.len() >= 6
        &&& parse_i64(f[0]) is Some
        &&& parse_i64(f[1]) is Some
    } else {
        &&& f.len() >= 9
        &&& parse_i64(f[0]) is Some
        &&& parse_i64(f[1]) is Some
        &&& parse_i32(f[2]) is Some
        &&& parse_i32(f[3]) is Some
        &&& parse_i64(f[6]) is Some
    }
}

/// The patch a line describes.
pub open spec fn parse_entry(line: Seq<char>, t: PatchListType) -> PatchEntryView {
    let f = entry_fields(line);
    if t == PatchListType::Boot {
        PatchEntryView {
            url: f[5],
            version: f[4],
            hash_block_size: 0,
            length: parse_i64(f[0])->0,
            size_on_disk: parse_i64(f[1])->0,
            hashes: Seq::empty(),
            unknown_a: 0,
            unknown_b: 0,
        }
    } else {
        PatchEntryView {
            url: f[8],
            version: f[4],
            hash_block_size: parse_i64(f[6])->0,
            length: parse_i64(f[0])->0,
            size_on_disk: parse_i64(f[1])->0,
            hashes: split(f[7], comma()),
            unknown_a: parse_i32(f[2])->0,
            unknown_b: parse_i32(f[3])->0,
        }
    }
}

/// The lines of a text.
pub open spec fn text_lines(text: Seq<char>) -> Seq<Seq<char>> {
    split(text, crlf())
}

/// The number of patch lines: every line from the sixth on, except the last two.
pub open spec fn entry_count(text: Seq<char>) -> nat {
    let n = text_lines(text).len();
    if n >= 7 {
        (n - 7) as nat
    } else {
        0
    }
}

/// Whether a text can be read as a patch list of kind `t`: it has at least two lines, and
/// every patch line is valid.
pub open spec fn valid_patch_list_text(text: Seq<char>, t: PatchListType) -> bool {
    &&& text_lines(text).len() >= 2
    &&& forall|i: int|
        5 <= i < text_lines(text).len() - 2 ==> valid_entry_line(#[trigger] text_lines(text)[i], t)
}

/// The patch list a text describes.
pub open spec fn parse_patch_list(text: Seq<char>, t: PatchListType) -> PatchListView {
    PatchListView {
        id: Seq::empty(),
        patch_length: match header_value(text, patch_length_key()) {
            Some(v) => match parse_u64(v) {
                Some(n) => n,
                None => 0,
            },
            None => 0,
        },
        content_location: match header_value(text, content_location_key()) {
            Some(v) => v,
            None => Seq::empty(),
        },
        requested_version: Seq::empty(),
        patches: Seq::new(entry_count(text), |i: int| parse_entry(text_lines(text)[i + 5], t)),
    }
}

// ---------------------------------------------------------------------------
// Reading and writing.
// ---------------------------------------------------------------------------


/// The value of the header `key` in `text`, as the positions it spans.
fn find_header(text: &Vec<char>, key: &str) -> (r: Option<(usize, usize)>)
    ensures
        r matches Some((a, b)) ==> a <= b <= text@.len() && header_value(text@, key@) == Some(
            text@.subrange(a as int, b as int),
        ),
        r is None ==> header_value(text@, key@) is None,
{
    let k = chars_of(key);
    let crlf_chars = chars_of("\r\n");
    proof {
        reveal_strlit("\r\n");
    }
    assert(crlf_chars@ =~= crlf());
    match find_in(text, &k, 0) {
        None => None,
        Some(i) => {
            proof {
                crate::split::lemma_find_from(text@, k@, 0);
            }
            let tl = text.len();
            assert(i + k@.len() <= tl);
            let start = i + k.len();
            match find_in(text, &crlf_chars, start) {
                None => None,
                Some(j) => {
                    proof {
                        crate::split::lemma_find_from(text@, crlf(), start as int);
                    }
                    Some((start, j))
                },
            }
        },
    }
}

/// The strings made of the pieces in `v`.
fn strings_of(v: &Vec<Vec<char>>) -> (r: Vec<String>)
    ensures
        strings_view(r@) == pieces_view(v@),
{
    let mut r: Vec<String> = Vec::new();
    let mut i: usize = 0;
    while i < v.len()
        invariant
            i <= v@.len(),
            r@.len() == i,
            strings_view(r@) == pieces_view(v@).take(i as int),
        decreases v@.len() - i,
    {
        let ghost before = r@;
        r.push(string_from_chars(&v[i]));
        assert(r@[i as int]@ == v@[i as int]@);
        assert(forall|j: int| 0 <= j < i ==> r@[j] == before[j]);
        i = i + 1;
        assert(strings_view(r@) =~= pieces_view(v@).take(i as int));
    }
    assert(pieces_view(v@).take(v@.len() as int) =~= pieces_view(v@));
    r
}

impl PatchEntry {
    /// Reads the patch that `line` describes.
    fn from_line(line: &Vec<char>, patch_type: PatchListType) -> (r: PatchEntry)
        requires
            valid_entry_line(line@, patch_type),
        ensures
            r@ == parse_entry(line@, patch_type),
    {
        let tab_chars = chars_of("\t");
        proof {
            reveal_strlit("\t");
        }
        assert(tab_chars@ =~= tab());
        let f = split_chars(line, &tab_chars);
        assert(pieces_view(f@) == entry_fields(line@));
        assert(forall|i: int| 0 <= i < f@.len() ==> f@[i]@ == entry_fields(line@)[i]);
        assert(f@[0]@.subrange(0, f@[0]@.len() as int) =~= f@[0]@);
        assert(f@[1]@.subrange(0, f@[1]@.len() as int) =~= f@[1]@);
        let length = parse_i64_in(&f[0], 0, f[0].len()).unwrap();
        let size_on_disk = parse_i64_in(&f[1], 0, f[1].len()).unwrap();
        if patch_type == PatchListType::Boot {
            let r = PatchEntry {
                url: string_from_chars(&f[5]),
                version: string_from_chars(&f[4]),
                hash_block_size: 0,
                length,
                size_on_disk,
                hashes: Vec::new(),
                unknown_a: 0,
                unknown_b: 0,
            };
            assert(r@.hashes =~= Seq::<Seq<char>>::empty());
            assert(r@.url == parse_entry(line@, patch_type).url);
            assert(r@.version == parse_entry(line@, patch_type).version);
            assert(r@.length == parse_entry(line@, patch_type).length);
            r
        } else {
            assert(f@[2]@.subrange(0, f@[2]@.len() as int) =~= f@[2]@);
            assert(f@[3]@.subrange(0, f@[3]@.len() as int) =~= f@[3]@);
            assert(f@[6]@.subrange(0, f@[6]@.len() as int) =~= f@[6]@);
            let comma_chars = chars_of(",");
            proof {
                reveal_strlit(",");
            }
            assert(comma_chars@ =~= comma());
            let pieces = split_chars(&f[7], &comma_chars);
            let hashes = strings_of(&pieces);
            assert(strings_view(hashes@) == split(f@[7]@, comma()));
            let r = PatchEntry {
                url: string_from_chars(&f[8]),
                version: string_from_chars(&f[4]),
                hash_block_size: parse_i64_in(&f[6], 0, f[6].len()).unwrap(),
                length,
                size_on_disk,
                hashes,
                unknown_a: parse_i32_in(&f[2], 0, f[2].len()).unwrap(),
                unknown_b: parse_i32_in(&f[3], 0, f[3].len()).unwrap(),
            };
            r
        }
    }
}

/// Appends the hashes joined by commas to `out`.
fn push_hashes(out: &mut Vec<char>, hashes: &Vec<String>)
    requires
        hashes@.len() > 0,
    ensures
        final(out)@ == old(out)@ + join_hashes(strings_view(hashes@)),
{
    let ghost hs = strings_view(hashes@);
    let ghost before_hashes = out@;
    push_str(out, hashes[0].as_str());
    let mut h: usize = 1;
    assert(hs.take(1) =~= seq![hs[0]]);
    assert(join_hashes(hs.take(1)) == hs[0]);
    while h < hashes.len()
        invariant
            1 <= h <= hs.len(),
            hs == strings_view(hashes@),
            out@ == before_hashes + join_hashes(hs.take(h as int)),
        decreases hs.len() - h,
    {
        push_str(out, ",");
        proof {
            reveal_strlit(",");
        }
        push_str(out, hashes[h].as_str());
        assert(hs.take(h + 1).drop_last() =~= hs.take(h as int));
        h = h + 1;
        assert(out@ =~= before_hashes + join_hashes(hs.take(h as int)));
    }
    assert(hs.take(hs.len() as int) =~= hs);
}

/// Appends the line of one patch, with its line separator, to `out`.
fn push_entry_line(out: &mut Vec<char>, patch: &PatchEntry, patch_type: PatchListType)
    requires
        patch_type == PatchListType::Game ==> patch@.hashes.len() > 0,
    ensures
        final(out)@ == old(out)@ + entry_line(patch@, patch_type) + crlf(),
{
    proof {
        reveal_strlit("\t");
        reveal_strlit("\r\n");
        reveal_strlit("sha1");
    }
    let ghost before = out@;
    push_i64(out, patch.length);
    push_str(out, "\t");
    push_i64(out, patch.size_on_disk);
    push_str(out, "\t");
    push_i64(out, patch.unknown_a as i64);
    push_str(out, "\t");
    push_i64(out, patch.unknown_b as i64);
    push_str(out, "\t");
    push_str(out, patch.version.as_str());
    push_str(out, "\t");
    let ghost mid = out@;
    if patch_type == PatchListType::Game {
        push_str(out, "sha1");
        push_str(out, "\t");
        push_i64(out, patch.hash_block_size);
        push_str(out, "\t");
        push_hashes(out, &patch.hashes);
        push_str(out, "\t");
    }
    assert(out@ =~= mid + (if patch_type == PatchListType::Game {
        sha1_name() + tab() + fmt_int(patch.hash_block_size as int) + tab() + join_hashes(
            patch@.hashes,
        ) + tab()
    } else {
        Seq::empty()
    }));
    push_str(out, patch.url.as_str());
    push_str(out, "\r\n");
    assert(out@ =~= before + entry_line(patch@, patch_type) + crlf());
}

impl PatchList {
    /// Reads a patch list of kind `patch_type` from its text.
    pub fn from_string(patch_type: PatchListType, encoded: &str) -> (r: Self)
        requires
            valid_patch_list_text(encoded@, patch_type),
        ensures
            r@ == parse_patch_list(encoded@, patch_type),
    {
        let text = chars_of(encoded);
        let mut patch_length: u64 = 0;
        match find_header(&text, "X-Patch-Length: ") {
            Some((a, b)) => {
                match parse_u64_in(&text, a, b) {
                    Some(p) => {
                        patch_length = p;
                    },
                    None => {},
                }
            },
            None => {},
        }
        let mut content_location = String::new();
        match find_header(&text, "Content-Location: ") {
            Some((a, b)) => {
                content_location = string_from_chars(&sub_chars(&text, a, b));
            },
            None => {},
        }
        let crlf_chars = chars_of("\r\n");
        proof {
            reveal_strlit("\r\n");
        }
        assert(crlf_chars@ =~= crlf());
        let parts = split_chars(&text, &crlf_chars);
        let ghost lines = text_lines(text@);
        assert(pieces_view(parts@) == lines);
        let mut patches: Vec<PatchEntry> = Vec::new();
        let end = parts.len() - 2;
        let mut i: usize = 5;
        while i < end
            invariant
                5 <= i,
                end == lines.len() - 2,
                end >= 5 ==> i <= end,
                end < 5 ==> i == 5,
                lines == text_lines(encoded@),
                text@ == encoded@,
                pieces_view(parts@) == lines,
                valid_patch_list_text(encoded@, patch_type),
                patches@.len() == i - 5,
                forall|k: int|
                    0 <= k < patches@.len() ==> #[trigger] patches@[k]@ == parse_entry(
                        lines[k + 5],
                        patch_type,
                    ),
            decreases end - i,
        {
            assert(parts@[i as int]@ == lines[i as int]);
            assert(valid_entry_line(lines[i as int], patch_type));
            patches.push(PatchEntry::from_line(&parts[i], patch_type));
            i = i + 1;
        }
        assert(lines.len() >= 7 ==> i == end);
        assert(lines.len() >= 7 ==> patches@.len() == lines.len() - 7);
        assert(patches@.len() == entry_count(encoded@));
        let r = Self {
            id: String::new(),
            content_location,
            requested_version: String::new(),
            patch_length,
            patches,
        };
        assert(r@.patches =~= parse_patch_list(encoded@, patch_type).patches);
        r
    }

    /// Writes the patch list as text, laid out for kind `patch_type`.
    pub fn to_string(&self, patch_type: PatchListType) -> (r: String)
        requires
            patch_type == PatchListType::Game ==> forall|i: int|
                0 <= i < self@.patches.len() ==> (#[trigger] self@.patches[i]).hashes.len() > 0,
        ensures
            r@ == patch_list_text(self@, patch_type),
    {
        let mut out: Vec<char> = Vec::new();
        push_str(&mut out, "--");
        push_str(&mut out, self.id.as_str());
        push_str(&mut out, "\r\n");
        push_str(&mut out, "Content-Type: application/octet-stream");
        push_str(&mut out, "\r\n");
        push_str(&mut out, "Content-Location: ");
        push_str(&mut out, self.content_location.as_str());
        push_str(&mut out, "\r\n");
        push_str(&mut out, "X-Patch-Length: ");
        push_nat(&mut out, self.patch_length);
        push_str(&mut out, "\r\n");
        push_str(&mut out, "\r\n");
        proof {
            reveal_strlit("--");
            reveal_strlit("\r\n");
        }
        let ghost header = out@;
        let ghost ps = self@.patches;
        let mut i: usize = 0;
        while i < self.patches.len()
            invariant
                i <= ps.len(),
                ps == self@.patches,
                out@ == header + entries_text(ps.take(i as int), patch_type),
                patch_type == PatchListType::Game ==> forall|j: int|
                    0 <= j < ps.len() ==> (#[trigger] ps[j]).hashes.len() > 0,
            decreases ps.len() - i,
        {
            let patch = &self.patches[i];
            assert(patch@ == ps[i as int]);
            let ghost before = out@;
            push_entry_line(&mut out, patch, patch_type);
            assert(ps.take(i + 1).drop_last() =~= ps.take(i as int));
            proof {
                reveal_strlit("\r\n");
            }
            i = i + 1;
        }
        assert(ps.take(ps.len() as int) =~= ps);
        push_str(&mut out, "--");
        push_str(&mut out, self.id.as_str());
        push_str(&mut out, "--");
        push_str(&mut out, "\r\n");
        assert(out@ =~= patch_list_text(self@, patch_type));
        string_from_chars(&out)
    }

    /// Size of all the patch files (in bytes.)
    pub fn total_size_downloaded(&self) -> (r: i64)
        requires
            lengths_fit(self@.patches),
        ensures
            r == total_length(self@.patches),
    {
        let ghost ps = self@.patches;
        let mut size: i64 = 0;
        let mut i: usize = 0;
        assert(ps.take(0) =~= Seq::<PatchEntryView>::empty());
        while i < self.patches.len()
            invariant
                i <= ps.len(),
                ps == self@.patches,
                lengths_fit(ps),
                size == total_length(ps.take(i as int)),
            decreases ps.len() - i,
        {
            assert(ps.take(i + 1).drop_last() =~= ps.take(i as int));
            assert(i64::MIN <= total_length(ps.take(i + 1)) <= i64::MAX);
            size = size + self.patches[i].length;
            i = i + 1;
        }
        assert(ps.take(ps.len() as int) =~= ps);
        size
    }
}


// ---------------------------------------------------------------------------
// Reading back what was written.
// ---------------------------------------------------------------------------

/// Whether `s` holds a line separator at `j`.
pub open spec fn crlf_at(s: Seq<char>, j: int) -> bool {
    s[j] == '\r' && s[j + 1] == '\n'
}

/// Whether `s` holds no line separator.
pub open spec fn no_crlf(s: Seq<char>) -> bool {
    forall|j: int| 0 <= j < s.len() - 1 ==> !#[trigger] crlf_at(s, j)
}

/// Whether a patch of a list of kind `t` reads back from its line: its version and URL hold
/// no line separator and no tab, and for a game patch list it has hashes, none of which holds
/// a line separator, a tab or a comma.
pub open spec fn entry_writable(e: PatchEntryView, t: PatchListType) -> bool {
    &&& no_crlf(e.version)
    &&& no_crlf(e.url)
    &&& lacks(e.version, '\t')
    &&& lacks(e.url, '\t')
    &&& t == PatchListType::Game ==> {
        &&& e.hashes.len() > 0
        &&& forall|k: int|
            0 <= k < e.hashes.len() ==> no_crlf(#[trigger] e.hashes[k]) && lacks(e.hashes[k], '\t')
                && lacks(e.hashes[k], ',')
    }
}

/// What reading a patch back from its line in a list of kind `t` gives: the patch itself for
/// a game patch list; for a boot patch list, whose lines leave them out, without its hash
/// block size, hashes and unknown fields.
pub open spec fn entry_read_back(e: PatchEntryView, t: PatchListType) -> PatchEntryView {
    if t == PatchListType::Game {
        e
    } else {
        PatchEntryView { hash_block_size: 0, hashes: Seq::empty(), unknown_a: 0, unknown_b: 0, ..e }
    }
}

/// What reading a patch list back from its text gives: no id and no requested version, which
/// the text leaves out; the same patch length and content location; and each patch read back
/// from its line.
pub open spec fn patch_list_read_back(pl: PatchListView, t: PatchListType) -> PatchListView {
    PatchListView {
        id: Seq::empty(),
        patch_length: pl.patch_length,
        content_location: pl.content_location,
        requested_version: Seq::empty(),
        patches: Seq::new(pl.patches.len(), |i: int| entry_read_back(pl.patches[i], t)),
    }
}

/// The fields of a patch line, in order.
pub open spec fn entry_fields_of(e: PatchEntryView, t: PatchListType) -> Seq<Seq<char>> {
    let head = seq![
        fmt_int(e.length as int),
        fmt_int(e.size_on_disk as int),
        fmt_int(e.unknown_a as int),
        fmt_int(e.unknown_b as int),
        e.version,
    ];
    if t == PatchListType::Game {
        head + seq![sha1_name(), fmt_int(e.hash_block_size as int), join_hashes(e.hashes), e.url]
    } else {
        head + seq![e.url]
    }
}

/// The lines of the patches, without their separators.
pub open spec fn entry_lines(ps: Seq<PatchEntryView>, t: PatchListType) -> Seq<Seq<char>> {
    Seq::new(ps.len(), |i: int| entry_line(ps[i], t))
}

/// The lines of the text of a patch list; the empty one after the last separator ends it.
pub open spec fn list_lines(pl: PatchListView, t: PatchListType) -> Seq<Seq<char>> {
    seq![
        dashes() + pl.id,
        content_type_line(),
        content_location_key() + pl.content_location,
        patch_length_key() + fmt_int(pl.patch_length as int),
        Seq::<char>::empty(),
    ] + entry_lines(pl.patches, t) + seq![
        dashes() + pl.id + dashes(),
        Seq::<char>::empty(),
    ]
}

/// The decimal text of a number holds only digits and a leading minus sign.
proof fn lemma_fmt_int_chars(v: int)
    ensures
        forall|j: int|
            0 <= j < fmt_int(v).len() ==> crate::decimal::is_digit(#[trigger] fmt_int(v)[j])
                || fmt_int(v)[j] == '-',
        fmt_int(v).len() > 0,
{
    if v < 0 {
        crate::decimal::lemma_fmt_nat((-v) as nat);
        let s = fmt_int(v);
        assert forall|j: int| 0 <= j < s.len() implies crate::decimal::is_digit(#[trigger] s[j])
            || s[j] == '-' by {
            if j > 0 {
                assert(s[j] == crate::decimal::fmt_nat((-v) as nat)[j - 1]);
            }
        }
    } else {
        crate::decimal::lemma_fmt_nat(v as nat);
    }
}

/// Joining pieces that hold no line separator with a character other than `\r` and `\n`
/// gives text that holds none.
proof fn lemma_join_no_crlf(ps: Seq<Seq<char>>, sep: char)
    requires
        sep != '\r',
        sep != '\n',
        forall|j: int| 0 <= j < ps.len() ==> no_crlf(#[trigger] ps[j]),
    ensures
        no_crlf(join_with(ps, seq![sep])),
    decreases ps.len(),
{
    if ps.len() > 1 {
        lemma_join_no_crlf(ps.drop_last(), sep);
        let a = join_with(ps.drop_last(), seq![sep]);
        let b = ps.last();
        let s = a + seq![sep] + b;
        assert(s == join_with(ps, seq![sep]));
        assert forall|j: int| 0 <= j < s.len() - 1 implies !#[trigger] crlf_at(s, j) by {
            if j < a.len() - 1 {
                assert(s[j] == a[j] && s[j + 1] == a[j + 1]);
                assert(!crlf_at(a, j));
            } else if j > a.len() {
                assert(s[j] == b[j - a.len() - 1] && s[j + 1] == b[j - a.len()]);
                assert(!crlf_at(b, j - a.len() - 1));
            }
        }
    } else if ps.len() == 1 {
        assert(ps[0] == join_with(ps, seq![sep]));
    }
}

/// Joining pieces that lack a character with another character gives text that lacks it.
proof fn lemma_join_lacks(ps: Seq<Seq<char>>, sep: char, c: char)
    requires
        sep != c,
        forall|j: int| 0 <= j < ps.len() ==> lacks(#[trigger] ps[j], c),
    ensures
        lacks(join_with(ps, seq![sep]), c),
    decreases ps.len(),
{
    if ps.len() > 1 {
        lemma_join_lacks(ps.drop_last(), sep, c);
        let a = join_with(ps.drop_last(), seq![sep]);
        let b = ps.last();
        let s = a + seq![sep] + b;
        assert(s == join_with(ps, seq![sep]));
        assert forall|j: int| 0 <= j < s.len() implies s[j] != c by {
            if j < a.len() {
                assert(s[j] == a[j]);
            } else if j > a.len() {
                assert(s[j] == b[j - a.len() - 1]);
            }
        }
    } else if ps.len() == 1 {
        assert(ps[0] == join_with(ps, seq![sep]));
    }
}

/// Text followed by text holds no line separator where neither does, and the first does not
/// end in `\r` where the second starts with `\n`.
proof fn lemma_no_crlf_concat(a: Seq<char>, b: Seq<char>)
    requires
        no_crlf(a),
        no_crlf(b),
        a.len() > 0 && b.len() > 0 ==> !(a.last() == '\r' && b[0] == '\n'),
    ensures
        no_crlf(a + b),
{
    let s = a + b;
    assert forall|j: int| 0 <= j < s.len() - 1 implies !#[trigger] crlf_at(s, j) by {
        if j < a.len() - 1 {
            assert(s[j] == a[j] && s[j + 1] == a[j + 1]);
            assert(!crlf_at(a, j));
        } else if j >= a.len() {
            assert(s[j] == b[j - a.len()] && s[j + 1] == b[j - a.len() + 1]);
            assert(!crlf_at(b, j - a.len()));
        } else {
            assert(s[j] == a.last() && s[j + 1] == b[0]);
        }
    }
}

/// A patch line is its fields joined by tabs.
proof fn lemma_entry_line_fields(e: PatchEntryView, t: PatchListType)
    ensures
        entry_line(e, t) == join_with(entry_fields_of(e, t), tab()),
{
    reveal_with_fuel(join_with, 10);
    let f = entry_fields_of(e, t);
    if t == PatchListType::Game {
        assert(f.drop_last().drop_last().drop_last().drop_last().drop_last().drop_last().drop_last().drop_last() =~= seq![fmt_int(e.length as int)]);
    } else {
        assert(f.drop_last().drop_last().drop_last().drop_last().drop_last() =~= seq![fmt_int(e.length as int)]);
    }
    assert(entry_line(e, t) =~= join_with(f, tab()));
}


/// Joining one more piece appends `sep` and the piece.
proof fn lemma_join_push(ps: Seq<Seq<char>>, x: Seq<char>, sep: Seq<char>)
    requires
        ps.len() > 0,
    ensures
        join_with(ps.push(x), sep) == join_with(ps, sep) + sep + x,
{
    assert(ps.push(x).drop_last() =~= ps);
}

/// The lines of patches are their lines joined by separators, with one more at the end.
proof fn lemma_entries_join(ps: Seq<PatchEntryView>, t: PatchListType)
    requires
        ps.len() > 0,
    ensures
        entries_text(ps, t) == join_with(entry_lines(ps, t), crlf()) + crlf(),
    decreases ps.len(),
{
    let ls = entry_lines(ps, t);
    if ps.len() == 1 {
        assert(ps.drop_last() =~= Seq::<PatchEntryView>::empty());
        assert(entries_text(ps.drop_last(), t) == Seq::<char>::empty());
        assert(ls[0] == entry_line(ps[0], t));
        assert(join_with(ls, crlf()) == ls[0]);
        assert(entries_text(ps, t) =~= join_with(ls, crlf()) + crlf());
    } else {
        lemma_entries_join(ps.drop_last(), t);
        assert(ls.drop_last() =~= entry_lines(ps.drop_last(), t));
        assert(ls =~= ls.drop_last().push(entry_line(ps.last(), t)));
        lemma_join_push(ls.drop_last(), entry_line(ps.last(), t), crlf());
        assert(entries_text(ps, t) =~= join_with(ls, crlf()) + crlf());
    }
}

/// The text of a patch list is its lines joined by separators.
#[verifier::rlimit(30)]
proof fn lemma_text_lines(pl: PatchListView, t: PatchListType)
    ensures
        patch_list_text(pl, t) == join_with(list_lines(pl, t), crlf()),
{
    let l0 = dashes() + pl.id;
    let l1 = content_type_line();
    let l2 = content_location_key() + pl.content_location;
    let l3 = patch_length_key() + fmt_int(pl.patch_length as int);
    let l4 = Seq::<char>::empty();
    let h1 = seq![l0];
    let h2 = h1.push(l1);
    let h3 = h2.push(l2);
    let h4 = h3.push(l3);
    let h = h4.push(l4);
    lemma_join_push(h1, l1, crlf());
    lemma_join_push(h2, l2, crlf());
    lemma_join_push(h3, l3, crlf());
    lemma_join_push(h4, l4, crlf());
    let jh = join_with(h, crlf());
    assert(jh == l0 + crlf() + l1 + crlf() + l2 + crlf() + l3 + crlf() + l4);
    let f0 = dashes() + pl.id + dashes();
    let f = seq![f0].push(Seq::<char>::empty());
    lemma_join_push(seq![f0], Seq::<char>::empty(), crlf());
    let jf = join_with(f, crlf());
    assert(jf == f0 + crlf() + Seq::<char>::empty());
    let e = entry_lines(pl.patches, t);
    assert(list_lines(pl, t) =~= h + e + f);
    if pl.patches.len() == 0 {
        assert(e =~= Seq::<Seq<char>>::empty());
        assert(h + e + f =~= h + f);
        crate::split::lemma_join_append(h, f, crlf());
        assert(patch_list_text(pl, t) =~= jh + crlf() + jf);
    } else {
        crate::split::lemma_join_append(h, e, crlf());
        crate::split::lemma_join_append(h + e, f, crlf());
        lemma_entries_join(pl.patches, t);
        assert(patch_list_text(pl, t) =~= jh + crlf() + join_with(e, crlf()) + crlf() + jf);
    }
}

/// In lines joined by separators, where no line holds a separator, a separator starts
/// within no line; splitting the text at the separators gives the lines back.
proof fn lemma_split_lines(ps: Seq<Seq<char>>)
    requires
        ps.len() > 0,
        forall|j: int| 0 <= j < ps.len() ==> no_crlf(#[trigger] ps[j]),
    ensures
        forall|j: int|
            0 <= j < ps.len() ==> no_match_in(
                join_with(ps, crlf()),
                crlf(),
                #[trigger] piece_start(ps, crlf(), j),
                piece_start(ps, crlf(), j) + ps[j].len(),
            ),
        split(join_with(ps, crlf()), crlf()) == ps,
{
    let s = join_with(ps, crlf());
    let n = ps.len() as int;
    assert forall|j: int| 0 <= j < n implies no_match_in(
        s,
        crlf(),
        #[trigger] piece_start(ps, crlf(), j),
        piece_start(ps, crlf(), j) + ps[j].len(),
    ) by {
        crate::split::lemma_join_layout(ps, crlf(), j);
        let a = piece_start(ps, crlf(), j);
        let l = ps[j].len() as int;
        assert forall|k: int| a <= k < a + l implies !#[trigger] matches_at(s, crlf(), k) by {
            if matches_at(s, crlf(), k) {
                assert(s.subrange(k, k + 2)[0] == s[k]);
                assert(s.subrange(k, k + 2)[1] == s[k + 1]);
                assert(s.subrange(a, a + l)[k - a] == s[k]);
                if k + 1 < a + l {
                    assert(s.subrange(a, a + l)[k + 1 - a] == s[k + 1]);
                    assert(crlf_at(ps[j], k - a));
                } else {
                    assert(j < n - 1);
                    assert(s.subrange(a + l, a + l + 2)[0] == s[k + 1]);
                }
            }
        }
    }
    let a = piece_start(ps, crlf(), n - 1);
    crate::split::lemma_join_layout(ps, crlf(), n - 1);
    assert(no_match_in(s, crlf(), a, a + ps[n - 1].len()));
    assert forall|k: int| a <= k < s.len() + 1 implies !#[trigger] matches_at(s, crlf(), k) by {
        if a + ps[n - 1].len() <= k {
            assert(k + 2 > s.len());
        }
    }
    crate::split::lemma_split_join(ps, crlf());
}


/// In lines joined by separators, a key that holds neither `\r` nor `\n` starts nowhere
/// before line `m` where none of the lines before it holds it.
proof fn lemma_no_key_in_lines(ps: Seq<Seq<char>>, key: Seq<char>, m: int)
    requires
        key.len() > 0,
        lacks(key, '\r'),
        lacks(key, '\n'),
        0 <= m < ps.len(),
        forall|j: int| 0 <= j < m ==> find(#[trigger] ps[j], key) is None,
    ensures
        no_match_in(join_with(ps, crlf()), key, 0, piece_start(ps, crlf(), m)),
    decreases m,
{
    if m > 0 {
        lemma_no_key_in_lines(ps, key, m - 1);
        let s = join_with(ps, crlf());
        let a = piece_start(ps, crlf(), m - 1);
        let p = ps[m - 1];
        let l = p.len() as int;
        crate::split::lemma_join_layout(ps, crlf(), m - 1);
        crate::split::lemma_find_from(p, key, 0);
        assert forall|k: int| a <= k < piece_start(ps, crlf(), m) implies !#[trigger] matches_at(
            s,
            key,
            k,
        ) by {
            if matches_at(s, key, k) {
                if k + key.len() <= a + l {
                    assert(s.subrange(k, k + key.len()) =~= p.subrange(k - a, k - a + key.len()));
                    assert(matches_at(p, key, k - a));
                } else if k < a + l {
                    assert(s.subrange(k, k + key.len())[a + l - k] == s[a + l]);
                    assert(s.subrange(a + l, a + l + 2)[0] == s[a + l]);
                    assert(key[a + l - k] == '\r');
                } else if k == a + l {
                    assert(s.subrange(k, k + key.len())[0] == s[k]);
                    assert(s.subrange(a + l, a + l + 2)[0] == s[k]);
                    assert(key[0] == '\r');
                } else {
                    assert(s.subrange(k, k + key.len())[0] == s[k]);
                    assert(s.subrange(a + l, a + l + 2)[1] == s[k]);
                    assert(key[0] == '\n');
                }
            }
        }
    }
}

/// Text holds a key nowhere where its first part lacks the key's first character and its
/// second part holds the key nowhere.
proof fn lemma_find_none_concat(a: Seq<char>, b: Seq<char>, key: Seq<char>)
    requires
        key.len() > 0,
        lacks(a, key[0]),
        find(b, key) is None,
    ensures
        find(a + b, key) is None,
{
    let s = a + b;
    crate::split::lemma_find_from(b, key, 0);
    assert forall|k: int| 0 <= k < s.len() + 1 implies !#[trigger] matches_at(s, key, k) by {
        if matches_at(s, key, k) {
            assert(s.subrange(k, k + key.len())[0] == s[k]);
            if k < a.len() {
                assert(s[k] == a[k]);
            } else {
                assert(s.subrange(k, k + key.len()) =~= b.subrange(
                    k - a.len(),
                    k - a.len() + key.len(),
                ));
                assert(matches_at(b, key, k - a.len()));
            }
        }
    }
    crate::split::lemma_find_none(s, key, 0);
}

/// The header `key` of lines joined by separators, where line `m` is the first to hold it and
/// holds it at its start, is the rest of that line.
proof fn lemma_header_in_lines(ps: Seq<Seq<char>>, key: Seq<char>, m: int)
    requires
        key.len() > 0,
        lacks(key, '\r'),
        lacks(key, '\n'),
        0 <= m < ps.len() - 1,
        forall|j: int| 0 <= j < m ==> find(#[trigger] ps[j], key) is None,
        key.len() <= ps[m].len(),
        ps[m].subrange(0, key.len() as int) == key,
        forall|j: int| 0 <= j < ps.len() ==> no_crlf(#[trigger] ps[j]),
    ensures
        header_value(join_with(ps, crlf()), key) == Some(
            ps[m].subrange(key.len() as int, ps[m].len() as int),
        ),
{
    let s = join_with(ps, crlf());
    let a = piece_start(ps, crlf(), m);
    let l = ps[m].len() as int;
    crate::split::lemma_join_layout(ps, crlf(), m);
    lemma_no_key_in_lines(ps, key, m);
    assert(s.subrange(a, a + key.len()) =~= ps[m].subrange(0, key.len() as int));
    crate::split::lemma_find_first(s, key, 0, a);
    lemma_split_lines(ps);
    assert(no_match_in(s, crlf(), a, a + l));
    crate::split::lemma_find_first(s, crlf(), a + key.len(), a + l);
    assert(s.subrange(a + key.len(), a + l) =~= ps[m].subrange(key.len() as int, l));
}


/// Text of only digits and minus signs holds no line separator, no tab and no comma.
proof fn lemma_fmt_int_plain(v: int)
    ensures
        no_crlf(fmt_int(v)),
        lacks(fmt_int(v), '\t'),
        lacks(fmt_int(v), ','),
        lacks(fmt_int(v), '\r'),
{
    lemma_fmt_int_chars(v);
    let f = fmt_int(v);
    assert forall|j: int| 0 <= j < f.len() - 1 implies !#[trigger] crlf_at(f, j) by {
        assert(crate::decimal::is_digit(f[j]) || f[j] == '-');
    }
    assert forall|j: int| 0 <= j < f.len() implies f[j] != '\r' && f[j] != '\t' && f[j] != ',' by {
        assert(crate::decimal::is_digit(f[j]) || f[j] == '-');
    }
}

/// A writable patch's line holds no line separator, is a valid line, and reads back.
proof fn lemma_entry_reads_back(e: PatchEntryView, t: PatchListType)
    requires
        entry_writable(e, t),
    ensures
        no_crlf(entry_line(e, t)),
        valid_entry_line(entry_line(e, t), t),
        parse_entry(entry_line(e, t), t) == entry_read_back(e, t),
{
    reveal_strlit("sha1");
    let f = entry_fields_of(e, t);
    lemma_entry_line_fields(e, t);
    lemma_fmt_int_plain(e.length as int);
    lemma_fmt_int_plain(e.size_on_disk as int);
    lemma_fmt_int_plain(e.unknown_a as int);
    lemma_fmt_int_plain(e.unknown_b as int);
    lemma_fmt_int_plain(e.hash_block_size as int);
    let sha = sha1_name();
    assert(no_crlf(sha)) by {
        assert forall|j: int| 0 <= j < sha.len() - 1 implies !#[trigger] crlf_at(sha, j) by {}
    }
    assert(lacks(sha, '\t'));
    if t == PatchListType::Game {
        lemma_join_no_crlf(e.hashes, ',');
        lemma_join_lacks(e.hashes, ',', '\t');
        assert forall|k: int| 0 <= k < e.hashes.len() implies lacks(#[trigger] e.hashes[k], ',') by {}
        crate::split::lemma_split_join_char(e.hashes, ',');
        assert(join_hashes(e.hashes) == join_with(e.hashes, seq![',']));
    }
    assert forall|j: int| 0 <= j < f.len() implies no_crlf(#[trigger] f[j]) && lacks(f[j], '\t') by {
        if t == PatchListType::Game {
            assert(j < 9);
        } else {
            assert(j < 6);
        }
    }
    lemma_join_no_crlf(f, '\t');
    assert forall|j: int| 0 <= j < f.len() implies lacks(#[trigger] f[j], '\t') by {}
    crate::split::lemma_split_join_char(f, '\t');
    assert(entry_fields(entry_line(e, t)) == f);
    crate::decimal::law_parse_fmt_i64(e.length);
    crate::decimal::law_parse_fmt_i64(e.size_on_disk);
    crate::decimal::law_parse_fmt_i32(e.unknown_a);
    crate::decimal::law_parse_fmt_i32(e.unknown_b);
    crate::decimal::law_parse_fmt_i64(e.hash_block_size);
    assert(parse_entry(entry_line(e, t), t) == entry_read_back(e, t));
}


/// A patch list read back from the text written for it has the same content location and
/// patches, each read back from its line (see `entry_read_back`), where its id and content
/// location hold no line separator, the id does not hold the content location header, and
/// each patch is writable (see `entry_writable`). Where neither the id nor the content location
/// holds the patch length header, the whole list reads back, but for what the text leaves out
/// (see `patch_list_read_back`).
#[verifier::rlimit(40)]
pub proof fn law_patch_list_round_trip(pl: PatchListView, t: PatchListType)
    requires
        no_crlf(pl.id),
        no_crlf(pl.content_location),
        find(pl.id, content_location_key()) is None,
        forall|i: int| 0 <= i < pl.patches.len() ==> entry_writable(#[trigger] pl.patches[i], t),
    ensures
        valid_patch_list_text(patch_list_text(pl, t), t),
        parse_patch_list(patch_list_text(pl, t), t).patches == patch_list_read_back(pl, t).patches,
        parse_patch_list(patch_list_text(pl, t), t).content_location == pl.content_location,
        (find(pl.id, patch_length_key()) is None && find(pl.content_location, patch_length_key())
            is None) ==> parse_patch_list(patch_list_text(pl, t), t) == patch_list_read_back(pl, t),
{
    reveal_strlit("Content-Type: application/octet-stream");
    reveal_strlit("Content-Location: ");
    reveal_strlit("X-Patch-Length: ");
    let text = patch_list_text(pl, t);
    let ls = list_lines(pl, t);
    let ps = pl.patches;
    let m = ps.len() as int;
    let total = pl.patch_length as int;
    let ctl = content_type_line();
    let clk = content_location_key();
    let plk = patch_length_key();
    lemma_text_lines(pl, t);
    // every line holds no line separator
    assert(no_crlf(dashes())) by {
        assert forall|j: int| 0 <= j < dashes().len() - 1 implies !#[trigger] crlf_at(dashes(), j) by {}
    }
    lemma_no_crlf_concat(dashes(), pl.id);
    lemma_no_crlf_concat(dashes() + pl.id, dashes());
    assert(no_crlf(ctl)) by {
        assert forall|j: int| 0 <= j < ctl.len() - 1 implies !#[trigger] crlf_at(ctl, j) by {}
    }
    assert(no_crlf(clk)) by {
        assert forall|j: int| 0 <= j < clk.len() - 1 implies !#[trigger] crlf_at(clk, j) by {}
    }
    assert(no_crlf(plk)) by {
        assert forall|j: int| 0 <= j < plk.len() - 1 implies !#[trigger] crlf_at(plk, j) by {}
    }
    lemma_no_crlf_concat(clk, pl.content_location);
    lemma_fmt_int_plain(total);
    lemma_no_crlf_concat(plk, fmt_int(total));
    assert forall|i: int| 0 <= i < m implies no_crlf(#[trigger] entry_line(ps[i], t)) && parse_entry(
        entry_line(ps[i], t),
        t,
    ) == entry_read_back(ps[i], t) && valid_entry_line(entry_line(ps[i], t), t) by {
        lemma_entry_reads_back(ps[i], t);
    }
    assert forall|j: int| 0 <= j < ls.len() implies no_crlf(#[trigger] ls[j]) by {
        if 5 <= j < 5 + m {
            assert(ls[j] == entry_line(ps[j - 5], t));
        }
    }
    lemma_split_lines(ls);
    assert(text_lines(text) == ls);
    assert(entry_count(text) == m);
    // the headers
    assert(lacks(dashes(), 'C'));
    assert(lacks(dashes(), 'X'));
    assert(lacks(ctl, 'X'));
    assert(lacks(clk, 'X'));
    assert(lacks(clk, '\r') && lacks(clk, '\n'));
    assert(lacks(plk, '\r') && lacks(plk, '\n'));
    lemma_find_none_concat(dashes(), pl.id, clk);
    assert(find(ctl, clk) is None) by {
        assert forall|k: int| 0 <= k < ctl.len() + 1 implies !#[trigger] matches_at(ctl, clk, k) by {
            if matches_at(ctl, clk, k) {
                assert(ctl.subrange(k, k + 18)[0] == ctl[k]);
                assert(ctl.subrange(k, k + 18)[8] == ctl[k + 8]);
            }
        }
        crate::split::lemma_find_none(ctl, clk, 0);
    }
    assert(ls[0] == dashes() + pl.id);
    assert(ls[1] == ctl);
    assert(ls[2] == clk + pl.content_location);
    assert(ls[3] == plk + fmt_int(total));
    assert((clk + pl.content_location).subrange(0, 18) =~= clk);
    assert((clk + pl.content_location).subrange(18, (clk + pl.content_location).len() as int)
        =~= pl.content_location);
    lemma_header_in_lines(ls, clk, 2);
    if find(pl.id, plk) is None && find(pl.content_location, plk) is None {
        lemma_find_none_concat(dashes(), pl.id, plk);
        crate::split::lemma_find_none(Seq::<char>::empty(), plk, 0);
        lemma_find_none_concat(ctl, Seq::<char>::empty(), plk);
        assert(ctl + Seq::<char>::empty() =~= ctl);
        lemma_find_none_concat(clk, pl.content_location, plk);
        assert((plk + fmt_int(total)).subrange(0, 16) =~= plk);
        assert((plk + fmt_int(total)).subrange(16, (plk + fmt_int(total)).len() as int)
            =~= fmt_int(total));
        lemma_header_in_lines(ls, plk, 3);
        // the patch length
        crate::decimal::law_parse_fmt_u64(pl.patch_length);
    }
    // the patches
    assert forall|i: int| 5 <= i < text_lines(text).len() - 2 implies valid_entry_line(
        #[trigger] text_lines(text)[i],
        t,
    ) by {
        assert(ls[i] == entry_line(ps[i - 5], t));
    }
    let got = parse_patch_list(text, t);
    let want = patch_list_read_back(pl, t);
    assert forall|i: int| 0 <= i < m implies got.patches[i] == want.patches[i] by {
        assert(ls[i + 5] == entry_line(ps[i], t));
    }
    assert(got.patches =~= want.patches);
}

} // verus!
