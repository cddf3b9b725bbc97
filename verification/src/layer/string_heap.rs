//! Strings and other data stored apart from the structures that refer to them, in a heap of a
//! file.
use vstd::prelude::*;
use vstd::string::StringSliceAdditionalSpecFns;
use crate::bytes::push_bytes;

verus! {

/// A string that exists in a different location in the file, usually a heap with a bunch of
/// other strings.
#[derive(Clone, Debug, PartialEq)]
pub struct HeapString {
    /// The text of the string.
    pub value: String,
}

/// A heap of a file that structures written before it refer into.
#[derive(Debug)]
pub struct StringHeap {
    /// Where the heap starts in the file.
    pub pos: u64,
    /// What the heap holds so far.
    pub bytes: Vec<u8>,
    /// Where the next thing written to the heap goes, from the heap's start.
    pub free_pos: u64,
}

/// How a string is stored: its UTF-8 bytes, then a zero byte.
pub open spec fn string_bytes(s: Seq<char>) -> Seq<u8> {
    vstd::utf8::encode_utf8(s).push(0u8)
}

/// The characters of a string stored at `i`: each byte up to the first zero byte read as the
/// character of that number.
pub open spec fn stored_string(b: Seq<u8>, i: int) -> Seq<char>
    decreases b.len() - i,
{
    if i < 0 || i >= b.len() || b[i] == 0 {
        seq![]
    } else {
        seq![b[i] as char] + stored_string(b, i + 1)
    }
}

/// Whether a zero byte ends the string stored at `i`.
pub open spec fn terminated_at(b: Seq<u8>, i: int) -> bool {
    exists|j: int| i <= j < b.len() && b[j] == 0
}

/// The bytes a string is stored as.
pub fn write_string(s: &String) -> (r: Vec<u8>)
    ensures
        r@ == string_bytes(s@),
{
    let mut out: Vec<u8> = Vec::new();
    push_bytes(&mut out, s.as_str().as_bytes());
    out.push(0u8);
    out
}

impl StringHeap {
    /// Creates an empty heap starting at `pos`.
    pub fn from(pos: u64) -> (r: Self)
        ensures
            r.pos == pos,
            r.bytes@.len() == 0,
            r.free_pos == 0,
    {
        Self { pos, bytes: Vec::new(), free_pos: 0 }
    }

    /// Appends `data`, the written form of something, to the heap and gives the offset it was
    /// written at, from the heap's start, as an `i32`.
    pub fn get_free_offset(&mut self, data: &[u8]) -> (r: i32)
        requires
            old(self).free_pos + data@.len() <= u64::MAX,
        ensures
            r == old(self).free_pos as i32,
            final(self).free_pos == old(self).free_pos + data@.len(),
            final(self).bytes@ == old(self).bytes@ + data@,
            final(self).pos == old(self).pos,
    {
        let old_pos = self.free_pos;
        self.free_pos = self.free_pos + data.len() as u64;
        push_bytes(&mut self.bytes, data);
        old_pos as i32
    }

    /// Appends the string `s`, with its terminating zero byte, to the heap and gives the
    /// offset it was written at.
    pub fn get_free_offset_string(&mut self, s: &String) -> (r: i32)
        requires
            old(self).free_pos + string_bytes(s@).len() <= u64::MAX,
        ensures
            r == old(self).free_pos as i32,
            final(self).free_pos == old(self).free_pos + string_bytes(s@).len(),
            final(self).bytes@ == old(self).bytes@ + string_bytes(s@),
            final(self).pos == old(self).pos,
    {
        let bytes = write_string(s);
        self.get_free_offset(bytes.as_slice())
    }

    /// Reads the string stored at `offset` in the heap, where `file` holds the file the heap
    /// is in: each byte up to the first zero byte, read as the character of that number.
    pub fn read_string(&self, file: &[u8], offset: u32) -> (r: String)
        requires
            self.pos + offset < file@.len(),
            terminated_at(file@, self.pos + offset),
        ensures
            r@ == stored_string(file@, self.pos + offset),
    {
        let len = file.len();
        let start = (self.pos + offset as u64) as usize;
        let mut chars: Vec<char> = Vec::new();
        let mut i: usize = start;
        assert(stored_string(file@, start as int) == chars@ + stored_string(file@, start as int));
        while file[i] != 0
            invariant
                start <= i < file@.len(),
                terminated_at(file@, i as int),
                stored_string(file@, start as int) == chars@ + stored_string(file@, i as int),
            decreases file@.len() - i,
        {
            let c = file[i] as char;
            let ghost before = chars@;
            chars.push(c);
            proof {
                let j = choose|j: int| i <= j < file@.len() && file@[j] == 0;
                assert(i + 1 <= j);
                assert(stored_string(file@, i as int) == seq![c] + stored_string(file@, i + 1));
                assert(chars@ + stored_string(file@, i + 1) =~= before + (seq![c] + stored_string(
                    file@,
                    i + 1,
                )));
            }
            i = i + 1;
        }
        crate::text::string_from_chars(&chars)
    }
}

} // verus!
