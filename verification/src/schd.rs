//! Shader files of the client's own format (`.schd`).
use vstd::prelude::*;
use vstd::utf8::valid_utf8;

verus! {

/// The stage a shader runs in.
#[derive(Debug, Clone, Copy, PartialEq, Eq, Structural)]
pub enum ShaderStage {
    /// The vertex stage.
    Vertex,
    /// The pixel stage.
    Pixel,
}

/// A shader file; nothing of it is kept yet but that its header reads.
#[derive(Debug)]
pub struct Schd {}

/// How many bytes the header of a shader file takes.
pub const SCHD_HEADER_SIZE: usize = 24;

/// Whether `b` starts with a shader file header: a number, a three-byte version, a stage of
/// 0 or 1, then four more numbers.
pub open spec fn schd_header_in(b: Seq<u8>) -> bool {
    b.len() >= SCHD_HEADER_SIZE && (b[7] == 0 || b[7] == 1)
}

/// Whether reading the header of `b` finds a version that is UTF-8, where it gets as far as
/// the version.
pub open spec fn schd_readable(b: Seq<u8>) -> bool {
    b.len() >= 7 ==> valid_utf8(b.subrange(4, 7))
}

impl Schd {
    /// Reads an existing shader file: `Some` where its header reads.
    pub fn from_existing(buffer: &[u8]) -> (r: Option<Schd>)
        requires
            schd_readable(buffer@),
        ensures
            r is Some <==> schd_header_in(buffer@),
    {
        if buffer.len() < SCHD_HEADER_SIZE {
            return None;
        }
        if buffer[7] != 0 && buffer[7] != 1 {
            return None;
        }
        Some(Schd {})
    }
}

} // verus!
