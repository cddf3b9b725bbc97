//! Standalone shader files (`.shcd`), used instead of a shader package.
use vstd::prelude::*;
use vstd::utf8::{decode_utf8, valid_utf8};
use crate::bytes::{read_u32, u32_at, Endian};
use crate::common::{platform_endian, Platform};
use crate::text::{trim_nul_chars, trim_nul_end, trim_nul_start};
use crate::text::{chars_of, string_from_chars, text_from_utf8};
use crate::ReadableFile;

verus! {

/// The stage a shader runs in.
#[derive(Debug, Clone, Copy, PartialEq, Eq, Structural)]
pub enum ShaderStage {
    /// The vertex stage.
    Vertex,
    /// The pixel stage.
    Pixel,
}

/// A standalone shader.
#[derive(Debug)]
pub struct SHCD {
    /// The version of the format.
    pub version: i32,
    /// The shader format, "DX9" or "DX11".
    pub format: String,
    /// The length of the file.
    pub file_length: u32,
    /// Where the shader is.
    pub shader_offset: u32,
    /// Where the parameters are.
    pub parameter_offset: u32,
    /// The stage the shader runs in.
    pub stage: ShaderStage,
    /// The length of the shader.
    pub shader_data_length: u32,
    /// DXBC bytecode.
    pub bytecode: Vec<u8>,
}

/// The bytes that start a shader file, "ShCd".
pub open spec fn shcd_magic() -> Seq<u8> {
    seq![0x53u8, 0x68u8, 0x43u8, 0x64u8]
}

/// Whether `b` has the fixed fields of a shader file of this byte order: the mark, then up to
/// the length of the shader, with a stage of 0 or 1, and the shader within it.
pub open spec fn shcd_in(b: Seq<u8>, endian: Endian) -> bool {
    &&& b.len() >= 32
    &&& b.subrange(0, 4) == shcd_magic()
    &&& (b[24] == 0 || b[24] == 1)
    &&& u32_at(b, 16, endian) + u32_at(b, 28, endian) <= b.len()
}

/// Whether `b` is a shader file of this byte order: it has the fixed fields (see `shcd_in`)
/// and its format is UTF-8 text.
pub open spec fn shcd_ok(b: Seq<u8>, endian: Endian) -> bool {
    shcd_in(b, endian) && valid_utf8(b.subrange(8, 12))
}

/// Whether `s` is what reading the shader file `b` of this byte order gives: the format is the
/// UTF-8 text of its four bytes without leading and trailing zero characters; the bytecode is
/// the shader at its offset; the other fields are the numbers at their places.
pub open spec fn shcd_read_as(b: Seq<u8>, endian: Endian, s: SHCD) -> bool {
    &&& s.version == u32_at(b, 4, endian) as i32
    &&& s.format@ == trim_nul_end(trim_nul_start(decode_utf8(b.subrange(8, 12))))
    &&& s.file_length == u32_at(b, 12, endian)
    &&& s.shader_offset == u32_at(b, 16, endian)
    &&& s.parameter_offset == u32_at(b, 20, endian)
    &&& s.stage == (if b[24] == 0 {
        ShaderStage::Vertex
    } else {
        ShaderStage::Pixel
    })
    &&& s.shader_data_length == u32_at(b, 28, endian)
    &&& s.bytecode@ == b.subrange(s.shader_offset as int, s.shader_offset + s.shader_data_length)
}

impl SHCD {
    /// Reads a shader file of this byte order; see `shcd_in`. The format is the UTF-8 text of
    /// its four bytes without leading and trailing zero characters; the bytecode is the shader
    /// at its offset.
    pub fn read(buffer: &[u8], endian: Endian) -> (r: Option<SHCD>)
        ensures
            r is Some <==> shcd_ok(buffer@, endian),
            r matches Some(s) ==> shcd_read_as(buffer@, endian, s),
    {
        let len = buffer.len();
        if len < 32 || buffer[0] != 0x53u8 || buffer[1] != 0x68u8 || buffer[2] != 0x43u8
            || buffer[3] != 0x64u8 {
            proof {
                if len >= 32 {
                    assert(buffer@.subrange(0, 4)[0] == buffer@[0]);
                    assert(buffer@.subrange(0, 4)[1] == buffer@[1]);
                    assert(buffer@.subrange(0, 4)[2] == buffer@[2]);
                    assert(buffer@.subrange(0, 4)[3] == buffer@[3]);
                }
            }
            return None;
        }
        assert(buffer@.subrange(0, 4) =~= shcd_magic());
        let stage = if buffer[24] == 0 {
            ShaderStage::Vertex
        } else if buffer[24] == 1 {
            ShaderStage::Pixel
        } else {
            return None;
        };
        let shader_offset = read_u32(buffer, 16, endian);
        let shader_data_length = read_u32(buffer, 28, endian);
        if shader_offset as usize > len || (len - shader_offset as usize) < shader_data_length as usize {
            return None;
        }
        let format_bytes: Vec<u8> = vec![buffer[8], buffer[9], buffer[10], buffer[11]];
        assert(format_bytes@ =~= buffer@.subrange(8, 12));
        let format_text = match text_from_utf8(format_bytes) {
            Some(t) => t,
            None => return None,
        };
        let format = string_from_chars(&trim_nul_chars(&chars_of(format_text.as_str())));
        let mut bytecode: Vec<u8> = Vec::new();
        let start = shader_offset as usize;
        let end = start + shader_data_length as usize;
        let mut k = start;
        while k < end
            invariant
                start <= k <= end,
                end <= buffer@.len(),
                bytecode@ == buffer@.subrange(start as int, k as int),
            decreases end - k,
        {
            bytecode.push(buffer[k]);
            k = k + 1;
            assert(bytecode@ =~= buffer@.subrange(start as int, k as int));
        }
        Some(
            SHCD {
                version: read_u32(buffer, 4, endian) as i32,
                format,
                file_length: read_u32(buffer, 12, endian),
                shader_offset,
                parameter_offset: read_u32(buffer, 20, endian),
                stage,
                shader_data_length,
                bytecode,
            },
        )
    }
}

impl ReadableFile for SHCD {
    open spec fn parses(platform: Platform, buffer: Seq<u8>) -> bool {
        shcd_ok(buffer, platform_endian(platform))
    }

    open spec fn read_as(platform: Platform, buffer: Seq<u8>, file: SHCD) -> bool {
        shcd_read_as(buffer, platform_endian(platform), file)
    }

    /// Reads a shader file in the byte order of `platform`; see `SHCD::read`.
    fn from_existing(platform: Platform, buffer: &[u8]) -> (r: Option<SHCD>) {
        SHCD::read(buffer, platform.endianness())
    }
}

} // verus!
