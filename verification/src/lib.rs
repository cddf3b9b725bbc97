//! Reading and writing the file formats of a game's data files: SHA-1 hashing, patch lists
//! and the chunks of patch files, races, repositories and game directories, save data,
//! shader packages, vertex declarations of models, and layer data.
use vstd::prelude::*;

pub use common::Platform;

pub mod patch;
pub mod patchlist;
pub mod race;
pub mod repository;
pub mod resource;
pub mod savedata;
pub mod scd;
pub mod schd;
pub mod scn;
pub mod shcd;
pub mod shpk;
pub mod sha1;
pub mod text;
pub mod bytes;
pub mod common;
pub mod decimal;
pub mod equipment;
pub mod layer;
pub mod lgb;
pub mod model;
pub mod mtrl;
pub mod pap;
pub mod pbd;
pub mod pcb;
pub mod phyb;
pub mod split;

verus! {

/// The errors that reading game data can end in.
#[derive(Debug)]
pub enum Error {
    /// A value that is not known.
    Unknown,
    /// The file at `path` does not exist.
    FileNotFound { path: String },
    /// The file at `path` exists but could not be parsed.
    FileParsingFailed { path: String },
    /// None of the resources of a resolver could serve the request.
    ResolverFailed,
}

/// A file format that can be read from bytes.
pub trait ReadableFile: Sized {
    /// Whether `buffer` holds a file of this format in the byte order of `platform`.
    spec fn parses(platform: Platform, buffer: Seq<u8>) -> bool;

    /// Whether `file` is what reading `buffer` in the byte order of `platform` gives.
    spec fn read_as(platform: Platform, buffer: Seq<u8>, file: Self) -> bool;

    /// Reads an existing file of the byte order of `platform`; `None` where it is not one.
    fn from_existing(platform: Platform, buffer: &[u8]) -> (r: Option<Self>)
        ensures
            r is Some <==> Self::parses(platform, buffer@),
            r matches Some(f) ==> Self::read_as(platform, buffer@, f),
    ;
}

/// A file format that can be written to bytes.
pub trait WritableFile: Sized {
    /// Writes the file in the byte order of `platform`; `None` where it cannot be written.
    fn write_to_buffer(&self, platform: Platform) -> Option<Vec<u8>>;
}

} // verus!
