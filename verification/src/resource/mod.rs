//! File resources: collections of readable game files, and a resolver that layers several
//! of them.
use vstd::prelude::*;
use crate::common::Platform;
use crate::text::{chars_of, string_from_chars};
use crate::{Error, ReadableFile};

pub mod resolver;
pub mod sqpack;

pub use resolver::ResourceResolver;
pub use sqpack::{RepairAction, RepairError, SqPackRelease, SqPackResource};

verus! {

/// A collection of readable game files, such as a compressed archive, unpacked files on disk
/// or a network. Users implement it for their own sources.
///
/// A resource whose `obeys_file_spec` holds answers `read` and `file_exists` from the files
/// that `file_at` names, and `platform` with `platform_spec`; one that does not (the default)
/// promises nothing of its answers.
pub trait Resource {
    /// Whether this resource answers as `file_at` says.
    open spec fn obeys_file_spec(&self) -> bool {
        false
    }

    /// The contents of the file at `path`, where there is one.
    open spec fn file_at(&self, path: Seq<char>) -> Option<Seq<u8>> {
        None
    }

    /// The platform of this resource's files.
    open spec fn platform_spec(&self) -> Platform {
        Platform::Win32
    }

    /// Reads the file located at `path`; reading leaves the platform as it is.
    fn read(&mut self, path: &str) -> (r: Option<Vec<u8>>)
        ensures
            old(self).obeys_file_spec() ==> match old(self).file_at(path@) {
                Some(f) => r matches Some(b) && b@ == f,
                None => r is None,
            },
            old(self).obeys_file_spec() ==> final(self).obeys_file_spec()
                && final(self).platform_spec() == old(self).platform_spec(),
    ;

    /// Checks if a file exists.
    fn file_exists(&mut self, path: &str) -> (r: bool)
        ensures
            old(self).obeys_file_spec() ==> (r <==> old(self).file_at(path@) is Some),
    ;

    /// Returns the platform associated with this resource.
    fn platform(&self) -> (r: Platform)
        ensures
            self.obeys_file_spec() ==> r == self.platform_spec(),
    ;
}

/// What parsing a file of format `F` at `path` comes to, where `file` is what was read there
/// and `platform` the byte order: `FileNotFound` where there is no file; else the file read as
/// `F` where it parses, and `FileParsingFailed` where it does not.
pub open spec fn parse_outcome<F: ReadableFile>(
    file: Option<Seq<u8>>,
    platform: Platform,
    path: Seq<char>,
    r: Result<F, Error>,
) -> bool {
    match file {
        None => r matches Err(Error::FileNotFound { path: p }) && p@ == path,
        Some(b) => if F::parses(platform, b) {
            r matches Ok(v) && F::read_as(platform, b, v)
        } else {
            r matches Err(Error::FileParsingFailed { path: p }) && p@ == path
        },
    }
}

/// Parses `file`, what was read at `path`, as a file of format `F` in the byte order of
/// `platform`; see `parse_outcome`.
pub fn parse_found<F: ReadableFile>(platform: Platform, file: Option<Vec<u8>>, path: &str) -> (r:
    Result<F, Error>)
    ensures
        parse_outcome::<F>(
            match file {
                Some(b) => Some(b@),
                None => None,
            },
            platform,
            path@,
            r,
        ),
{
    match file {
        Some(bytes) => match F::from_existing(platform, bytes.as_slice()) {
            Some(f) => Ok(f),
            None => Err(Error::FileParsingFailed { path: string_from_chars(&chars_of(path)) }),
        },
        None => Err(Error::FileNotFound { path: string_from_chars(&chars_of(path)) }),
    }
}

/// Reads and parses the file at `path` of `resource` as format `F`: `FileNotFound` where the
/// resource has no file there, `FileParsingFailed` where the file does not parse.
pub fn generic_parsed<R: Resource + ?Sized, F: ReadableFile>(resource: &mut R, path: &str) -> (r:
    Result<F, Error>)
    ensures
        old(resource).obeys_file_spec() ==> parse_outcome::<F>(
            old(resource).file_at(path@),
            old(resource).platform_spec(),
            path@,
            r,
        ),
        r matches Err(e) ==> {
            ||| e matches Error::FileNotFound { path: p } && p@ == path@
            ||| e matches Error::FileParsingFailed { path: p } && p@ == path@
        },
{
    let file = resource.read(path);
    let platform = resource.platform();
    parse_found(platform, file, path)
}

} // verus!
