//! Structures shared by the file formats.
use vstd::prelude::*;
use crate::bytes::Endian;

verus! {

/// The platform a set of game files was built for.
#[derive(Debug, Clone, Copy, PartialEq, Eq, Structural)]
pub enum Platform {
    /// Windows.
    Win32,
    /// PlayStation 3.
    PS3,
    /// PlayStation 4.
    PS4,
    /// PlayStation 5.
    PS5,
    /// Xbox.
    Xbox,
}

/// The short name of a platform, as used in file names.
pub open spec fn platform_shortname(p: Platform) -> Seq<char> {
    match p {
        Platform::Win32 => "win32"@,
        Platform::PS3 => "ps3"@,
        Platform::PS4 => "ps4"@,
        Platform::PS5 => "ps5"@,
        Platform::Xbox => "lys"@,
    }
}

impl Platform {
    /// The short name of the platform, as used in file names.
    pub fn shortname(&self) -> (r: &'static str)
        ensures
            r@ == platform_shortname(*self),
    {
        match self {
            Platform::Win32 => "win32",
            Platform::PS3 => "ps3",
            Platform::PS4 => "ps4",
            Platform::PS5 => "ps5",
            Platform::Xbox => "lys",
        }
    }
}

/// The byte order of the files of a platform: big-endian on the PS3, little-endian elsewhere.
pub open spec fn platform_endian(p: Platform) -> Endian {
    match p {
        Platform::PS3 => Endian::Big,
        _ => Endian::Little,
    }
}

impl Platform {
    /// The byte order of the files of this platform.
    pub fn endianness(&self) -> (r: Endian)
        ensures
            r == platform_endian(*self),
    {
        match self {
            Platform::PS3 => Endian::Big,
            _ => Endian::Little,
        }
    }
}

/// Every platform, in the order in which file names are matched against them.
pub fn platform_list() -> (r: [Platform; 5])
    ensures
        r@ == seq![Platform::Win32, Platform::PS3, Platform::PS4, Platform::PS5, Platform::Xbox],
{
    let r = [Platform::Win32, Platform::PS3, Platform::PS4, Platform::PS5, Platform::Xbox];
    assert(r@ =~= seq![Platform::Win32, Platform::PS3, Platform::PS4, Platform::PS5, Platform::Xbox]);
    r
}

} // verus!
