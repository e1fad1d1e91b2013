//! The platforms a runtime is built for.

use vstd::prelude::*;
use crate::text::same_text;

verus! {

/// A platform that a runtime binary is built for. `Unknown` stands for
/// every release that is for none of the four.
#[derive(Clone, Copy, Debug, PartialEq, Eq, Structural, Hash)]
pub enum Platform {
    Win32,
    Win64,
    Nix32,
    Nix64,
    Unknown,
}

/// The short name of a platform, as it stands in paths and in the cache.
pub open spec fn short_name(platform: Platform) -> Seq<char> {
    match platform {
        Platform::Win32 => seq!['w', 'i', 'n', '3', '2'],
        Platform::Win64 => seq!['w', 'i', 'n', '6', '4'],
        Platform::Nix32 => seq!['n', 'i', 'x', '3', '2'],
        Platform::Nix64 => seq!['n', 'i', 'x', '6', '4'],
        Platform::Unknown => seq!['N', 'o', 'n', 'e'],
    }
}

/// The platform with the given short name; `Unknown` for every other text.
pub open spec fn named_platform(name: Seq<char>) -> Platform {
    if name == short_name(Platform::Win32) {
        Platform::Win32
    } else if name == short_name(Platform::Win64) {
        Platform::Win64
    } else if name == short_name(Platform::Nix32) {
        Platform::Nix32
    } else if name == short_name(Platform::Nix64) {
        Platform::Nix64
    } else {
        Platform::Unknown
    }
}

/// A platform is found again by its short name.
pub proof fn lemma_short_name_found(platform: Platform)
    ensures
        named_platform(short_name(platform)) == platform,
{
    assert(short_name(Platform::Win32)[3] == '3');
    assert(short_name(Platform::Win64)[3] == '6');
    assert(short_name(Platform::Nix32)[3] == '3');
    assert(short_name(Platform::Nix64)[3] == '6');
    assert(short_name(Platform::Win32)[0] == 'w');
    assert(short_name(Platform::Win64)[0] == 'w');
    assert(short_name(Platform::Nix32)[0] == 'n');
    assert(short_name(Platform::Nix64)[0] == 'n');
    assert(short_name(Platform::Unknown)[0] == 'N');
}

impl Platform {
    /// The short name: `win32`, `win64`, `nix32`, `nix64`, and `None` for
    /// the unknown platform.
    pub fn as_short_str(&self) -> (r: &'static str)
        ensures
            r@ == short_name(*self),
    {
        proof {
            reveal_strlit("win32");
            reveal_strlit("win64");
            reveal_strlit("nix32");
            reveal_strlit("nix64");
            reveal_strlit("None");
        }
        let r = match self {
            Platform::Win32 => "win32",
            Platform::Win64 => "win64",
            Platform::Nix32 => "nix32",
            Platform::Nix64 => "nix64",
            Platform::Unknown => "None",
        };
        assert(r@ =~= short_name(*self));
        r
    }

    /// The short name as an owned string.
    pub fn to_short_string(&self) -> (r: String)
        ensures
            r@ == short_name(*self),
    {
        self.as_short_str().to_owned()
    }

    /// The platform with the short name `name`; `Unknown` where `name` is
    /// none of the four short names.
    pub fn from_short_str(name: &str) -> (r: Platform)
        ensures
            r == named_platform(name@),
    {
        if same_text(name, Platform::Win32.as_short_str()) {
            Platform::Win32
        } else if same_text(name, Platform::Win64.as_short_str()) {
            Platform::Win64
        } else if same_text(name, Platform::Nix32.as_short_str()) {
            Platform::Nix32
        } else if same_text(name, Platform::Nix64.as_short_str()) {
            Platform::Nix64
        } else {
            Platform::Unknown
        }
    }

    /// Whether a runtime for this platform is a Windows program.
    pub fn is_windows(&self) -> (r: bool)
        ensures
            r == (*self == Platform::Win32 || *self == Platform::Win64),
    {
        match self {
            Platform::Win32 | Platform::Win64 => true,
            _ => false,
        }
    }

    /// Whether a runtime for this platform is a Unix program.
    pub fn is_unix(&self) -> (r: bool)
        ensures
            r == (*self == Platform::Nix32 || *self == Platform::Nix64),
    {
        match self {
            Platform::Nix32 | Platform::Nix64 => true,
            _ => false,
        }
    }
}

} // verus!
