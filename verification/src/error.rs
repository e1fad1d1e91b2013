//! The kinds of failure that the library's errors fall under.

use vstd::prelude::*;

verus! {

/// What kind of thing went wrong.
#[derive(Clone, Copy, Debug, PartialEq, Eq, Structural)]
pub enum ErrorKind {
    /// Something that was looked for is not there.
    NotFound,
    /// A page could not be fetched, or a download failed.
    Network,
    /// A file could not be read, written, unpacked or started.
    Io,
    /// A text is not what it should be.
    Parse,
    /// There is no way to install for the platform.
    UnsupportedPlatform,
}

} // verus!
