//! Embedded static resources: file contents compiled into the binary.

use vstd::prelude::*;

verus! {

/// An embedded file: its path at build time and its bytes.
///
/// Values are built by the host from data compiled into the binary; the
/// `data` slice therefore lives for the whole process.
pub struct StaticFile {
    pub path: &'static str,
    pub data: &'static [u8],
}

impl StaticFile {
    /// The path the file was embedded from.
    pub fn path_str(&self) -> (r: &'static str)
        ensures
            r@ == self.path@,
    {
        self.path
    }

    /// The embedded bytes.
    pub fn as_bytes(&self) -> (r: &'static [u8])
        ensures
            r@ == self.data@,
    {
        self.data
    }

    /// The number of embedded bytes.
    pub fn len(&self) -> (r: usize)
        ensures
            r == self.data@.len(),
    {
        self.data.len()
    }
}

} // verus!
