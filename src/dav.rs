//! Synthetic entries that stand for the virtual root and its mounts.
use vstd::prelude::*;

verus! {

/// Metadata of a synthetic directory: a nominal length, always a directory.
#[derive(Clone, Copy, Debug)]
pub struct FsMeta(u64);

impl View for FsMeta {
    type V = u64;

    closed spec fn view(&self) -> u64 {
        self.0
    }
}

impl Default for FsMeta {
    fn default() -> (r: Self)
        ensures
            r@ == 1,
    {
        FsMeta(1)
    }
}

impl FsMeta {
    /// The nominal length.
    pub fn len(&self) -> (r: u64)
        ensures
            r == self@,
    {
        self.0
    }

    /// Synthetic entries are all directories.
    pub fn is_dir(&self) -> (r: bool)
        ensures
            r,
    {
        true
    }
}

/// A synthetic file with a nominal length and no content.
#[derive(Debug)]
pub struct FsAsFile {
    len: u64,
}

impl View for FsAsFile {
    type V = u64;

    closed spec fn view(&self) -> u64 {
        self.len
    }
}

impl Default for FsAsFile {
    fn default() -> (r: Self)
        ensures
            r@ == 1,
    {
        FsAsFile { len: 1 }
    }
}

impl FsAsFile {
    /// Metadata that carries the file's nominal length.
    pub fn metadata(&self) -> (r: FsMeta)
        ensures
            r@ == self@,
    {
        FsMeta(self.len)
    }
}

/// A synthetic directory entry: one mount as seen from the virtual root.
pub struct FsAsDir {
    name: String,
    len: u64,
}

impl View for FsAsDir {
    type V = (Seq<char>, u64);

    closed spec fn view(&self) -> (Seq<char>, u64) {
        (self.name@, self.len)
    }
}

impl FsAsDir {
    /// An entry of the given name with nominal length 1.
    pub fn new(name: String) -> (r: Self)
        ensures
            r@ == (name@, 1u64),
    {
        FsAsDir { name, len: 1 }
    }

    /// The entry's name as UTF-8 bytes.
    pub fn name(&self) -> (r: Vec<u8>)
        ensures
            r@ == vstd::utf8::encode_utf8(self@.0),
    {
        self.name.as_str().as_bytes_vec()
    }

    /// Metadata that carries the entry's nominal length.
    pub fn metadata(&self) -> (r: FsMeta)
        ensures
            r@ == self@.1,
    {
        FsMeta(self.len)
    }
}

} // verus!
