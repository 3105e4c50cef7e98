use vstd::prelude::*;

verus! {

/// Descriptive attributes that can be attached to an embedded file exactly
/// once, builder-style: three timestamps in whole seconds since the Unix
/// epoch.  The library stores them and imposes no further meaning on them.
#[derive(Clone, Copy, Debug, PartialEq, Eq, Structural)]
pub struct Metadata {
    accessed: u64,
    created: u64,
    modified: u64,
}

impl Metadata {
    /// When the file was last accessed, in seconds since the Unix epoch.
    pub closed spec fn spec_accessed(&self) -> u64 {
        self.accessed
    }

    /// When the file was created, in seconds since the Unix epoch.
    pub closed spec fn spec_created(&self) -> u64 {
        self.created
    }

    /// When the file was last modified, in seconds since the Unix epoch.
    pub closed spec fn spec_modified(&self) -> u64 {
        self.modified
    }

    /// Bundle the three timestamps into a metadata value.
    pub fn new(accessed: u64, created: u64, modified: u64) -> (m: Metadata)
        ensures
            m.spec_accessed() == accessed,
            m.spec_created() == created,
            m.spec_modified() == modified,
    {
        Metadata { accessed, created, modified }
    }

    /// The stored access timestamp.
    pub fn accessed(&self) -> (r: u64)
        ensures
            r == self.spec_accessed(),
    {
        self.accessed
    }

    /// The stored creation timestamp.
    pub fn created(&self) -> (r: u64)
        ensures
            r == self.spec_created(),
    {
        self.created
    }

    /// The stored modification timestamp.
    pub fn modified(&self) -> (r: u64)
        ensures
            r == self.spec_modified(),
    {
        self.modified
    }
}

} // verus!
