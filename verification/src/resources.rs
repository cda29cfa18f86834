//! Resources the canvas draws from: device-backed buffers and fonts.

pub mod buffer;
pub mod consistency;
pub mod device;
pub mod font;

use vstd::prelude::*;

verus! {

/// Where the files of the application are looked up.
pub struct Resources {
    base_dir: String,
}

impl Resources {
    /// The directory that relative resource paths start from.
    pub closed spec fn root(&self) -> Seq<char> {
        self.base_dir@
    }

    /// Resources rooted at `base_dir`.
    pub fn new(base_dir: &str) -> (resources: Self)
        ensures
            resources.root() == base_dir@,
    {
        Resources { base_dir: base_dir.to_owned() }
    }

    /// The directory that relative resource paths start from.
    pub fn base_dir(&self) -> (dir: &str)
        ensures
            dir@ == self.root(),
    {
        self.base_dir.as_str()
    }
}

} // verus!
