//! debcrafter: generating a package's `debian/` directory from its
//! specification file.
use vstd::prelude::*;
use crate::text::{self, cat};

verus! {

/// A versioned debcrafter binary.
pub struct Debcrafter<'a> {
    pub version: &'a str,
}

impl Debcrafter<'_> {
    /// The name of the binary: `debcrafter_<version>`.
    pub fn binary_name(&self) -> (r: String)
        ensures
            r@ == "debcrafter_"@ + self.version@,
    {
        cat("debcrafter_", self.version)
    }
}

} // verus!
