//! Wrappers around the Debian packaging tools: the arguments they are run with.
use vstd::prelude::*;

pub mod archive;
pub mod autopkgtest;
pub mod debcrafter;
pub mod lintian;
pub mod piuparts;
pub mod sbuild;

verus! {

#[verifier::external_type_specification]
#[verifier::external_body]
pub struct ExIoError(std::io::Error);

/// Why running a packaging tool failed.
#[derive(Debug)]
pub enum ToolError {
    /// The tool ran and exited with a failure code.
    ExitCode { tool: String, code: i32 },
    /// The tool could not be started.
    NotFound { tool: String, source: std::io::Error },
    /// The tool failed in another way.
    Other { tool: String, message: String },
    /// Reading or writing a file failed.
    Io(std::io::Error),
}

} // verus!
