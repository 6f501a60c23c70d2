//! A package build: preparation, then guessing, building and verifying.
use vstd::prelude::*;
use crate::v1_build::prepare_build::{self, PrepareBuild, PrepareChecks};

verus! {

/// What a package build starts from.
pub struct PackageBuildConfig {
    pub arch: Vec<String>,
    pub source_url: String,
    pub previous_build_hash: String,
    pub source_is_git: bool,
}

/// A package build.
pub struct PackageBuild {
    pub config: PackageBuildConfig,
}

impl PackageBuild {
    /// A build of `config`.
    pub fn new(config: PackageBuildConfig) -> (r: PackageBuild)
        ensures
            r.config == config,
    {
        PackageBuild { config }
    }

    /// Prepares the build: the outcome of the preparation checks.
    pub fn prepare(&self, checks: &PrepareChecks) -> (r: Result<bool, &'static str>)
        ensures
            match prepare_build::first_failure(*checks) {
                Some(m) => r == Err::<bool, &'static str>(m),
                None => r == Ok::<bool, &'static str>(true),
            },
    {
        PrepareBuild::new().prepare(checks)
    }

    /// Guessing the build settings always succeeds.
    pub fn guess(&self) -> (r: Result<bool, &'static str>)
        ensures
            r == Ok::<bool, &'static str>(true),
    {
        Ok(true)
    }

    /// Building and testing always succeeds.
    pub fn build_and_test(&self) -> (r: Result<bool, &'static str>)
        ensures
            r == Ok::<bool, &'static str>(true),
    {
        Ok(true)
    }

    /// Verifying always succeeds.
    pub fn verify(&self) -> (r: Result<bool, &'static str>)
        ensures
            r == Ok::<bool, &'static str>(true),
    {
        Ok(true)
    }
}

} // verus!
