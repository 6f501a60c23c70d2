//! The checks that precede a build, in order, each with the message it
//! fails with.
use vstd::prelude::*;

verus! {

/// The outcomes of the checks before a build.
pub struct PrepareChecks {
    pub package_build_config_verified: bool,
    pub debcrafter_installed: bool,
    pub dependencies_installed: bool,
    pub on_right_distribution: bool,
    pub source_acquired: bool,
    pub source_verified: bool,
    pub source_unpacked: bool,
    pub specification_files_checked: bool,
    pub files_patched: bool,
    pub files_overwritten: bool,
}

/// The message of the first failed check, if any.
pub open spec fn first_failure(c: PrepareChecks) -> Option<&'static str> {
    if !c.package_build_config_verified {
        Some("Failed to verify package build config")
    } else if !c.debcrafter_installed {
        Some("Debcrafter is not installed")
    } else if !c.dependencies_installed {
        Some("Some dependencies are not installed")
    } else if !c.on_right_distribution {
        Some("You are not on the right distribution")
    } else if !c.source_acquired {
        Some("Failed to acquire source")
    } else if !c.source_verified {
        Some("Failed to verify source")
    } else if !c.source_unpacked {
        Some("Failed to unpack source")
    } else if !c.specification_files_checked {
        Some("Specification files check failed")
    } else if !c.files_patched {
        Some("Failed to patch files")
    } else if !c.files_overwritten {
        Some("Failed to overwrite files")
    } else {
        None
    }
}

/// Preparation fails exactly when one of its checks fails: it reports no
/// failure only when every check passed.
pub proof fn lemma_no_failure_iff_all_checks_pass(c: PrepareChecks)
    ensures
        first_failure(c) is None <==> (c.package_build_config_verified && c.debcrafter_installed
            && c.dependencies_installed && c.on_right_distribution && c.source_acquired && c.source_verified
            && c.source_unpacked && c.specification_files_checked && c.files_patched && c.files_overwritten),
{
}

/// The preparation of a build.
pub struct PrepareBuild {}

impl PrepareBuild {
    /// A preparation.
    pub fn new() -> (r: PrepareBuild) {
        PrepareBuild {}
    }

    /// The preparation's outcome from its checks, taken in order: the first
    /// failed check's message, or success when all passed.
    pub fn prepare(&self, checks: &PrepareChecks) -> (r: Result<bool, &'static str>)
        ensures
            match first_failure(*checks) {
                Some(m) => r == Err::<bool, &'static str>(m),
                None => r == Ok::<bool, &'static str>(true),
            },
    {
        if !checks.package_build_config_verified {
            return Err("Failed to verify package build config");
        }
        if !checks.debcrafter_installed {
            return Err("Debcrafter is not installed");
        }
        if !checks.dependencies_installed {
            return Err("Some dependencies are not installed");
        }
        if !checks.on_right_distribution {
            return Err("You are not on the right distribution");
        }
        if !checks.source_acquired {
            return Err("Failed to acquire source");
        }
        if !checks.source_verified {
            return Err("Failed to verify source");
        }
        if !checks.source_unpacked {
            return Err("Failed to unpack source");
        }
        if !checks.specification_files_checked {
            return Err("Specification files check failed");
        }
        if !checks.files_patched {
            return Err("Failed to patch files");
        }
        if !checks.files_overwritten {
            return Err("Failed to overwrite files");
        }
        Ok(true)
    }
}

} // verus!
