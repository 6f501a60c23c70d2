//! The distribution packager: which codenames it serves, and the build
//! environment operations it hands on.
use vstd::prelude::*;
use crate::text::{self, cat3, str_eq};
use crate::v1::pkg_config::PkgConfig;

verus! {

/// A packager for the distribution a configuration names.
pub struct DistributionPackager {
    pub config: PkgConfig,
    pub config_root: String,
}

/// An operation of the packager, to be carried out by the build backend.
#[derive(Debug, Clone, Copy, PartialEq, Eq, Structural)]
pub enum PackagerOperation {
    Package,
    RunLintian,
    RunPiuparts,
    RunAutopkgtests,
    CleanBuildEnv,
    CreateBuildEnv,
    /// Verify the build's outputs, after building them when `package`.
    Verify { package: bool },
}

/// The codenames the packager serves.
pub open spec fn served_codename(codename: Seq<char>) -> bool {
    codename == "bookworm"@ || codename == "noble numbat"@ || codename == "jammy jellyfish"@
}

/// The error of an operation asked for an unserved codename.
pub open spec fn invalid_codename_message(codename: Seq<char>) -> Seq<char> {
    "Invalid codename '"@ + codename + "' specified"@
}

impl DistributionPackager {
    /// A packager for a configuration read from `config_root`.
    pub fn new(config: PkgConfig, config_root: String) -> (r: Self)
        ensures
            r.config == config,
            r.config_root == config_root,
    {
        DistributionPackager { config, config_root }
    }

    /// An operation goes ahead for a served codename; otherwise it fails
    /// with `Invalid codename '<codename>' specified`.
    fn with_packager(&self, op: PackagerOperation) -> (r: Result<PackagerOperation, String>)
        ensures
            served_codename(self.config.build_env.codename@) ==> r == Ok::<PackagerOperation, String>(op),
            !served_codename(self.config.build_env.codename@) ==> (r matches Err(e)
                && e@ == invalid_codename_message(self.config.build_env.codename@)),
    {
        let c = self.config.build_env.codename.as_str();
        if str_eq(c, "bookworm") || str_eq(c, "noble numbat") || str_eq(c, "jammy jellyfish") {
            Ok(op)
        } else {
            Err(cat3("Invalid codename '", c, "' specified"))
        }
    }

    /// Building the package, when the codename is served.
    pub fn package(&self) -> (r: Result<PackagerOperation, String>)
        ensures
            r is Ok <==> served_codename(self.config.build_env.codename@),
            r matches Err(e) ==> e@ == invalid_codename_message(self.config.build_env.codename@),
            r matches Ok(op) ==> op == PackagerOperation::Package,
    {
        self.with_packager(PackagerOperation::Package)
    }

    /// Running lintian, when the codename is served.
    pub fn run_lintian(&self) -> (r: Result<PackagerOperation, String>)
        ensures
            r is Ok <==> served_codename(self.config.build_env.codename@),
            r matches Err(e) ==> e@ == invalid_codename_message(self.config.build_env.codename@),
            r matches Ok(op) ==> op == PackagerOperation::RunLintian,
    {
        self.with_packager(PackagerOperation::RunLintian)
    }

    /// Running piuparts, when the codename is served.
    pub fn run_piuparts(&self) -> (r: Result<PackagerOperation, String>)
        ensures
            r is Ok <==> served_codename(self.config.build_env.codename@),
            r matches Err(e) ==> e@ == invalid_codename_message(self.config.build_env.codename@),
            r matches Ok(op) ==> op == PackagerOperation::RunPiuparts,
    {
        self.with_packager(PackagerOperation::RunPiuparts)
    }

    /// Running autopkgtest, when the codename is served.
    pub fn run_autopkgtests(&self) -> (r: Result<PackagerOperation, String>)
        ensures
            r is Ok <==> served_codename(self.config.build_env.codename@),
            r matches Err(e) ==> e@ == invalid_codename_message(self.config.build_env.codename@),
            r matches Ok(op) ==> op == PackagerOperation::RunAutopkgtests,
    {
        self.with_packager(PackagerOperation::RunAutopkgtests)
    }

    /// Removing the build environment, when the codename is served.
    pub fn clean_build_env(&self) -> (r: Result<PackagerOperation, String>)
        ensures
            r is Ok <==> served_codename(self.config.build_env.codename@),
            r matches Err(e) ==> e@ == invalid_codename_message(self.config.build_env.codename@),
            r matches Ok(op) ==> op == PackagerOperation::CleanBuildEnv,
    {
        self.with_packager(PackagerOperation::CleanBuildEnv)
    }

    /// Creating the build environment, when the codename is served.
    pub fn create_build_env(&self) -> (r: Result<PackagerOperation, String>)
        ensures
            r is Ok <==> served_codename(self.config.build_env.codename@),
            r matches Err(e) ==> e@ == invalid_codename_message(self.config.build_env.codename@),
            r matches Ok(op) ==> op == PackagerOperation::CreateBuildEnv,
    {
        self.with_packager(PackagerOperation::CreateBuildEnv)
    }

    /// Verifying the outputs (after building them when `package`), when the
    /// codename is served.
    pub fn verify(&self, package: bool) -> (r: Result<PackagerOperation, String>)
        ensures
            r is Ok <==> served_codename(self.config.build_env.codename@),
            r matches Err(e) ==> e@ == invalid_codename_message(self.config.build_env.codename@),
            r matches Ok(op) ==> op == (PackagerOperation::Verify { package }),
    {
        self.with_packager(PackagerOperation::Verify { package })
    }
}

/// The build command's switches override the configured checks: each one
/// given replaces the configured value; the rest of the configuration is
/// kept.
pub fn apply_package_overrides(
    config: &mut PkgConfig,
    run_piuparts: Option<bool>,
    run_autopkgtest: Option<bool>,
    run_lintian: Option<bool>,
)
    ensures
        final(config).build_env.run_piuparts == (if run_piuparts is Some { run_piuparts } else { old(config).build_env.run_piuparts }),
        final(config).build_env.run_autopkgtest == (if run_autopkgtest is Some { run_autopkgtest } else { old(config).build_env.run_autopkgtest }),
        final(config).build_env.run_lintian == (if run_lintian is Some { run_lintian } else { old(config).build_env.run_lintian }),
        final(config).package_fields == old(config).package_fields,
        final(config).package_type == old(config).package_type,
        final(config).build_env.codename == old(config).build_env.codename,
        final(config).build_env.arch == old(config).build_env.arch,
        final(config).build_env.workdir == old(config).build_env.workdir,
{
    if run_piuparts.is_some() {
        config.build_env.run_piuparts = run_piuparts;
    }
    if run_autopkgtest.is_some() {
        config.build_env.run_autopkgtest = run_autopkgtest;
    }
    if run_lintian.is_some() {
        config.build_env.run_lintian = run_lintian;
    }
}

} // verus!
