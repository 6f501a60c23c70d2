//! The bookworm packager: where a package's files go and the steps that
//! prepare its source before the build.
use vstd::prelude::*;
use crate::text::{self, owned};
use crate::paths::{self, path_join};
use crate::v1::build::sbuild::Sbuild;
use crate::v1::pkg_config::{PackageType, PkgConfig};

pub use crate::v1::build::dir_setup::{expand_path, get_build_artifacts_dir, get_build_files_dir, get_tarball_path, get_tarball_url};

verus! {

/// The packager of one package for bookworm.
pub struct BookwormPackager {
    pub config: PkgConfig,
    pub source_to_patch_from_path: String,
    pub debian_artifacts_dir: String,
    pub debian_orig_tarball_path: String,
    pub build_files_dir: String,
    pub config_root: String,
}

/// One step of preparing a package's source.
pub enum BuildStep {
    /// Recreate the package directory.
    CreatePackageDir { dir: String },
    /// Download (or copy) the upstream tarball.
    DownloadSource { tarball_path: String, tarball_url: String, config_root: String },
    /// Make the tarball from a git checkout of `tag`.
    DownloadGit { artifacts_dir: String, tarball_path: String, git_url: String, tag: String },
    /// Make an empty tarball for a virtual package.
    CreateEmptyTar { artifacts_dir: String, tarball_path: String },
    /// Unpack the tarball into the build directory.
    ExtractSource { tarball_path: String, build_files_dir: String },
    /// Generate `debian/` with debcrafter.
    CreateDebianDir { build_files_dir: String, debcrafter_version: String, spec_file: String },
    /// Apply the package's own files and patches.
    PatchSource { build_files_dir: String, homepage: String, src_dir: String },
    /// Write the sbuild configuration.
    SetupSbuild,
}

/// The working directory configured for a package, or the default.
pub open spec fn workdir_spec(c: PkgConfig) -> Seq<char> {
    match c.build_env.workdir {
        Some(w) => w@,
        None => "~/.pkg-builder/packages/bookworm"@,
    }
}

/// The working directory configured for a package, or
/// `~/.pkg-builder/packages/bookworm`.
pub fn configured_workdir(config: &PkgConfig) -> (r: String)
    ensures
        r@ == workdir_spec(*config),
{
    match &config.build_env.workdir {
        Some(w) => w.clone(),
        None => owned("~/.pkg-builder/packages/bookworm"),
    }
}

impl BookwormPackager {
    /// The packager of a configuration read from `config_root`, working in
    /// `workdir` (the configured working directory once expanded): the
    /// package directory and the tarball and build directory under it; the
    /// configuration records the working directory and the specification
    /// file under the configuration's directory.
    pub fn new(config: PkgConfig, config_root: String, workdir: String) -> (r: Self)
        ensures
            r.source_to_patch_from_path@ == paths::join_spec(config_root@, "src"@),
            r.debian_artifacts_dir@ == workdir@ + "/"@ + config.package_fields.package_name@,
            r.debian_orig_tarball_path@ == r.debian_artifacts_dir@ + "/"@ + config.package_fields.package_name@ + "_"@
                + config.package_fields.version_number@ + ".orig.tar.gz"@,
            r.build_files_dir@ == r.debian_artifacts_dir@ + "/"@ + config.package_fields.package_name@ + "-"@
                + config.package_fields.version_number@,
            r.config_root == config_root,
            r.config.build_env.workdir == Some(workdir),
            r.config.package_fields.spec_file@ == paths::join_spec(config_root@, config.package_fields.spec_file@),
            r.config.package_type == config.package_type,
            r.config.package_fields.package_name == config.package_fields.package_name,
            r.config.package_fields.version_number == config.package_fields.version_number,
            r.config.package_fields.homepage == config.package_fields.homepage,
            r.config.build_env.debcrafter_version == config.build_env.debcrafter_version,
            r.config.build_env.codename == config.build_env.codename,
            r.config.build_env.arch == config.build_env.arch,
    {
        let source_to_patch_from_path = path_join(config_root.as_str(), "src");
        let name = config.package_fields.package_name.as_str();
        let version = config.package_fields.version_number.as_str();
        let debian_artifacts_dir = get_build_artifacts_dir(name, workdir.as_str());
        let debian_orig_tarball_path = get_tarball_path(name, version, debian_artifacts_dir.as_str());
        let build_files_dir = get_build_files_dir(name, version, debian_artifacts_dir.as_str());
        let spec_file = path_join(config_root.as_str(), config.package_fields.spec_file.as_str());
        let mut config = config;
        config.build_env.workdir = Some(workdir);
        config.package_fields.spec_file = spec_file;
        BookwormPackager {
            config,
            source_to_patch_from_path,
            debian_artifacts_dir,
            debian_orig_tarball_path,
            build_files_dir,
            config_root,
        }
    }

    /// The steps that prepare the source: recreate the package directory;
    /// fetch the tarball (download it, build it from git, or make an empty
    /// one for a virtual package); unpack it; generate `debian/`; patch the
    /// source; set up sbuild.
    pub fn package_steps(&self) -> (r: Vec<BuildStep>)
        ensures
            r@.len() == 6,
            r@[0] matches BuildStep::CreatePackageDir { dir } && dir@ == self.debian_artifacts_dir@,
            match self.config.package_type {
                PackageType::Default(c) => r@[1] matches BuildStep::DownloadSource { tarball_path, tarball_url, config_root }
                    && tarball_path@ == self.debian_orig_tarball_path@ && tarball_url@ == c.tarball_url@
                    && config_root@ == self.config_root@,
                PackageType::Git(c) => r@[1] matches BuildStep::DownloadGit { artifacts_dir, tarball_path, git_url, tag }
                    && artifacts_dir@ == self.debian_artifacts_dir@ && tarball_path@ == self.debian_orig_tarball_path@
                    && git_url@ == c.git_url@ && tag@ == c.git_commit@,
                PackageType::Virtual => r@[1] matches BuildStep::CreateEmptyTar { artifacts_dir, tarball_path }
                    && artifacts_dir@ == self.debian_artifacts_dir@ && tarball_path@ == self.debian_orig_tarball_path@,
            },
            r@[2] matches BuildStep::ExtractSource { tarball_path, build_files_dir }
                && tarball_path@ == self.debian_orig_tarball_path@ && build_files_dir@ == self.build_files_dir@,
            r@[3] matches BuildStep::CreateDebianDir { build_files_dir, debcrafter_version, spec_file }
                && build_files_dir@ == self.build_files_dir@
                && debcrafter_version@ == self.config.build_env.debcrafter_version@
                && spec_file@ == self.config.package_fields.spec_file@,
            r@[4] matches BuildStep::PatchSource { build_files_dir, homepage, src_dir }
                && build_files_dir@ == self.build_files_dir@ && homepage@ == self.config.package_fields.homepage@
                && src_dir@ == self.source_to_patch_from_path@,
            r@[5] is SetupSbuild,
    {
        let mut steps: Vec<BuildStep> = Vec::new();
        steps.push(BuildStep::CreatePackageDir { dir: self.debian_artifacts_dir.clone() });
        match &self.config.package_type {
            PackageType::Default(c) => {
                steps.push(BuildStep::DownloadSource {
                    tarball_path: self.debian_orig_tarball_path.clone(),
                    tarball_url: c.tarball_url.clone(),
                    config_root: self.config_root.clone(),
                });
            },
            PackageType::Git(c) => {
                steps.push(BuildStep::DownloadGit {
                    artifacts_dir: self.debian_artifacts_dir.clone(),
                    tarball_path: self.debian_orig_tarball_path.clone(),
                    git_url: c.git_url.clone(),
                    tag: c.git_commit.clone(),
                });
            },
            PackageType::Virtual => {
                steps.push(BuildStep::CreateEmptyTar {
                    artifacts_dir: self.debian_artifacts_dir.clone(),
                    tarball_path: self.debian_orig_tarball_path.clone(),
                });
            },
        }
        steps.push(BuildStep::ExtractSource {
            tarball_path: self.debian_orig_tarball_path.clone(),
            build_files_dir: self.build_files_dir.clone(),
        });
        steps.push(BuildStep::CreateDebianDir {
            build_files_dir: self.build_files_dir.clone(),
            debcrafter_version: self.config.build_env.debcrafter_version.clone(),
            spec_file: self.config.package_fields.spec_file.clone(),
        });
        steps.push(BuildStep::PatchSource {
            build_files_dir: self.build_files_dir.clone(),
            homepage: self.config.package_fields.homepage.clone(),
            src_dir: self.source_to_patch_from_path.clone(),
        });
        steps.push(BuildStep::SetupSbuild);
        steps
    }

    /// The build environment of the package: sbuild in its build directory.
    pub fn into_build_env(self) -> (r: Sbuild)
        ensures
            r.config == self.config,
            r.build_files_dir == self.build_files_dir,
    {
        Sbuild::new(self.config, self.build_files_dir)
    }
}

} // verus!
