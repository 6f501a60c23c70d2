//! The configuration of the bookworm packager, with the paths derived from
//! it, and the builder that collects it.
use vstd::prelude::*;
use crate::v1::pkg_config::{BuildEnv, PackageFields, PackageType, PkgConfig};

pub use crate::v1::build::dir_setup::{get_build_artifacts_dir, get_build_files_dir, get_tarball_path};

verus! {

/// The paths derived from a package's configuration.
#[derive(Clone)]
pub struct DerivedFields {
    pub spec_file: String,
    pub workdir: String,
    pub build_artifacts_dir: String,
    pub tarball_path: String,
    pub build_files_dir: String,
    pub src_dir: String,
}

/// A configuration as read, with its derived paths.
#[derive(Clone)]
pub struct BookwormPackagerConfig {
    pub read_config: PkgConfig,
    pub derived_fields: DerivedFields,
}

/// Collects the configuration of the bookworm packager.
pub struct BookwormPackagerConfigBuilder {
    config: PkgConfig,
    workdir: Option<String>,
    config_root: String,
}

/// A configuration with every field empty and a virtual package.
pub open spec fn empty_config(c: PkgConfig) -> bool {
    &&& c.package_fields.spec_file@.len() == 0
    &&& c.package_fields.package_name@.len() == 0
    &&& c.package_fields.version_number@.len() == 0
    &&& c.package_fields.revision_number@.len() == 0
    &&& c.package_fields.homepage@.len() == 0
    &&& c.package_type is Virtual
    &&& c.build_env.codename@.len() == 0
    &&& c.build_env.arch@.len() == 0
    &&& c.build_env.pkg_builder_version@.len() == 0
    &&& c.build_env.debcrafter_version@.len() == 0
    &&& c.build_env.run_lintian is None
    &&& c.build_env.run_piuparts is None
    &&& c.build_env.run_autopkgtest is None
    &&& c.build_env.workdir is None
    &&& c.build_env.sbuild_cache_dir is None
    &&& c.build_env.lintian_version@.len() == 0
    &&& c.build_env.piuparts_version@.len() == 0
    &&& c.build_env.autopkgtest_version@.len() == 0
    &&& c.cli_options is None
    &&& c.verify is None
}

impl BookwormPackagerConfigBuilder {
    /// The configuration collected so far.
    pub closed spec fn spec_config(&self) -> PkgConfig {
        self.config
    }

    /// The configuration's directory collected so far.
    pub closed spec fn spec_config_root(&self) -> Seq<char> {
        self.config_root@
    }

    /// The working directory given so far.
    pub closed spec fn spec_workdir(&self) -> Option<String> {
        self.workdir
    }

    /// A builder with an empty configuration of a virtual package, no
    /// configuration directory and no working directory.
    pub fn new() -> (r: Self)
        ensures
            empty_config(r.spec_config()),
            r.spec_config_root().len() == 0,
            r.spec_workdir() is None,
    {
        BookwormPackagerConfigBuilder {
            workdir: None,
            config_root: String::new(),
            config: PkgConfig {
                package_fields: PackageFields {
                    spec_file: String::new(),
                    package_name: String::new(),
                    version_number: String::new(),
                    revision_number: String::new(),
                    homepage: String::new(),
                },
                package_type: PackageType::Virtual,
                build_env: BuildEnv {
                    codename: String::new(),
                    arch: String::new(),
                    pkg_builder_version: String::new(),
                    debcrafter_version: String::new(),
                    run_lintian: None,
                    run_piuparts: None,
                    run_autopkgtest: None,
                    workdir: None,
                    sbuild_cache_dir: None,
                    lintian_version: String::new(),
                    piuparts_version: String::new(),
                    autopkgtest_version: String::new(),
                },
                cli_options: None,
                verify: None,
            },
        }
    }

    /// The builder with the configuration replaced.
    pub fn config(self, pkg_config: PkgConfig) -> (r: Self)
        ensures
            r.spec_config() == pkg_config,
            r.spec_config_root() == self.spec_config_root(),
            r.spec_workdir() == self.spec_workdir(),
    {
        BookwormPackagerConfigBuilder { config: pkg_config, ..self }
    }

    /// The builder with the configuration's directory replaced.
    pub fn config_root(self, config_root: String) -> (r: Self)
        ensures
            r.spec_config() == self.spec_config(),
            r.spec_config_root() == config_root@,
            r.spec_workdir() == self.spec_workdir(),
    {
        BookwormPackagerConfigBuilder { config_root, ..self }
    }
}

} // verus!
