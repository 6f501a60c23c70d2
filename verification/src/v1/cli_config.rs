//! The command-line packager's configuration file, read with empty
//! strings taken as absent values and absent flags as false.
use vstd::prelude::*;

verus! {

/// The value of an optional text field: an empty string counts as absent.
pub open spec fn non_empty(o: Option<String>) -> Option<String> {
    match o {
        Some(s) => if s@.len() == 0 { None } else { Some(s) },
        None => None,
    }
}

/// An optional text field with an empty string taken as absent.
pub fn deserialize_option_string(value: Option<String>) -> (r: Option<String>)
    ensures
        r == non_empty(value),
{
    match value {
        Some(s) => {
            if crate::text::chars_of(s.as_str()).len() == 0 {
                None
            } else {
                Some(s)
            }
        },
        None => None,
    }
}

/// An optional flag with absence taken as false.
pub fn deserialize_option_bool(value: Option<bool>) -> (r: bool)
    ensures
        r == (value == Some(true)),
{
    match value {
        Some(v) => v,
        None => false,
    }
}

/// The package section.
#[derive(Debug)]
pub struct CliPackageFields {
    pub package_name: Option<String>,
    pub version_number: Option<String>,
    pub revision_number: Option<String>,
    pub tarball_url: Option<String>,
    pub git_source: Option<String>,
    pub package_type: Option<String>,
    pub spec_file: Option<String>,
    pub homepage: Option<String>,
}

impl CliPackageFields {
    /// The section from its raw values, empty strings taken as absent.
    pub fn from_raw(package_name: Option<String>, version_number: Option<String>, revision_number: Option<String>, tarball_url: Option<String>, git_source: Option<String>, package_type: Option<String>, spec_file: Option<String>, homepage: Option<String>) -> (r: Self)
        ensures
            r.package_name == non_empty(package_name),
            r.version_number == non_empty(version_number),
            r.revision_number == non_empty(revision_number),
            r.tarball_url == non_empty(tarball_url),
            r.git_source == non_empty(git_source),
            r.package_type == non_empty(package_type),
            r.spec_file == non_empty(spec_file),
            r.homepage == non_empty(homepage),
    {
        CliPackageFields {
            package_name: deserialize_option_string(package_name),
            version_number: deserialize_option_string(version_number),
            revision_number: deserialize_option_string(revision_number),
            tarball_url: deserialize_option_string(tarball_url),
            git_source: deserialize_option_string(git_source),
            package_type: deserialize_option_string(package_type),
            spec_file: deserialize_option_string(spec_file),
            homepage: deserialize_option_string(homepage),
        }
    }

    /// The `package_name` field.
    pub fn package_name(&self) -> (r: &Option<String>)
        ensures
            *r == self.package_name,
    {
        &self.package_name
    }

    /// The `version_number` field.
    pub fn version_number(&self) -> (r: &Option<String>)
        ensures
            *r == self.version_number,
    {
        &self.version_number
    }

    /// The `revision_number` field.
    pub fn revision_number(&self) -> (r: &Option<String>)
        ensures
            *r == self.revision_number,
    {
        &self.revision_number
    }

    /// The `tarball_url` field.
    pub fn tarball_url(&self) -> (r: &Option<String>)
        ensures
            *r == self.tarball_url,
    {
        &self.tarball_url
    }

    /// The `git_source` field.
    pub fn git_source(&self) -> (r: &Option<String>)
        ensures
            *r == self.git_source,
    {
        &self.git_source
    }

    /// The `package_type` field.
    pub fn package_type(&self) -> (r: &Option<String>)
        ensures
            *r == self.package_type,
    {
        &self.package_type
    }

    /// The `spec_file` field.
    pub fn spec_file(&self) -> (r: &Option<String>)
        ensures
            *r == self.spec_file,
    {
        &self.spec_file
    }

    /// The `homepage` field.
    pub fn homepage(&self) -> (r: &Option<String>)
        ensures
            *r == self.homepage,
    {
        &self.homepage
    }
}

/// The build environment section.
#[derive(Debug)]
pub struct CliBuildEnv {
    pub codename: Option<String>,
    pub arch: Option<String>,
    pub pkg_builder_version: Option<String>,
    pub debcrafter_version: Option<String>,
    pub run_lintian: bool,
    pub run_piuparts: bool,
    pub run_autopkgtest: bool,
    pub workdir: Option<String>,
    pub lang_env: Option<String>,
}

impl CliBuildEnv {
    /// The section from its raw values: empty strings taken as absent,
    /// absent flags as false.
    pub fn from_raw(codename: Option<String>, arch: Option<String>, pkg_builder_version: Option<String>, debcrafter_version: Option<String>, run_lintian: Option<bool>, run_piuparts: Option<bool>, run_autopkgtest: Option<bool>, workdir: Option<String>, lang_env: Option<String>) -> (r: Self)
        ensures
            r.codename == non_empty(codename),
            r.arch == non_empty(arch),
            r.pkg_builder_version == non_empty(pkg_builder_version),
            r.debcrafter_version == non_empty(debcrafter_version),
            r.workdir == non_empty(workdir),
            r.lang_env == non_empty(lang_env),
            r.run_lintian == (run_lintian == Some(true)),
            r.run_piuparts == (run_piuparts == Some(true)),
            r.run_autopkgtest == (run_autopkgtest == Some(true)),
    {
        CliBuildEnv {
            codename: deserialize_option_string(codename),
            arch: deserialize_option_string(arch),
            pkg_builder_version: deserialize_option_string(pkg_builder_version),
            debcrafter_version: deserialize_option_string(debcrafter_version),
            workdir: deserialize_option_string(workdir),
            lang_env: deserialize_option_string(lang_env),
            run_lintian: deserialize_option_bool(run_lintian),
            run_piuparts: deserialize_option_bool(run_piuparts),
            run_autopkgtest: deserialize_option_bool(run_autopkgtest),
        }
    }

    /// The `codename` field.
    pub fn codename(&self) -> (r: &Option<String>)
        ensures
            *r == self.codename,
    {
        &self.codename
    }

    /// The `arch` field.
    pub fn arch(&self) -> (r: &Option<String>)
        ensures
            *r == self.arch,
    {
        &self.arch
    }

    /// The `pkg_builder_version` field.
    pub fn pkg_builder_version(&self) -> (r: &Option<String>)
        ensures
            *r == self.pkg_builder_version,
    {
        &self.pkg_builder_version
    }

    /// The `debcrafter_version` field.
    pub fn debcrafter_version(&self) -> (r: &Option<String>)
        ensures
            *r == self.debcrafter_version,
    {
        &self.debcrafter_version
    }

    /// The `run_lintian` flag.
    pub fn run_lintian(&self) -> (r: bool)
        ensures
            r == self.run_lintian,
    {
        self.run_lintian
    }

    /// The `run_piuparts` flag.
    pub fn run_piuparts(&self) -> (r: bool)
        ensures
            r == self.run_piuparts,
    {
        self.run_piuparts
    }

    /// The `run_autopkgtest` flag.
    pub fn run_autopkgtest(&self) -> (r: bool)
        ensures
            r == self.run_autopkgtest,
    {
        self.run_autopkgtest
    }

    /// The `workdir` field.
    pub fn workdir(&self) -> (r: &Option<String>)
        ensures
            *r == self.workdir,
    {
        &self.workdir
    }

    /// The `lang_env` field.
    pub fn lang_env(&self) -> (r: &Option<String>)
        ensures
            *r == self.lang_env,
    {
        &self.lang_env
    }
}

/// The logging and run options section.
#[derive(Debug)]
pub struct CliOptionsConfig {
    pub is_ci: bool,
    pub log: Option<String>,
    pub log_to: Option<String>,
    pub reuse_previous_build: bool,
}

impl CliOptionsConfig {
    /// The section from its raw values.
    pub fn from_raw(is_ci: Option<bool>, log: Option<String>, log_to: Option<String>, reuse_previous_build: Option<bool>) -> (r: Self)
        ensures
            r.is_ci == (is_ci == Some(true)),
            r.log == non_empty(log),
            r.log_to == non_empty(log_to),
            r.reuse_previous_build == (reuse_previous_build == Some(true)),
    {
        CliOptionsConfig {
            is_ci: deserialize_option_bool(is_ci),
            log: deserialize_option_string(log),
            log_to: deserialize_option_string(log_to),
            reuse_previous_build: deserialize_option_bool(reuse_previous_build),
        }
    }
}

/// The verification section.
#[derive(Debug)]
pub struct CliVerifyConfig {
    pub tarball_hash: Option<String>,
    pub git_commit: Option<String>,
    pub bin_bash: Option<String>,
}

impl CliVerifyConfig {
    /// The section from its raw values.
    pub fn from_raw(tarball_hash: Option<String>, git_commit: Option<String>, bin_bash: Option<String>) -> (r: Self)
        ensures
            r.tarball_hash == non_empty(tarball_hash),
            r.git_commit == non_empty(git_commit),
            r.bin_bash == non_empty(bin_bash),
    {
        CliVerifyConfig {
            tarball_hash: deserialize_option_string(tarball_hash),
            git_commit: deserialize_option_string(git_commit),
            bin_bash: deserialize_option_string(bin_bash),
        }
    }
}

/// The whole configuration file.
#[derive(Debug)]
pub struct CliConfig {
    pub package_fields: CliPackageFields,
    pub build_env: CliBuildEnv,
    pub cli_options: CliOptionsConfig,
    pub verify: CliVerifyConfig,
}

impl CliConfig {
    /// The package section.
    pub fn package_fields(&self) -> (r: &CliPackageFields)
        ensures
            *r == self.package_fields,
    {
        &self.package_fields
    }

    /// The build environment section.
    pub fn build_env(&self) -> (r: &CliBuildEnv)
        ensures
            *r == self.build_env,
    {
        &self.build_env
    }

    /// The options section.
    pub fn cli_options(&self) -> (r: &CliOptionsConfig)
        ensures
            *r == self.cli_options,
    {
        &self.cli_options
    }

    /// The verification section.
    pub fn verify(&self) -> (r: &CliVerifyConfig)
        ensures
            *r == self.verify,
    {
        &self.verify
    }
}

} // verus!
