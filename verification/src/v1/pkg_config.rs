//! The package configuration (`pkg-builder.toml`) and its validation.
use vstd::prelude::*;
use crate::text::{self, cat3, is_blank, push_string};

verus! {

/// The message reported for a required field that is empty or blank.
pub open spec fn field_message(name: Seq<char>) -> Seq<char> {
    "field: "@ + name + " cannot be empty"@
}

/// The error a required field contributes: one message when the value is
/// blank (empty once trimmed), none otherwise.
pub open spec fn field_errors(name: Seq<char>, value: Seq<char>) -> Seq<Seq<char>> {
    if text::blank(value) { seq![field_message(name)] } else { seq![] }
}

/// Checks that a required field is not blank.
pub fn validate_not_empty(name: &str, value: &str) -> (r: Result<(), String>)
    ensures
        r is Err <==> text::blank(value@),
        r matches Err(e) ==> e@ == field_message(name@),
{
    if is_blank(value) {
        Err(cat3("field: ", name, " cannot be empty"))
    } else {
        Ok(())
    }
}

/// Appends to `errors` the error of one required field, if any.
fn check_field(errors: &mut Vec<String>, name: &str, value: &str)
    ensures
        text::views(final(errors)@) == text::views(old(errors)@) + field_errors(name@, value@),
{
    match validate_not_empty(name, value) {
        Err(e) => {
            push_string(errors, e);
        },
        Ok(()) => {
            assert(text::views(errors@) =~= text::views(old(errors)@) + field_errors(name@, value@));
        },
    }
}

/// The outcome of a validation: `Ok` when there are no errors, otherwise all
/// of them in order.
fn finish(errors: Vec<String>) -> (r: Result<(), Vec<String>>)
    ensures
        r is Ok <==> errors@.len() == 0,
        r matches Err(e) ==> e@ == errors@,
{
    if errors.len() == 0 {
        Ok(())
    } else {
        Err(errors)
    }
}

/// A configuration section that can check its own required fields.
pub trait Validation {
    /// The messages of all problems found, in the order they are reported.
    spec fn validation_errors(&self) -> Seq<Seq<char>>;

    /// `Ok` when nothing is wrong; otherwise every problem found, in order.
    fn validate(&self) -> (r: Result<(), Vec<String>>)
        ensures
            r is Ok <==> self.validation_errors().len() == 0,
            r matches Err(e) ==> text::views(e@) == self.validation_errors(),
    ;
}

/// The Rust toolchain a package is built with.
#[derive(Debug, PartialEq, Clone, Default)]
pub struct RustConfig {
    pub rust_version: String,
    pub rust_binary_url: String,
    pub rust_binary_gpg_asc: String,
}

impl Validation for RustConfig {
    open spec fn validation_errors(&self) -> Seq<Seq<char>> {
        field_errors("rust_version"@, self.rust_version@)
            + field_errors("rust_binary_url"@, self.rust_binary_url@)
            + field_errors("rust_binary_gpg_asc"@, self.rust_binary_gpg_asc@)
    }

    fn validate(&self) -> (r: Result<(), Vec<String>>) {
        let mut errors: Vec<String> = Vec::new();
        check_field(&mut errors, "rust_version", self.rust_version.as_str());
        check_field(&mut errors, "rust_binary_url", self.rust_binary_url.as_str());
        check_field(&mut errors, "rust_binary_gpg_asc", self.rust_binary_gpg_asc.as_str());
        assert(text::views(errors@) =~= self.validation_errors());
        finish(errors)
    }
}

/// The Go toolchain a package is built with.
#[derive(Debug, PartialEq, Clone, Default)]
pub struct GoConfig {
    pub go_version: String,
    pub go_binary_url: String,
    pub go_binary_checksum: String,
}

impl Validation for GoConfig {
    open spec fn validation_errors(&self) -> Seq<Seq<char>> {
        field_errors("go_version"@, self.go_version@)
            + field_errors("go_binary_url"@, self.go_binary_url@)
            + field_errors("go_binary_checksum"@, self.go_binary_checksum@)
    }

    fn validate(&self) -> (r: Result<(), Vec<String>>) {
        let mut errors: Vec<String> = Vec::new();
        check_field(&mut errors, "go_version", self.go_version.as_str());
        check_field(&mut errors, "go_binary_url", self.go_binary_url.as_str());
        check_field(&mut errors, "go_binary_checksum", self.go_binary_checksum.as_str());
        assert(text::views(errors@) =~= self.validation_errors());
        finish(errors)
    }
}

/// The Node.js toolchain (and optionally yarn) a package is built with.
#[derive(Debug, PartialEq, Clone, Default)]
pub struct JavascriptConfig {
    pub node_version: String,
    pub node_binary_url: String,
    pub node_binary_checksum: String,
    pub yarn_version: Option<String>,
}

impl Validation for JavascriptConfig {
    open spec fn validation_errors(&self) -> Seq<Seq<char>> {
        field_errors("node_version"@, self.node_version@) + match self.yarn_version {
            Some(y) => field_errors("yarn_version"@, y@),
            None => seq![],
        }
    }

    fn validate(&self) -> (r: Result<(), Vec<String>>) {
        let mut errors: Vec<String> = Vec::new();
        check_field(&mut errors, "node_version", self.node_version.as_str());
        match &self.yarn_version {
            Some(y) => {
                check_field(&mut errors, "yarn_version", y.as_str());
            },
            None => {},
        }
        assert(text::views(errors@) =~= self.validation_errors());
        finish(errors)
    }
}

/// The Gradle distribution a Java package is built with.
#[derive(Debug, PartialEq, Clone, Default)]
pub struct GradleConfig {
    pub gradle_version: String,
    pub gradle_binary_url: String,
    pub gradle_binary_checksum: String,
}

/// The JDK (and optionally Gradle) a package is built with.
#[derive(Debug, PartialEq, Clone, Default)]
pub struct JavaConfig {
    pub is_oracle: bool,
    pub jdk_version: String,
    pub jdk_binary_url: String,
    pub jdk_binary_checksum: String,
    pub gradle: Option<GradleConfig>,
}

impl Validation for JavaConfig {
    open spec fn validation_errors(&self) -> Seq<Seq<char>> {
        field_errors("jdk_version"@, self.jdk_version@)
    }

    fn validate(&self) -> (r: Result<(), Vec<String>>) {
        let mut errors: Vec<String> = Vec::new();
        check_field(&mut errors, "jdk_version", self.jdk_version.as_str());
        assert(text::views(errors@) =~= self.validation_errors());
        finish(errors)
    }
}

/// One .NET package to fetch: its file name, SHA-1 hash and download URL.
#[derive(Debug, PartialEq, Clone, Default)]
pub struct DotnetPackage {
    pub name: String,
    pub hash: String,
    pub url: String,
}

/// The .NET SDK a package is built with.
#[derive(Debug, PartialEq, Clone, Default)]
pub struct DotnetConfig {
    pub dotnet_version: String,
    pub dotnet_full_version: String,
    pub use_backup_version: bool,
    pub deps: Option<Vec<String>>,
    pub dotnet_packages: Vec<DotnetPackage>,
}

impl Validation for DotnetConfig {
    open spec fn validation_errors(&self) -> Seq<Seq<char>> {
        field_errors("dotnet_version"@, self.dotnet_version@)
    }

    fn validate(&self) -> (r: Result<(), Vec<String>>) {
        let mut errors: Vec<String> = Vec::new();
        check_field(&mut errors, "dotnet_version", self.dotnet_version.as_str());
        assert(text::views(errors@) =~= self.validation_errors());
        finish(errors)
    }
}

/// The Nim compiler a package is built with.
#[derive(Debug, PartialEq, Clone, Default)]
pub struct NimConfig {
    pub nim_version: String,
    pub nim_binary_url: String,
    pub nim_version_checksum: String,
}

impl Validation for NimConfig {
    open spec fn validation_errors(&self) -> Seq<Seq<char>> {
        field_errors("nim_version"@, self.nim_version@)
            + field_errors("nim_binary_url"@, self.nim_binary_url@)
            + field_errors("nim_version_checksum"@, self.nim_version_checksum@)
    }

    fn validate(&self) -> (r: Result<(), Vec<String>>) {
        let mut errors: Vec<String> = Vec::new();
        check_field(&mut errors, "nim_version", self.nim_version.as_str());
        check_field(&mut errors, "nim_binary_url", self.nim_binary_url.as_str());
        check_field(&mut errors, "nim_version_checksum", self.nim_version_checksum.as_str());
        assert(text::views(errors@) =~= self.validation_errors());
        finish(errors)
    }
}

/// The language toolchain a package needs at build time.
#[derive(Debug, PartialEq, Clone, Default)]
pub enum LanguageEnv {
    Rust(RustConfig),
    Go(GoConfig),
    JavaScript(JavascriptConfig),
    Java(JavaConfig),
    Dotnet(DotnetConfig),
    TypeScript(JavascriptConfig),
    Nim(NimConfig),
    #[default]
    C,
}

impl Validation for LanguageEnv {
    open spec fn validation_errors(&self) -> Seq<Seq<char>> {
        match self {
            LanguageEnv::Rust(c) => c.validation_errors(),
            LanguageEnv::Go(c) => c.validation_errors(),
            LanguageEnv::JavaScript(c) => c.validation_errors(),
            LanguageEnv::Java(c) => c.validation_errors(),
            LanguageEnv::Dotnet(c) => c.validation_errors(),
            LanguageEnv::TypeScript(c) => c.validation_errors(),
            LanguageEnv::Nim(c) => c.validation_errors(),
            LanguageEnv::C => seq![],
        }
    }

    fn validate(&self) -> (r: Result<(), Vec<String>>) {
        match self {
            LanguageEnv::Rust(c) => c.validate(),
            LanguageEnv::Go(c) => c.validate(),
            LanguageEnv::JavaScript(c) => c.validate(),
            LanguageEnv::Java(c) => c.validate(),
            LanguageEnv::Dotnet(c) => c.validate(),
            LanguageEnv::TypeScript(c) => c.validate(),
            LanguageEnv::Nim(c) => c.validate(),
            LanguageEnv::C => Ok(()),
        }
    }
}

/// A package built from a release tarball.
#[derive(Debug, PartialEq, Clone, Default)]
pub struct DefaultPackageTypeConfig {
    pub tarball_url: String,
    pub tarball_hash: String,
    pub language_env: LanguageEnv,
}

impl Validation for DefaultPackageTypeConfig {
    /// Both checks look at the tarball URL: the hash field is reported
    /// under its own name, but its value is not what is tested.
    open spec fn validation_errors(&self) -> Seq<Seq<char>> {
        field_errors("tarball_url"@, self.tarball_url@) + field_errors("tarball_hash"@, self.tarball_url@)
    }

    fn validate(&self) -> (r: Result<(), Vec<String>>) {
        let mut errors: Vec<String> = Vec::new();
        check_field(&mut errors, "tarball_url", self.tarball_url.as_str());
        check_field(&mut errors, "tarball_hash", self.tarball_url.as_str());
        assert(text::views(errors@) =~= self.validation_errors());
        finish(errors)
    }
}

/// A git submodule to check out at a given commit.
#[derive(Debug, PartialEq, Clone, Default)]
pub struct SubModule {
    pub commit: String,
    pub path: String,
}

/// A package built from a git checkout.
#[derive(Debug, PartialEq, Clone, Default)]
pub struct GitPackageTypeConfig {
    pub git_commit: String,
    pub git_url: String,
    pub language_env: LanguageEnv,
    pub submodules: Vec<SubModule>,
}

impl Validation for GitPackageTypeConfig {
    open spec fn validation_errors(&self) -> Seq<Seq<char>> {
        field_errors("git_commit"@, self.git_commit@) + field_errors("git_url"@, self.git_url@)
    }

    fn validate(&self) -> (r: Result<(), Vec<String>>) {
        let mut errors: Vec<String> = Vec::new();
        check_field(&mut errors, "git_commit", self.git_commit.as_str());
        check_field(&mut errors, "git_url", self.git_url.as_str());
        assert(text::views(errors@) =~= self.validation_errors());
        finish(errors)
    }
}

/// Where a package's source comes from.
#[derive(Debug, PartialEq, Clone, Default)]
pub enum PackageType {
    Default(DefaultPackageTypeConfig),
    Git(GitPackageTypeConfig),
    #[default]
    Virtual,
}

impl Validation for PackageType {
    open spec fn validation_errors(&self) -> Seq<Seq<char>> {
        match self {
            PackageType::Default(c) => c.validation_errors(),
            PackageType::Git(c) => c.validation_errors(),
            PackageType::Virtual => seq![],
        }
    }

    fn validate(&self) -> (r: Result<(), Vec<String>>) {
        match self {
            PackageType::Default(c) => c.validate(),
            PackageType::Git(c) => c.validate(),
            PackageType::Virtual => Ok(()),
        }
    }
}

/// The package's name, version and metadata.
#[derive(Debug, PartialEq, Clone, Default)]
pub struct PackageFields {
    pub spec_file: String,
    pub package_name: String,
    pub version_number: String,
    pub revision_number: String,
    pub homepage: String,
}

impl Validation for PackageFields {
    open spec fn validation_errors(&self) -> Seq<Seq<char>> {
        field_errors("spec_file"@, self.spec_file@)
            + field_errors("package_name"@, self.package_name@)
            + field_errors("version_number"@, self.version_number@)
            + field_errors("revision_number"@, self.revision_number@)
            + field_errors("homepage"@, self.homepage@)
    }

    fn validate(&self) -> (r: Result<(), Vec<String>>) {
        let mut errors: Vec<String> = Vec::new();
        check_field(&mut errors, "spec_file", self.spec_file.as_str());
        check_field(&mut errors, "package_name", self.package_name.as_str());
        check_field(&mut errors, "version_number", self.version_number.as_str());
        check_field(&mut errors, "revision_number", self.revision_number.as_str());
        check_field(&mut errors, "homepage", self.homepage.as_str());
        assert(text::views(errors@) =~= self.validation_errors());
        finish(errors)
    }
}

/// The build environment: distribution, architecture, tool versions and
/// which checks run after the build.
#[derive(Debug, PartialEq, Clone, Default)]
pub struct BuildEnv {
    pub codename: String,
    pub arch: String,
    pub pkg_builder_version: String,
    pub debcrafter_version: String,
    pub run_lintian: Option<bool>,
    pub run_piuparts: Option<bool>,
    pub run_autopkgtest: Option<bool>,
    pub workdir: Option<String>,
    pub sbuild_cache_dir: Option<String>,
    pub lintian_version: String,
    pub piuparts_version: String,
    pub autopkgtest_version: String,
}

impl Validation for BuildEnv {
    open spec fn validation_errors(&self) -> Seq<Seq<char>> {
        field_errors("codename"@, self.codename@)
            + field_errors("arch"@, self.arch@)
            + field_errors("pkg_builder_version"@, self.pkg_builder_version@)
            + field_errors("debcrafter_version"@, self.debcrafter_version@)
    }

    fn validate(&self) -> (r: Result<(), Vec<String>>) {
        let mut errors: Vec<String> = Vec::new();
        check_field(&mut errors, "codename", self.codename.as_str());
        check_field(&mut errors, "arch", self.arch.as_str());
        check_field(&mut errors, "pkg_builder_version", self.pkg_builder_version.as_str());
        check_field(&mut errors, "debcrafter_version", self.debcrafter_version.as_str());
        assert(text::views(errors@) =~= self.validation_errors());
        finish(errors)
    }
}

/// Logging options.
#[derive(Debug, PartialEq, Clone, Default)]
pub struct CliOptions {
    pub log: Option<String>,
    pub log_to: Option<String>,
}

/// Options of the verification step.
#[derive(Debug, PartialEq, Clone, Default)]
pub struct Verify {
    pub bin_bash: Option<String>,
}

/// The whole package configuration.
#[derive(Debug, PartialEq, Clone, Default)]
pub struct PkgConfig {
    pub package_fields: PackageFields,
    pub package_type: PackageType,
    pub build_env: BuildEnv,
    pub cli_options: Option<CliOptions>,
    pub verify: Option<Verify>,
}

/// Appends the errors of a section's validation, if it failed.
fn append_errors(errors: &mut Vec<String>, r: Result<(), Vec<String>>)
    ensures
        text::views(final(errors)@) == text::views(old(errors)@) + match r {
            Ok(_) => Seq::<Seq<char>>::empty(),
            Err(e) => text::views(e@),
        },
{
    match r {
        Ok(()) => {
            assert(text::views(errors@) =~= text::views(old(errors)@) + Seq::<Seq<char>>::empty());
        },
        Err(mut e) => {
            let ghost ev = e@;
            errors.append(&mut e);
            assert(text::views(errors@) =~= text::views(old(errors)@) + text::views(ev));
        },
    }
}

impl Validation for PkgConfig {
    /// The package fields' errors, then the source's, then the build
    /// environment's.
    open spec fn validation_errors(&self) -> Seq<Seq<char>> {
        self.package_fields.validation_errors() + self.package_type.validation_errors()
            + self.build_env.validation_errors()
    }

    fn validate(&self) -> (r: Result<(), Vec<String>>) {
        let mut errors: Vec<String> = Vec::new();
        append_errors(&mut errors, self.package_fields.validate());
        append_errors(&mut errors, self.package_type.validate());
        append_errors(&mut errors, self.build_env.validate());
        assert(text::views(errors@) =~= self.validation_errors());
        finish(errors)
    }
}

/// The package fields validate exactly when none of them is blank.
pub proof fn lemma_package_fields_valid_iff(f: PackageFields)
    ensures
        f.validation_errors().len() == 0 <==> (!text::blank(f.spec_file@) && !text::blank(f.package_name@)
            && !text::blank(f.version_number@) && !text::blank(f.revision_number@) && !text::blank(f.homepage@)),
{
}

/// The build environment validates exactly when its codename,
/// architecture and tool versions are not blank.
pub proof fn lemma_build_env_valid_iff(b: BuildEnv)
    ensures
        b.validation_errors().len() == 0 <==> (!text::blank(b.codename@) && !text::blank(b.arch@)
            && !text::blank(b.pkg_builder_version@) && !text::blank(b.debcrafter_version@)),
{
}

/// A whole configuration reports its sections' problems and nothing else:
/// it validates exactly when every section does.
pub proof fn lemma_config_valid_iff_sections(c: PkgConfig)
    ensures
        c.validation_errors().len() == 0 <==> (c.package_fields.validation_errors().len() == 0
            && c.package_type.validation_errors().len() == 0 && c.build_env.validation_errors().len() == 0),
        c.validation_errors().len() == c.package_fields.validation_errors().len()
            + c.package_type.validation_errors().len() + c.build_env.validation_errors().len(),
{
}

} // verus!
