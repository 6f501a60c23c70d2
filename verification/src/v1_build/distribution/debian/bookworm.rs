//! The bookworm packager's configuration, assembled field by field.
use vstd::prelude::*;
use crate::text;
use crate::v1_build::distribution::packager::{self, LanguageEnv};

verus! {

/// A complete bookworm packager configuration.
pub struct BookwormPackagerConfig {
    pub arch: String,
    pub package_name: String,
    pub version_number: String,
    pub tarball_url: String,
    pub git_source: String,
    pub is_virtual_package: bool,
    pub is_git: bool,
    pub lang_env: LanguageEnv,
}

/// A bookworm packager configuration under construction.
pub struct BookwormPackagerConfigBuilder {
    pub arch: Option<String>,
    pub package_name: Option<String>,
    pub version_number: Option<String>,
    pub tarball_url: Option<String>,
    pub git_source: Option<String>,
    pub is_virtual_package: bool,
    pub is_git: bool,
    pub lang_env: Option<LanguageEnv>,
}

/// The first field missing from a builder, in the order they are checked.
pub open spec fn first_missing(b: BookwormPackagerConfigBuilder) -> Option<Seq<char>> {
    if b.arch is None {
        Some("Missing arch field"@)
    } else if b.package_name is None {
        Some("Missing package_name field"@)
    } else if b.version_number is None {
        Some("Missing version_number field"@)
    } else if b.tarball_url is None {
        Some("Missing tarball_url field"@)
    } else if b.git_source is None {
        Some("Missing git_source field"@)
    } else if b.lang_env is None {
        Some("Missing lang_env field"@)
    } else {
        None
    }
}

impl BookwormPackagerConfigBuilder {
    /// Nothing set: no fields, not virtual, not git.
    pub fn new() -> (r: Self)
        ensures
            r.arch is None && r.package_name is None && r.version_number is None && r.tarball_url is None
                && r.git_source is None && r.lang_env is None && !r.is_virtual_package && !r.is_git,
    {
        BookwormPackagerConfigBuilder {
            arch: None,
            package_name: None,
            version_number: None,
            tarball_url: None,
            git_source: None,
            is_virtual_package: false,
            is_git: false,
            lang_env: None,
        }
    }

    /// Sets the architecture.
    pub fn arch(self, arch: String) -> (r: Self)
        ensures
            r == (BookwormPackagerConfigBuilder { arch: Some(arch), ..self }),
    {
        BookwormPackagerConfigBuilder { arch: Some(arch), ..self }
    }

    /// Sets the package name.
    pub fn package_name(self, package_name: String) -> (r: Self)
        ensures
            r == (BookwormPackagerConfigBuilder { package_name: Some(package_name), ..self }),
    {
        BookwormPackagerConfigBuilder { package_name: Some(package_name), ..self }
    }

    /// Sets the version.
    pub fn version_number(self, version_number: String) -> (r: Self)
        ensures
            r == (BookwormPackagerConfigBuilder { version_number: Some(version_number), ..self }),
    {
        BookwormPackagerConfigBuilder { version_number: Some(version_number), ..self }
    }

    /// Sets the tarball URL.
    pub fn tarball_url(self, tarball_url: String) -> (r: Self)
        ensures
            r == (BookwormPackagerConfigBuilder { tarball_url: Some(tarball_url), ..self }),
    {
        BookwormPackagerConfigBuilder { tarball_url: Some(tarball_url), ..self }
    }

    /// Sets the git source.
    pub fn git_source(self, git_source: String) -> (r: Self)
        ensures
            r == (BookwormPackagerConfigBuilder { git_source: Some(git_source), ..self }),
    {
        BookwormPackagerConfigBuilder { git_source: Some(git_source), ..self }
    }

    /// Marks the package virtual or not.
    pub fn is_virtual_package(self, is_virtual_package: bool) -> (r: Self)
        ensures
            r == (BookwormPackagerConfigBuilder { is_virtual_package, ..self }),
    {
        BookwormPackagerConfigBuilder { is_virtual_package, ..self }
    }

    /// Marks the package as built from git or not.
    pub fn is_git(self, is_git: bool) -> (r: Self)
        ensures
            r == (BookwormPackagerConfigBuilder { is_git, ..self }),
    {
        BookwormPackagerConfigBuilder { is_git, ..self }
    }

    /// Sets the language by name; an unknown name leaves it unset.
    pub fn lang_env(self, lang_env: String) -> (r: Self)
        ensures
            r == (BookwormPackagerConfigBuilder {
                lang_env: packager::language_named(text::ascii_lower_spec(lang_env@)),
                ..self
            }),
    {
        let l = LanguageEnv::from_string(lang_env.as_str());
        BookwormPackagerConfigBuilder { lang_env: l, ..self }
    }

    /// The configuration, or the first missing field:
    /// `Missing <field> field`.
    pub fn config(self) -> (r: Result<BookwormPackagerConfig, String>)
        ensures
            match first_missing(self) {
                Some(m) => r matches Err(e) && e@ == m,
                None => r matches Ok(c) && Some(c.arch) == self.arch && Some(c.package_name) == self.package_name
                    && Some(c.version_number) == self.version_number && Some(c.tarball_url) == self.tarball_url
                    && Some(c.git_source) == self.git_source && Some(c.lang_env) == self.lang_env
                    && c.is_virtual_package == self.is_virtual_package && c.is_git == self.is_git,
            },
    {
        let arch = match self.arch {
            Some(a) => a,
            None => {
                return Err(text::owned("Missing arch field"));
            },
        };
        let package_name = match self.package_name {
            Some(a) => a,
            None => {
                return Err(text::owned("Missing package_name field"));
            },
        };
        let version_number = match self.version_number {
            Some(a) => a,
            None => {
                return Err(text::owned("Missing version_number field"));
            },
        };
        let tarball_url = match self.tarball_url {
            Some(a) => a,
            None => {
                return Err(text::owned("Missing tarball_url field"));
            },
        };
        let git_source = match self.git_source {
            Some(a) => a,
            None => {
                return Err(text::owned("Missing git_source field"));
            },
        };
        let lang_env = match self.lang_env {
            Some(a) => a,
            None => {
                return Err(text::owned("Missing lang_env field"));
            },
        };
        Ok(BookwormPackagerConfig {
            arch,
            package_name,
            version_number,
            tarball_url,
            git_source,
            is_virtual_package: self.is_virtual_package,
            is_git: self.is_git,
            lang_env,
        })
    }
}

} // verus!
