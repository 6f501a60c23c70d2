//! The language a package is built with, and the build configuration a
//! distribution packager hands its build environment.
use vstd::prelude::*;
use crate::text::{self, str_eq, to_ascii_lower};

verus! {

/// The language a package is written in.
#[derive(Debug, Clone, Copy, PartialEq, Eq, Structural)]
pub enum LanguageEnv {
    Rust,
    Go,
    JavaScript,
    Java,
    CSharp,
    TypeScript,
    Zig,
}

/// The language a name denotes, ignoring case.
pub open spec fn language_named(lower: Seq<char>) -> Option<LanguageEnv> {
    if lower == "rust"@ {
        Some(LanguageEnv::Rust)
    } else if lower == "go"@ {
        Some(LanguageEnv::Go)
    } else if lower == "javascript"@ {
        Some(LanguageEnv::JavaScript)
    } else if lower == "java"@ {
        Some(LanguageEnv::Java)
    } else if lower == "csharp"@ {
        Some(LanguageEnv::CSharp)
    } else if lower == "typescript"@ {
        Some(LanguageEnv::TypeScript)
    } else if lower == "zig"@ {
        Some(LanguageEnv::Zig)
    } else {
        None
    }
}

impl LanguageEnv {
    /// The language a name denotes, in any case (`Rust`, `rust`, `RUST`);
    /// `None` for an unknown name. The names hold no letter that a
    /// non-ASCII character lower-cases to, so ASCII lower-casing decides
    /// exactly as full lower-casing would.
    pub fn from_string(lang_env: &str) -> (r: Option<LanguageEnv>)
        ensures
            r == language_named(text::ascii_lower_spec(lang_env@)),
    {
        let l = to_ascii_lower(lang_env);
        let s = l.as_str();
        if str_eq(s, "rust") {
            Some(LanguageEnv::Rust)
        } else if str_eq(s, "go") {
            Some(LanguageEnv::Go)
        } else if str_eq(s, "javascript") {
            Some(LanguageEnv::JavaScript)
        } else if str_eq(s, "java") {
            Some(LanguageEnv::Java)
        } else if str_eq(s, "csharp") {
            Some(LanguageEnv::CSharp)
        } else if str_eq(s, "typescript") {
            Some(LanguageEnv::TypeScript)
        } else if str_eq(s, "zig") {
            Some(LanguageEnv::Zig)
        } else {
            None
        }
    }
}

/// What a build environment is built for.
pub struct BuildConfig {
    pub codename: String,
    pub arch: String,
    pub lang_env: LanguageEnv,
}

impl BuildConfig {
    /// A build configuration.
    pub fn new(codename: &str, arch: &str, lang_env: LanguageEnv) -> (r: BuildConfig)
        ensures
            r.codename@ == codename@,
            r.arch@ == arch@,
            r.lang_env == lang_env,
    {
        BuildConfig { codename: text::owned(codename), arch: text::owned(arch), lang_env }
    }

    /// The codename.
    pub fn codename(&self) -> (r: &String)
        ensures
            r@ == self.codename@,
    {
        &self.codename
    }

    /// The architecture.
    pub fn arch(&self) -> (r: &String)
        ensures
            r@ == self.arch@,
    {
        &self.arch
    }

    /// The language.
    pub fn lang_env(&self) -> (r: &LanguageEnv)
        ensures
            *r == self.lang_env,
    {
        &self.lang_env
    }
}

/// Why a distribution packager failed.
#[derive(Debug)]
pub enum PackagerError {
    InvalidCodename(String),
    MissingConfigFields(String),
    PackagingError(String),
}

/// Which distribution's packager a codename selects.
#[derive(Debug, Clone, Copy, PartialEq, Eq, Structural)]
pub enum PackagerKind {
    Bookworm,
    JammyJellyfish,
}

/// The packager a codename selects: bookworm by `bookworm` or `debian 12`,
/// jammy by `jammy jellyfish` or `ubuntu 22.04`.
pub open spec fn packager_for(codename: Seq<char>) -> Option<PackagerKind> {
    if codename == "bookworm"@ || codename == "debian 12"@ {
        Some(PackagerKind::Bookworm)
    } else if codename == "jammy jellyfish"@ || codename == "ubuntu 22.04"@ {
        Some(PackagerKind::JammyJellyfish)
    } else {
        None
    }
}

/// The packager a codename selects; `InvalidCodename` with
/// `Invalid codename '<codename>' specified` for any other.
pub fn select_packager(codename: &str) -> (r: Result<PackagerKind, PackagerError>)
    ensures
        match packager_for(codename@) {
            Some(k) => r matches Ok(x) && x == k,
            None => r matches Err(PackagerError::InvalidCodename(m))
                && m@ == "Invalid codename '"@ + codename@ + "' specified"@,
        },
{
    if str_eq(codename, "bookworm") || str_eq(codename, "debian 12") {
        Ok(PackagerKind::Bookworm)
    } else if str_eq(codename, "jammy jellyfish") || str_eq(codename, "ubuntu 22.04") {
        Ok(PackagerKind::JammyJellyfish)
    } else {
        Err(PackagerError::InvalidCodename(text::cat3("Invalid codename '", codename, "' specified")))
    }
}

} // verus!
