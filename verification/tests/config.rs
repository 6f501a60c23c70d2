use pkg_builder::v1::cli_config::{deserialize_option_bool, deserialize_option_string, CliBuildEnv, CliPackageFields};
use pkg_builder::v1::distribution::debian::bookworm::{configured_workdir, BookwormPackager, BuildStep};
use pkg_builder::v1::packager::{DistributionPackager, PackagerOperation};
use pkg_builder::v1::pkg_config::{BuildEnv, GitPackageTypeConfig, LanguageEnv, PackageFields, PackageType, PkgConfig};
use pkg_builder::v1_build::distribution::debian::bookworm::BookwormPackagerConfigBuilder;
use pkg_builder::v1_build::distribution::packager::{select_packager, BuildConfig, LanguageEnv as BuildLanguage, PackagerError, PackagerKind};
use pkg_builder::config::{Distribution, DebianCodename};

#[test]
fn option_fields() {
    assert_eq!(deserialize_option_string(Some("".to_string())), None);
    assert_eq!(deserialize_option_string(Some("x".to_string())), Some("x".to_string()));
    assert!(!deserialize_option_bool(None));
    assert!(deserialize_option_bool(Some(true)));
    let p = CliPackageFields::from_raw(Some("n".to_string()), Some("".to_string()), None, None, None, None, None, None);
    assert_eq!(p.package_name(), &Some("n".to_string()));
    assert_eq!(p.version_number(), &None);
    let b = CliBuildEnv::from_raw(Some("bookworm".to_string()), None, None, None, Some(true), None, Some(false), Some("".to_string()), None);
    assert_eq!(b.codename(), &Some("bookworm".to_string()));
    assert!(b.run_lintian());
    assert!(!b.run_piuparts());
    assert_eq!(b.workdir(), &None);
}

#[test]
fn language_names() {
    assert!(matches!(BuildLanguage::from_string("RUST"), Some(BuildLanguage::Rust)));
    assert!(matches!(BuildLanguage::from_string("TypeScript"), Some(BuildLanguage::TypeScript)));
    assert!(BuildLanguage::from_string("cobol").is_none());
    let c = BuildConfig::new("bookworm", "amd64", BuildLanguage::Go);
    assert_eq!(c.codename(), "bookworm");
    assert!(matches!(c.lang_env(), BuildLanguage::Go));
    assert!(matches!(select_packager("debian 12"), Ok(PackagerKind::Bookworm)));
    assert!(matches!(select_packager("ubuntu 22.04"), Ok(PackagerKind::JammyJellyfish)));
    match select_packager("sid") {
        Err(PackagerError::InvalidCodename(m)) => assert_eq!(m, "Invalid codename 'sid' specified"),
        _ => panic!("expected an invalid codename"),
    }
}

#[test]
fn packager_config_builder() {
    let missing = BookwormPackagerConfigBuilder::new().arch("amd64".to_string()).config();
    assert_eq!(missing.err(), Some("Missing package_name field".to_string()));
    let built = BookwormPackagerConfigBuilder::new()
        .arch("amd64".to_string())
        .package_name("p".to_string())
        .version_number("1".to_string())
        .tarball_url("u".to_string())
        .git_source("g".to_string())
        .is_virtual_package(true)
        .is_git(false)
        .lang_env("Go".to_string())
        .config()
        .ok()
        .unwrap();
    assert_eq!(built.package_name, "p");
    assert!(built.is_virtual_package);
    assert!(matches!(built.lang_env, BuildLanguage::Go));
    let unknown = BookwormPackagerConfigBuilder::new()
        .arch("a".to_string())
        .package_name("p".to_string())
        .version_number("1".to_string())
        .tarball_url("u".to_string())
        .git_source("g".to_string())
        .lang_env("cobol".to_string())
        .config();
    assert_eq!(unknown.err(), Some("Missing lang_env field".to_string()));
}

fn pkg_config(codename: &str, package_type: PackageType) -> PkgConfig {
    PkgConfig {
        package_fields: PackageFields {
            spec_file: "hello.sss".to_string(),
            package_name: "hello".to_string(),
            version_number: "1.0.0".to_string(),
            revision_number: "1".to_string(),
            homepage: "https://h".to_string(),
        },
        package_type,
        build_env: BuildEnv { codename: codename.to_string(), arch: "amd64".to_string(), debcrafter_version: "latest".to_string(), ..Default::default() },
        cli_options: None,
        verify: None,
    }
}

#[test]
fn distribution_packager_codenames() {
    let p = DistributionPackager::new(pkg_config("bookworm", PackageType::Virtual), "/cfg".to_string());
    assert_eq!(p.package(), Ok(PackagerOperation::Package));
    assert_eq!(p.verify(true), Ok(PackagerOperation::Verify { package: true }));
    let q = DistributionPackager::new(pkg_config("sid", PackageType::Virtual), "/cfg".to_string());
    assert_eq!(q.run_lintian(), Err("Invalid codename 'sid' specified".to_string()));
    let t = DistributionPackager::new(pkg_config("trixie", PackageType::Virtual), "/cfg".to_string());
    let e = Err("Invalid codename 'trixie' specified".to_string());
    assert_eq!(t.package(), e);
    assert_eq!(t.run_piuparts(), e);
    assert_eq!(t.run_autopkgtests(), e);
    assert_eq!(t.clean_build_env(), e);
    assert_eq!(t.create_build_env(), e);
    assert_eq!(t.verify(false), e);
}

#[test]
fn bookworm_packager_layout_and_steps() {
    let cfg = pkg_config("bookworm", PackageType::Git(GitPackageTypeConfig {
        git_commit: "c".to_string(),
        git_url: "https://g".to_string(),
        language_env: LanguageEnv::C,
        ..Default::default()
    }));
    assert_eq!(configured_workdir(&cfg), "~/.pkg-builder/packages/bookworm");
    let p = BookwormPackager::new(cfg, "/cfg".to_string(), "/w".to_string());
    assert_eq!(p.debian_artifacts_dir, "/w/hello");
    assert_eq!(p.debian_orig_tarball_path, "/w/hello/hello_1.0.0.orig.tar.gz");
    assert_eq!(p.build_files_dir, "/w/hello/hello-1.0.0");
    assert_eq!(p.source_to_patch_from_path, "/cfg/src");
    assert_eq!(p.config.package_fields.spec_file, "/cfg/hello.sss");
    let steps = p.package_steps();
    assert_eq!(steps.len(), 6);
    assert!(matches!(&steps[1], BuildStep::DownloadGit { git_url, tag, .. } if git_url == "https://g" && tag == "c"));
    assert!(matches!(&steps[5], BuildStep::SetupSbuild));
    let env = p.into_build_env();
    assert_eq!(env.build_files_dir, "/w/hello/hello-1.0.0");
    assert_eq!(Distribution::Debian(DebianCodename::Trixie).as_short(), "trixie");
}
