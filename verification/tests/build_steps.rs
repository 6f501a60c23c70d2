use pkg_builder::v1::build::command_builder::CommandBuilder;
use pkg_builder::v1::build::debian::autopkg::Autopkgtest as AutopkgtestBuilder;
use pkg_builder::v1::build::debian::autopkg_image::AutopkgtestImageBuilder;
use pkg_builder::v1::build::debian::lintian::Lintian as LintianBuilder;
use pkg_builder::v1::build::debian::piuparts::Piuparts as PiupartsBuilder;
use pkg_builder::v1::build::debian::sbuild::SbuildBuilder;
use pkg_builder::v1::build::debian::sbuild_create_chroot::SbuildCreateChroot as CreateChrootBuilder;
use pkg_builder::v1::build::dir_setup::{
    calculate_sha256, calculate_sha512, components_to_strip, count_segments, expand_path, extract_args, get_build_artifacts_dir, get_build_files_dir,
    get_tarball_path, get_tarball_url, hex, longest_common_prefix, patch_standards_version, verify_hash,
    verify_tarball_checksum, ExpandedPath,
};
use pkg_builder::v1::build::language_installer::{get_installer, transform_name, LanguageInstaller};
use pkg_builder::v1::build::sbuild::{get_keyring, get_repo_url, normalize_codename, Sbuild};
use pkg_builder::v1::build::sbuild_backend::{
    calculate_sha1, check_output_hash, parse_tool_version, tool_version_command, warn_compare_versions, verify_outputs, PackageHash,
    VersionComparison,
};
use pkg_builder::v1::pkg_config::{
    BuildEnv, DefaultPackageTypeConfig, DotnetConfig, DotnetPackage, GoConfig, JavascriptConfig, LanguageEnv,
    NimConfig, PackageFields, PackageType, PkgConfig, RustConfig,
};

fn config(codename: &str, lang: LanguageEnv) -> PkgConfig {
    PkgConfig {
        package_fields: PackageFields {
            spec_file: "hello.sss".to_string(),
            package_name: "hello".to_string(),
            version_number: "1.0.0".to_string(),
            revision_number: "1".to_string(),
            homepage: "https://example.com".to_string(),
        },
        package_type: PackageType::Default(DefaultPackageTypeConfig {
            tarball_url: "hello-1.0.0.tar.gz".to_string(),
            tarball_hash: "".to_string(),
            language_env: lang,
        }),
        build_env: BuildEnv {
            codename: codename.to_string(),
            arch: "amd64".to_string(),
            run_lintian: Some(true),
            ..Default::default()
        },
        cli_options: None,
        verify: None,
    }
}

#[test]
fn codename_lookups() {
    assert_eq!(normalize_codename("bookworm").unwrap(), "bookworm");
    assert_eq!(normalize_codename("noble numbat").unwrap(), "noble");
    assert_eq!(normalize_codename("jammy jellyfish").unwrap(), "jammy");
    assert_eq!(normalize_codename("sid").unwrap_err(), "Not supported distribution");
    assert_eq!(get_keyring("noble numbat").unwrap(), "/usr/share/keyrings/ubuntu-archive-keyring.gpg");
    assert_eq!(get_repo_url("bookworm").unwrap(), "http://deb.debian.org/debian");
    assert!(get_repo_url("trixie").is_err());
}

#[test]
fn sbuild_go_deps_and_names() {
    let go = GoConfig { go_version: "1.22".to_string(), go_binary_url: "https://go/x.tgz".to_string(), go_binary_checksum: "abc".to_string() };
    let sbuild = Sbuild::new(config("bookworm", LanguageEnv::Go(go)), "/w/hello/hello-1.0.0".to_string());
    assert_eq!(sbuild.cache_dir, "~/.cache/sbuild");
    let deps = sbuild.get_build_deps_not_in_debian();
    assert_eq!(deps.len(), 9);
    assert_eq!(deps[1], "cd /tmp && curl -o go.tar.gz -L https://go/x.tgz");
    assert_eq!(deps[2], "cd /tmp && echo \"abc go.tar.gz\" >> hash_file.txt && cat hash_file.txt");
    assert!(sbuild.get_test_deps_not_in_debian().is_empty());
    assert_eq!(sbuild.get_deb_dir(), "/w/hello");
    assert_eq!(sbuild.get_deb_name(), "/w/hello/hello_1.0.0-1_amd64.deb");
    assert_eq!(sbuild.get_changes_file(), "/w/hello/hello_1.0.0-1_amd64.changes");
    assert_eq!(std::path::Path::new(&sbuild.get_changes_file()).with_extension("deb").to_str(), Some(sbuild.get_deb_name().as_str()));
    assert_eq!(sbuild.get_cache_file("/c"), "/c/bookworm-amd64.tar.gz");
    let args = sbuild.package_args("/c/bookworm-amd64.tar.gz").unwrap();
    assert_eq!(&args[..3], &["-d", "bookworm", "-A"]);
    assert!(args.contains(&"--chroot-setup-commands=apt install -y curl".to_string()));
    assert!(args.contains(&"--run-lintian".to_string()));
    assert_eq!(args.last().unwrap(), "--no-run-autopkgtest");
}

#[test]
fn sbuild_dotnet_per_codename() {
    let dn = DotnetConfig { dotnet_version: "8.0".to_string(), dotnet_full_version: "8.0.100-1".to_string(), ..Default::default() };
    let bookworm = Sbuild::new(config("bookworm", LanguageEnv::Dotnet(dn.clone())), "/w/p/b".to_string());
    let deps = bookworm.get_build_deps_not_in_debian();
    assert_eq!(deps[5], "apt-get install -y dotnet-sdk-8.0=8.0.100-1");
    assert_eq!(bookworm.get_test_deps_not_in_debian().len(), 5);
    let piuparts = bookworm.piuparts_args().unwrap();
    assert!(piuparts.contains(&"--extra-repo=deb https://packages.microsoft.com/debian/12/prod bookworm main".to_string()));
    let noble = Sbuild::new(config("noble numbat", LanguageEnv::Dotnet(dn.clone())), "/w/p/b".to_string());
    assert_eq!(noble.get_build_deps_not_in_debian()[1], "apt-get install -y dotnet8.0=8.0.100-1");
    let setup = noble.build_chroot_setup_commands();
    assert_eq!(setup.last().unwrap(), "--chroot-setup-commands=apt update");
    assert!(noble.get_test_deps_not_in_debian().is_empty());
    let other = Sbuild::new(config("sid", LanguageEnv::Dotnet(dn)), "/w/p/b".to_string());
    assert!(other.get_build_deps_not_in_debian().is_empty());
    assert!(other.package_args("c").is_err());
    assert!(other.piuparts_args().is_err());
}

#[test]
fn sbuild_lintian_and_autopkgtest_args() {
    let noble = Sbuild::new(config("noble numbat", LanguageEnv::C), "/w/hello/b".to_string());
    let args = noble.lintian_args().unwrap();
    assert_eq!(args[4], "\"/w/hello/hello_1.0.0-1_amd64.changes\"");
    assert_eq!(&args[10..], &["--suppress-tags", "malformed-deb-archive"]);
    let bookworm = Sbuild::new(config("bookworm", LanguageEnv::C), "/w/hello/b".to_string());
    assert_eq!(bookworm.lintian_args().unwrap().len(), 10);
    let a = bookworm.autopkgtest_args("/img");
    assert_eq!(a, vec!["/w/hello/hello_1.0.0-1_amd64.changes", "--no-built-binaries", "--apt-upgrade", "--", "qemu", "/img"]);
    let (cmd, image_args) = bookworm.autopkgtest_image_command("bookworm", "/c/i.img").unwrap();
    assert_eq!(cmd, "autopkgtest-build-qemu");
    assert_eq!(image_args, vec!["bookworm", "\"/c/i.img\"", "--mirror=http://deb.debian.org/debian", "--arch=amd64"]);
    assert_eq!(bookworm.autopkgtest_image_command("noble", "/i").unwrap_err(), "Unsupported codename: noble");
    let mut sb = Sbuild::new(config("bookworm", LanguageEnv::C), "/w/hello/b".to_string());
    sb.cache_dir = "/cache".to_string();
    assert_eq!(sb.autopkgtest_image_path("bookworm"), "/cache/autopkgtest-bookworm-amd64.img");
    assert_eq!(sb.expanded_cache_dir(), Some("/cache".to_string()));
    sb.cache_dir = "rel".to_string();
    assert_eq!(sb.expanded_cache_dir(), None);
}

#[test]
fn sbuild_node_and_nim_deps() {
    let node = JavascriptConfig { node_version: "20".to_string(), node_binary_url: "u".to_string(), node_binary_checksum: "c".to_string(), yarn_version: Some("1.22".to_string()) };
    let s = Sbuild::new(config("bookworm", LanguageEnv::TypeScript(node)), "/w/p/b".to_string());
    let deps = s.get_build_deps_not_in_debian();
    assert_eq!(deps.len(), 16);
    assert_eq!(deps[13], "npm install --global yarn@1.22");
    let nim = NimConfig { nim_version: "2.0".to_string(), nim_binary_url: "u".to_string(), nim_version_checksum: "c".to_string() };
    let s = Sbuild::new(config("bookworm", LanguageEnv::Nim(nim)), "/w/p/b".to_string());
    let deps = s.get_build_deps_not_in_debian();
    assert_eq!(deps[1], "rm -rf /tmp/nim-2.0 && rm -rf /usr/lib/nim/nim-2.0&& rm -rf /opt/lib/nim/nim-2.0 && mkdir /tmp/nim-2.0");
    let rust = RustConfig { rust_version: "1".to_string(), rust_binary_url: "u".to_string(), rust_binary_gpg_asc: "sig".to_string() };
    let s = Sbuild::new(config("bookworm", LanguageEnv::Rust(rust)), "/w/p/b".to_string());
    assert_eq!(s.get_build_deps_not_in_debian()[2], "cd /tmp && echo \"sig\" >> rust.tar.xz.asc && cat rust.tar.xz.asc ");
    let mut virt = config("bookworm", LanguageEnv::C);
    virt.package_type = PackageType::Virtual;
    let s = Sbuild::new(virt, "/w/p/b".to_string());
    assert!(s.get_build_deps_not_in_debian().is_empty());
}

#[test]
fn command_builder_fills_placeholders() {
    let mut b = CommandBuilder::new();
    b.add("plain");
    b.add_with("a {} b {}", "X");
    b.add_with_args("echo {} {}.deb", &["h", "n"]);
    assert_eq!(b.build(), vec!["plain", "a X b X", "echo h n.deb"]);
}

#[test]
fn language_installers() {
    let go = LanguageEnv::Go(GoConfig { go_version: "1".to_string(), go_binary_url: "U".to_string(), go_binary_checksum: "C".to_string() });
    let deps = get_installer(&go).get_build_deps("amd64", "bookworm");
    assert_eq!(deps[1], "cd /tmp && wget -q -O go.tar.gz U");
    assert_eq!(deps.len(), 9);
    let nim = LanguageEnv::Nim(NimConfig { nim_version: "2.0".to_string(), nim_binary_url: "u".to_string(), nim_version_checksum: "c".to_string() });
    assert_eq!(
        get_installer(&nim).get_build_deps("amd64", "bookworm")[1],
        "rm -rf /tmp/nim-2.0 && rm -rf /usr/lib/nim/nim-2.0 && rm -rf /opt/lib/nim/nim-2.0 && mkdir /tmp/nim-2.0"
    );
    let dn = LanguageEnv::Dotnet(DotnetConfig {
        dotnet_version: "8.0".to_string(),
        dotnet_packages: vec![DotnetPackage { name: "dotnet-sdk-8.0_8.0.100-1_amd64".to_string(), hash: "h".to_string(), url: "https://u".to_string() }],
        ..Default::default()
    });
    let deps = get_installer(&dn).get_build_deps("amd64", "bookworm");
    assert_eq!(deps[5], "cd /tmp && apt install -y --allow-downgrades dotnet-sdk-8.0=8.0.100-1");
    assert_eq!(deps[8], "cd /tmp &&  echo h dotnet-sdk-8.0_8.0.100-1_amd64.deb >> hash_file.txt && cat hash_file.txt");
    assert_eq!(deps.len(), 12);
    assert_eq!(get_installer(&dn).get_test_deps("jammy jellyfish").len(), 5);
    assert!(get_installer(&dn).get_test_deps("noble numbat").is_empty());
    assert!(get_installer(&LanguageEnv::C).get_build_deps("amd64", "bookworm").is_empty());
    assert_eq!(transform_name("pkg_1.0_amd64", "amd64"), "pkg=1.0");
    assert_eq!(transform_name("pkg_1.0", "arm64"), "pkg=1.0");
}

#[test]
fn builders_accumulate_arguments() {
    let l = LintianBuilder::new().suppress_tag("t").info().extended_info().changes_file("/x.changes").tag_display_limit(0).fail_on_warning().fail_on_error().with_codename("noble");
    assert_eq!(l.args(), &vec!["--suppress-tags", "t", "-i", "--I", "\"/x.changes\"", "--tag-display-limit=0", "--fail-on=warning", "--fail-on=error", "--suppress-tags", "malformed-deb-archive"]);
    let p = PiupartsBuilder::new().distribution("bookworm").mirror("m").bindmount_dev().keyring("k").verbose().with_dotnet_env(true, "bookworm").deb_file("x.deb").deb_path("/d");
    assert_eq!(p.args()[7], "--extra-repo=--extra-repo=deb https://packages.microsoft.com/debian/12/prod bookworm main");
    assert_eq!(p.target(), (Some("x.deb"), Some("/d")));
    let s = SbuildBuilder::new().distribution("noble").build_arch_all().build_source().cache_file("c").verbose().chroot_mode_unshare().setup_commands(&["x".to_string()]).no_run_piuparts().no_apt_upgrades().run_lintian(false).no_run_autopkgtest().working_dir("/w");
    assert_eq!(s.args().len(), 15);
    assert_eq!(s.dir(), Some("/w".to_string()));
    let c = CreateChrootBuilder::new().chroot_mode("unshare").make_tarball().cache_file("c").codename("bookworm").temp_dir("/t").repo_url("u");
    assert_eq!(c.args(), &vec!["--chroot-mode=unshare", "--make-sbuild-tarball", "c", "bookworm", "/t", "u"]);
    let a = AutopkgtestBuilder::new().changes_file("x.changes").no_built_binaries().apt_upgrade().test_deps_not_in_debian(&["s".to_string()]).qemu("img").working_dir("/w");
    assert_eq!(a.args(), &vec!["x.changes", "--no-built-binaries", "--apt-upgrade", "--setup-commands=s", "--", "qemu", "img"]);
    let i = AutopkgtestImageBuilder::new().codename("jammy jellyfish").image_path("/cache", "jammy", "amd64").mirror("m").arch("amd64");
    assert_eq!(i.cmd(), "autopkgtest-buildvm-ubuntu-cloud");
    assert_eq!(i.args()[1], "\"/cache/autopkgtest-jammy-amd64.img\"");
    assert_eq!(i.get_image_path(), Some("/cache/autopkgtest-jammy-amd64.img".to_string()));
    assert_eq!(i.dir(), Some("/cache".to_string()));
}

#[test]
fn directory_layout() {
    assert_eq!(get_build_artifacts_dir("hello", "/w"), "/w/hello");
    assert_eq!(get_tarball_path("hello", "1.0", "/w/hello"), "/w/hello/hello_1.0.orig.tar.gz");
    assert_eq!(get_build_files_dir("hello", "1.0", "/w/hello"), "/w/hello/hello-1.0");
    assert!(matches!(get_tarball_url("https://x/y.tgz", "/root"), ExpandedPath::Final(ref p) if p == "https://x/y.tgz"));
    assert!(matches!(get_tarball_url("y.tgz", "/root"), ExpandedPath::Relative(ref p) if p == "/root/y.tgz"));
    assert!(matches!(expand_path("/abs", "/root"), ExpandedPath::Final(ref p) if p == "/abs"));
}

#[test]
fn tarball_listing_strip_components() {
    assert_eq!(longest_common_prefix(&[]), "");
    assert_eq!(longest_common_prefix(&["pkg-1.0/src/main.rs"]), "pkg-1.0/src");
    assert_eq!(longest_common_prefix(&["pkg-1.0/a", "pkg-1.0/b"]), "pkg-1.0/");
    assert_eq!(count_segments("/a//b/"), 2);
    assert_eq!(components_to_strip("pkg-1.0/\npkg-1.0/a.txt\npkg-1.0/src/b.rs\n"), 1);
    assert_eq!(components_to_strip("a.txt\nb.txt\n"), 0);
    assert_eq!(extract_args("t.tgz", "/d", 1), vec!["zxvf", "t.tgz", "-C", "/d", "--strip-components=1"]);
    assert_eq!(extract_args("t.tgz", "/d", 0).len(), 4);
}

#[test]
fn checksums() {
    assert_eq!(hex(&[0x00, 0xab, 0x10]), "00ab10");
    let sha256 = "ba7816bf8f01cfea414140de5dae2223b00361a396177a9cb410ff61f20015ad";
    let sha512 = "ddaf35a193617abacc417349ae20413112e6fa4e89a97ea20a9eeee64b55d39a2192992a274fc1a836ba3c23a3feebbd454d4423643ce80e2a9ac94fa54ca49f";
    assert_eq!(calculate_sha256(b"abc"), sha256);
    assert_eq!(calculate_sha512(b"abc"), sha512);
    assert_eq!(verify_tarball_checksum(b"abc", sha256), Ok(true));
    assert_eq!(verify_tarball_checksum(b"abc", sha512), Ok(true));
    assert_eq!(verify_tarball_checksum(b"abc", "00"), Err("Hashes do not match.".to_string()));
    assert_eq!(verify_hash(b"abc", None), Ok(()));
    assert_eq!(verify_hash(b"abc", Some("00".to_string())), Err("Error checking hash: Hashes do not match.".to_string()));
    assert_eq!(calculate_sha1(b"abc"), "a9993e364706816aba3e25717850c26c9cd0d89d");
    let out = PackageHash { name: "x.deb".to_string(), hash: "00".to_string() };
    assert_eq!(check_output_hash(&out, b"abc"), Some(format!("SHA-256 mismatch for x.deb: expected 00, got {}", sha256)));
    let good = PackageHash { name: "x.deb".to_string(), hash: sha256.to_string() };
    assert_eq!(check_output_hash(&good, b"abc"), None);
    let sha1_only = PackageHash { name: "x.deb".to_string(), hash: "a9993e364706816aba3e25717850c26c9cd0d89d".to_string() };
    assert!(check_output_hash(&sha1_only, b"abc").is_some());
}

#[test]
fn control_file_standards_version() {
    let lines = vec!["Source: x".to_string(), "Priority: optional".to_string(), "Build-Depends: y".to_string()];
    assert_eq!(
        patch_standards_version(&lines, "https://h"),
        vec!["Source: x", "Priority: optional", "Standards-Version: 4.5.1", "Homepage: https://h", "Build-Depends: y"]
    );
    let done = vec!["Standards-Version: 4.6".to_string()];
    assert_eq!(patch_standards_version(&done, "h"), done);
    let none = vec!["Source: x".to_string()];
    assert_eq!(patch_standards_version(&none, "h"), vec!["Standards-Version: 4.5.1", "Homepage: h", "Source: x"]);
}

#[test]
fn tool_versions() {
    assert_eq!(parse_tool_version("lintian", "Lintian v2.116.3ubuntu1\n"), "2.116.3");
    assert_eq!(parse_tool_version("piuparts", "piuparts 1.1.7\n"), "1.1.7");
    assert_eq!(parse_tool_version("autopkgtest", "Listing...\nautopkgtest/jammy,now 5.32ubuntu3 all [installed]\n"), "5.32");
    assert_eq!(parse_tool_version("autopkgtest", "none here"), "");
    assert!(tool_version_command("sbuild").is_err());
    let (cmd, args) = tool_version_command("autopkgtest").unwrap();
    assert_eq!(cmd, "apt");
    assert_eq!(args, vec!["list", "--installed", "autopkgtest"]);
    assert_eq!(warn_compare_versions("1.2.3", "1.3.0").unwrap(), VersionComparison::Newer);
    assert_eq!(warn_compare_versions("2.0.0", "1.3.0").unwrap(), VersionComparison::Older);
    assert_eq!(warn_compare_versions("1.2.3", "1.2.3").unwrap(), VersionComparison::Same);
    assert!(warn_compare_versions("x", "1.2.3").is_err());
}

#[test]
fn expand_path_expands_tilde_correctly() {
    match expand_path("~", "/") {
        ExpandedPath::Final(result) => {
            assert_ne!(result, "~");
            assert!(!result.contains('~'));
        }
        ExpandedPath::Relative(_) => panic!("a path under the home directory is final"),
    }
}

#[test]
fn expand_path_handles_absolute_paths() {
    assert!(matches!(expand_path("/absolute/path", "/"), ExpandedPath::Final(ref p) if p == "/absolute/path"));
}

#[test]
fn expand_path_expands_relative_paths_with_parent() {
    assert!(matches!(expand_path("somefile", "/tmp"), ExpandedPath::Relative(ref p) if p == "/tmp/somefile"));
}

#[test]
fn expand_path_expands_relative_paths_without_parent() {
    match expand_path("somefile", "/") {
        ExpandedPath::Relative(result) => assert!(result.starts_with('/')),
        ExpandedPath::Final(_) => panic!("a relative path is resolved against its base"),
    }
}

const ABC_SHA512: &str = "ddaf35a193617abacc417349ae20413112e6fa4e89a97ea20a9eeee64b55d39a2192992a274fc1a836ba3c23a3feebbd454d4423643ce80e2a9ac94fa54ca49f";
const ABC_SHA256: &str = "ba7816bf8f01cfea414140de5dae2223b00361a396177a9cb410ff61f20015ad";

#[test]
fn test_verify_hash_valid_checksum_512() {
    let result = verify_hash(b"abc", Some(ABC_SHA512.to_string()));
    assert!(result.is_ok());
}

#[test]
fn test_verify_hash_invalid_checksum_512() {
    let expected_checksum = "ddaf35a193617abacc417349ae20413112e6fa4e89a97ea20a9eeee64b55d39a2192992a274fc1a836ba3c23a3feebbd454d4423643ce80e2a9ac94fa54ca49e";
    let result = verify_hash(b"abc", Some(expected_checksum.to_string()));
    assert!(result.is_err());
    assert_eq!(result.err().unwrap(), "Error checking hash: Hashes do not match.");
}

#[test]
fn test_verify_hash_valid_checksum_256() {
    let result = verify_hash(b"abc", Some(ABC_SHA256.to_string()));
    assert!(result.is_ok());
}

#[test]
fn test_verify_hash_invalid_checksum_256() {
    let expected_checksum = "ba7816bf8f01cfea414140de5dae2223b00361a396177a9cb410ff61f20015a_";
    let result = verify_hash(b"abc", Some(expected_checksum.to_string()));
    assert!(result.is_err());
    assert_eq!(result.err().unwrap(), "Error checking hash: Hashes do not match.");
}

#[test]
fn verify_outputs_reports_every_mismatch_in_order() {
    let ok = || (PackageHash { name: "a.deb".to_string(), hash: ABC_SHA256.to_string() }, b"abc".to_vec());
    assert_eq!(verify_outputs(&[ok()]), Ok(()));
    let bad1 = (PackageHash { name: "b.deb".to_string(), hash: "00".to_string() }, b"abc".to_vec());
    let bad2 = (PackageHash { name: "c.dsc".to_string(), hash: "11".to_string() }, b"abc".to_vec());
    assert_eq!(
        verify_outputs(&[bad1, ok(), bad2]),
        Err(vec![
            format!("SHA-256 mismatch for b.deb: expected 00, got {}", ABC_SHA256),
            format!("SHA-256 mismatch for c.dsc: expected 11, got {}", ABC_SHA256),
        ])
    );
    assert_eq!(verify_outputs(&[]), Ok(()));
}
