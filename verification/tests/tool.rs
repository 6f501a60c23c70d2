use pkg_builder::config::{Architecture, DebianCodename, Distribution, UbuntuCodename};
use pkg_builder::tool::autopkgtest::{
    autopkgtest_image_args, autopkgtest_image_command, autopkgtest_image_name, image_action, Autopkgtest, ImageAction,
};
use pkg_builder::tool::lintian::Lintian;
use pkg_builder::tool::piuparts::Piuparts;
use pkg_builder::tool::sbuild::{Sbuild, SbuildCreateChroot};

#[test]
fn test_autopkgtest_build_args() {
    let autopkgtest = Autopkgtest {
        changes_file: "/build/hello_1.0.0-1_amd64.changes",
        image_path: "/cache/autopkgtest-bookworm-amd64.img",
        deb_dir: "/build",
        setup_commands: &[],
    };

    let args = autopkgtest.build_args();
    assert_eq!(args[0], "/build/hello_1.0.0-1_amd64.changes");
    assert!(args.contains(&"--no-built-binaries".to_string()));
    assert!(args.contains(&"--apt-upgrade".to_string()));
    assert!(args.contains(&"--".to_string()));
    assert!(args.contains(&"qemu".to_string()));
    assert!(args.iter().any(|a| a.contains("autopkgtest-bookworm")));
}

#[test]
fn test_autopkgtest_build_args_with_setup_commands() {
    let cmds = vec!["apt install -y wget".to_string()];
    let autopkgtest = Autopkgtest {
        changes_file: "/build/test.changes",
        image_path: "/cache/test.img",
        deb_dir: "/build",
        setup_commands: &cmds,
    };

    let args = autopkgtest.build_args();
    assert!(args.iter().any(|a| a.contains("apt install -y wget")));
}

#[test]
fn test_ensure_autopkgtest_image_path_construction() {
    let dist = Distribution::bookworm();
    let arch = Architecture::Amd64;
    let expected_name = format!("autopkgtest-{}-{}.img", dist.as_short(), arch.as_str());
    assert_eq!(expected_name, "autopkgtest-bookworm-amd64.img");
    assert_eq!(autopkgtest_image_name(&dist, &arch), "autopkgtest-bookworm-amd64.img");
}

#[test]
fn autopkgtest_args_exact_order() {
    let cmds = vec!["apt update".to_string()];
    let autopkgtest = Autopkgtest {
        changes_file: "a.changes",
        image_path: "img",
        deb_dir: "/build",
        setup_commands: &cmds,
    };
    assert_eq!(
        autopkgtest.build_args(),
        vec!["a.changes", "--no-built-binaries", "--apt-upgrade", "--setup-commands=apt update", "--", "qemu", "img"]
    );
}

#[test]
fn autopkgtest_image_builder_per_distribution() {
    let arch = Architecture::Amd64;
    assert_eq!(autopkgtest_image_command(&Distribution::bookworm()), "autopkgtest-build-qemu");
    assert_eq!(autopkgtest_image_command(&Distribution::noble()), "autopkgtest-buildvm-ubuntu-cloud");
    assert_eq!(
        autopkgtest_image_args(&Distribution::bookworm(), &arch, "http://deb.debian.org/debian", "/c/x.img"),
        vec!["bookworm", "--mirror=http://deb.debian.org/debian", "--arch=amd64", "/c/x.img"]
    );
    assert_eq!(
        autopkgtest_image_args(&Distribution::jammy(), &arch, "http://archive.ubuntu.com/ubuntu", "/c/x.img"),
        vec!["--release=jammy", "--mirror=http://archive.ubuntu.com/ubuntu", "--arch=amd64", "-v", "--timeout=3600", "--ram-size=2048"]
    );
}

#[test]
fn test_lintian_build_args_debian() {
    let dist = Distribution::Debian(DebianCodename::Bookworm);
    let lintian = Lintian {
        changes_file: "/build/hello_1.0.0-1_amd64.changes",
        distribution: &dist,
    };

    let args = lintian.build_args();
    assert!(args.contains(&"-i".to_string()));
    assert!(args.contains(&"-I".to_string()));
    assert!(args.contains(&"--fail-on=warning".to_string()));
    assert!(args.contains(&"--fail-on=error".to_string()));
    assert!(args.contains(&"--tag-display-limit=0".to_string()));
    assert!(args.contains(&"bad-distribution-in-changes-file".to_string()));
    assert!(args.contains(&"debug-file-with-no-debug-symbols".to_string()));
    assert!(!args.iter().any(|a| a == "malformed-deb-archive"));
}

#[test]
fn test_lintian_build_args_ubuntu() {
    let dist = Distribution::Ubuntu(UbuntuCodename::Noble);
    let lintian = Lintian {
        changes_file: "/build/hello_1.0.0-1_amd64.changes",
        distribution: &dist,
    };

    let args = lintian.build_args();
    assert!(args.iter().any(|a| a == "malformed-deb-archive"));
}

#[test]
fn lintian_changes_file_is_quoted() {
    let dist = Distribution::bookworm();
    let lintian = Lintian { changes_file: "/b/x.changes", distribution: &dist };
    let args = lintian.build_args();
    assert!(args.contains(&"\"/b/x.changes\"".to_string()));
    assert_eq!(args.len(), 10);
}

#[test]
fn test_piuparts_build_args_basic() {
    let dist = Distribution::Debian(DebianCodename::Bookworm);
    let piuparts = Piuparts {
        distribution: &dist,
        deb_file: "hello_1.0.0-1_amd64.deb",
        deb_dir: "/build",
        is_dotnet: false,
        repo_url: dist.repo_url(),
    };

    let args = piuparts.build_args();
    assert!(args.contains(&"-d".to_string()));
    assert!(args.contains(&"bookworm".to_string()));
    assert!(args.contains(&"--bindmount=/dev".to_string()));
    assert!(args.contains(&"--verbose".to_string()));
    assert!(args.iter().any(|a| a.contains("debian-archive-keyring")));
    assert!(!args.iter().any(|a| a.contains("packages.microsoft.com")));
}

#[test]
fn test_piuparts_build_args_snapshot_url() {
    let dist = Distribution::Debian(DebianCodename::Bookworm);
    let snapshot_url = "http://snapshot.debian.org/archive/debian/20250101T000000Z/";
    let piuparts = Piuparts {
        distribution: &dist,
        deb_file: "hello_1.0.0-1_amd64.deb",
        deb_dir: "/build",
        is_dotnet: false,
        repo_url: snapshot_url,
    };

    let args = piuparts.build_args();
    assert!(args.contains(&snapshot_url.to_string()));
}

#[test]
fn test_piuparts_build_args_dotnet_debian() {
    let dist = Distribution::Debian(DebianCodename::Bookworm);
    let piuparts = Piuparts {
        distribution: &dist,
        deb_file: "hello_1.0.0-1_amd64.deb",
        deb_dir: "/build",
        is_dotnet: true,
        repo_url: dist.repo_url(),
    };

    let args = piuparts.build_args();
    assert!(args.iter().any(|a| a.contains("packages.microsoft.com")));
    assert!(args.contains(&"--do-not-verify-signatures".to_string()));
}

#[test]
fn test_piuparts_build_args_dotnet_jammy() {
    let dist = Distribution::Ubuntu(UbuntuCodename::Jammy);
    let piuparts = Piuparts {
        distribution: &dist,
        deb_file: "hello.deb",
        deb_dir: "/build",
        is_dotnet: true,
        repo_url: dist.repo_url(),
    };

    let args = piuparts.build_args();
    assert!(args.iter().any(|a| a.contains("packages.microsoft.com")));
    assert!(args.contains(&"--do-not-verify-signatures".to_string()));
}

#[test]
fn test_piuparts_build_args_dotnet_noble_no_extra() {
    let dist = Distribution::Ubuntu(UbuntuCodename::Noble);
    let piuparts = Piuparts {
        distribution: &dist,
        deb_file: "hello.deb",
        deb_dir: "/build",
        is_dotnet: true,
        repo_url: dist.repo_url(),
    };

    let args = piuparts.build_args();
    assert!(!args.iter().any(|a| a.contains("packages.microsoft.com")));
}

#[test]
fn piuparts_dotnet_repo_line_exact() {
    let dist = Distribution::trixie();
    let piuparts = Piuparts { distribution: &dist, deb_file: "x.deb", deb_dir: "/b", is_dotnet: true, repo_url: "m" };
    let args = piuparts.build_args();
    assert!(args.contains(&"--extra-repo=deb https://packages.microsoft.com/debian/12/prod trixie main".to_string()));
    assert!(args.contains(&"--keyring=/usr/share/keyrings/debian-archive-keyring.gpg".to_string()));
    assert_eq!(args.last().unwrap(), "x.deb");
}

#[test]
fn test_sbuild_build_args_without_lintian() {
    let dist = Distribution::bookworm();
    let sbuild = Sbuild {
        distribution: &dist,
        cache_file: "/cache/bookworm-amd64.tar.gz",
        build_dir: "/build/hello-1.0.0",
        chroot_setup_commands: &[],
        lintian: false,
    };

    let args = sbuild.build_args();
    assert!(args.contains(&"-d".to_string()));
    assert!(args.contains(&"bookworm".to_string()));
    assert!(args.contains(&"-A".to_string()));
    assert!(args.contains(&"-s".to_string()));
    assert!(args.contains(&"--chroot-mode=unshare".to_string()));
    assert!(args.contains(&"--no-run-lintian".to_string()));
    assert!(args.contains(&"--no-run-piuparts".to_string()));
    assert!(args.contains(&"--no-run-autopkgtest".to_string()));
    assert!(!args.contains(&"--run-lintian".to_string()));
}

#[test]
fn test_sbuild_build_args_with_lintian() {
    let dist = Distribution::bookworm();
    let sbuild = Sbuild {
        distribution: &dist,
        cache_file: "/cache/bookworm-amd64.tar.gz",
        build_dir: "/build/hello-1.0.0",
        chroot_setup_commands: &[],
        lintian: true,
    };

    let args = sbuild.build_args();
    assert!(args.contains(&"--run-lintian".to_string()));
    assert!(!args.contains(&"--no-run-lintian".to_string()));
}

#[test]
fn test_sbuild_build_args_with_chroot_commands() {
    let dist = Distribution::noble();
    let cmds = vec![
        "--chroot-setup-commands=apt install -y wget".to_string(),
        "--chroot-setup-commands=apt update".to_string(),
    ];
    let sbuild = Sbuild {
        distribution: &dist,
        cache_file: "/cache/noble-amd64.tar.gz",
        build_dir: "/build",
        chroot_setup_commands: &cmds,
        lintian: false,
    };

    let args = sbuild.build_args();
    assert!(args.contains(&cmds[0]));
    assert!(args.contains(&cmds[1]));
    assert!(args.contains(&"noble".to_string()));
}

#[test]
fn test_sbuild_create_chroot_build_args() {
    let dist = Distribution::bookworm();
    let chroot = SbuildCreateChroot {
        distribution: &dist,
        cache_file: "/cache/bookworm-amd64.tar.gz",
        temp_dir: "/tmp/temp_12345",
        repo_url: "http://deb.debian.org/debian",
        snapshot: false,
    };

    let args = chroot.build_args();
    assert!(args.contains(&"--chroot-mode=unshare".to_string()));
    assert!(args.contains(&"--make-sbuild-tarball".to_string()));
    assert!(args.contains(&"/cache/bookworm-amd64.tar.gz".to_string()));
    assert!(args.contains(&"bookworm".to_string()));
    assert!(args.contains(&"/tmp/temp_12345".to_string()));
    assert!(args.contains(&"http://deb.debian.org/debian".to_string()));
    assert!(!args.iter().any(|a| a.contains("no-check-gpg")));
}

#[test]
fn test_sbuild_create_chroot_snapshot() {
    let dist = Distribution::bookworm();
    let chroot = SbuildCreateChroot {
        distribution: &dist,
        cache_file: "/cache/bookworm-amd64-20250101T000000Z.tar.gz",
        temp_dir: "/tmp/temp_12345",
        repo_url: "http://snapshot.debian.org/archive/debian/20250101T000000Z/",
        snapshot: true,
    };

    let args = chroot.build_args();
    assert!(args.contains(&"http://snapshot.debian.org/archive/debian/20250101T000000Z/".to_string()));
    assert!(args.iter().any(|a| a.contains("no-check-gpg")));
}

#[test]
fn sbuild_args_exact_order_with_lintian() {
    let dist = Distribution::jammy();
    let cmds = vec!["x".to_string()];
    let sbuild = Sbuild { distribution: &dist, cache_file: "c", build_dir: "/b", chroot_setup_commands: &cmds, lintian: true };
    let args = sbuild.build_args();
    assert_eq!(&args[..11], &["-d", "jammy", "-A", "-s", "--source-only-changes", "-c", "c", "-v", "--chroot-mode=unshare", "x", "--no-run-piuparts"]);
    assert_eq!(args.len(), 24);
    assert_eq!(args.last().unwrap(), "--no-run-autopkgtest");
}

#[test]
fn autopkgtest_image_is_built_at_most_twice() {
    assert_eq!(image_action(true, 0), ImageAction::UseExisting);
    assert_eq!(image_action(false, 0), ImageAction::Build);
    assert_eq!(image_action(false, 1), ImageAction::Build);
    assert_eq!(image_action(false, 2), ImageAction::GiveUp);
}
