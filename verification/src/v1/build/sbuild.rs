//! The sbuild backend: the commands that prepare a build chroot for a
//! package's language toolchain, and the file names a build produces.
use vstd::prelude::*;
use crate::v1::pkg_config::{
    DotnetConfig, GoConfig, JavaConfig, JavascriptConfig, LanguageEnv, NimConfig, PackageType,
    PkgConfig, RustConfig,
};
use crate::text::{self, cat, cat3, cat4, cat5, path_debug, push_all, push_prefixed, push_str, push_string, starts_with, str_eq};
use crate::paths::{self, path_join, pop_path, tilde};

verus! {

/// The sbuild build environment of one package.
pub struct Sbuild {
    pub config: PkgConfig,
    pub build_files_dir: String,
    pub cache_dir: String,
}

/// The toolchain a package type names, if any (virtual packages have none).
pub open spec fn lang_env_of(p: PackageType) -> Option<LanguageEnv> {
    match p {
        PackageType::Default(c) => Some(c.language_env),
        PackageType::Git(c) => Some(c.language_env),
        PackageType::Virtual => None,
    }
}

/// The commands that install the Rust toolchain from its release tarball,
/// checked against its GPG signature.
pub open spec fn rust_build_deps(c: RustConfig) -> Seq<Seq<char>> {
    seq![
        "apt install -y curl gpg gpg-agent"@,
        "cd /tmp && curl -o rust.tar.xz -L "@ + c.rust_binary_url@,
        "cd /tmp && echo \""@ + c.rust_binary_gpg_asc@ + "\" >> rust.tar.xz.asc && cat rust.tar.xz.asc "@,
        "curl https://keybase.io/rust/pgp_keys.asc | gpg --import"@,
        "cd /tmp && gpg --verify rust.tar.xz.asc rust.tar.xz"@,
        "cd /tmp && tar xvJf rust.tar.xz -C . --strip-components=1 --exclude=rust-docs"@,
        "cd /tmp && /bin/bash install.sh --without=rust-docs"@,
        "apt remove -y curl gpg gpg-agent"@,
    ]
}

/// The commands that install Go from its release tarball, checked by SHA-256.
pub open spec fn go_build_deps(c: GoConfig) -> Seq<Seq<char>> {
    seq![
        "apt install -y curl"@,
        "cd /tmp && curl -o go.tar.gz -L "@ + c.go_binary_url@,
        "cd /tmp && echo \""@ + c.go_binary_checksum@ + " go.tar.gz\" >> hash_file.txt && cat hash_file.txt"@,
        "cd /tmp && sha256sum -c hash_file.txt"@,
        "cd /tmp && rm -rf /usr/local/go && mkdir /usr/local/go && tar -C /usr/local -xzf go.tar.gz"@,
        "ln -s /usr/local/go/bin/go /usr/bin/go"@,
        "go version"@,
        "chmod -R a+rwx /usr/local/go/pkg"@,
        "apt remove -y curl"@,
    ]
}

/// The commands that install Node.js (and yarn when a version is given).
pub open spec fn node_build_deps(c: JavascriptConfig) -> Seq<Seq<char>> {
    seq![
        "apt install -y curl"@,
        "cd /tmp && curl -o node.tar.gz -L "@ + c.node_binary_url@,
        "cd /tmp && echo \""@ + c.node_binary_checksum@ + " node.tar.gz\" >> hash_file.txt && cat hash_file.txt"@,
        "cd /tmp && sha256sum -c hash_file.txt"@,
        "cd /tmp && rm -rf /usr/share/node && mkdir /usr/share/node && tar -C /usr/share/node -xzf node.tar.gz --strip-components=1"@,
        "ls -l /usr/share/node/bin"@,
        "ln -s /usr/share/node/bin/node /usr/bin/node"@,
        "ln -s /usr/share/node/bin/npm /usr/bin/npm"@,
        "ln -s /usr/share/node/bin/npx /usr/bin/npx"@,
        "ln -s /usr/share/node/bin/corepack /usr/bin/corepack"@,
        "apt remove -y curl"@,
        "node --version"@,
        "npm --version"@,
    ] + match c.yarn_version {
        Some(y) => seq![
            "npm install --global yarn@"@ + y@,
            "ln -s /usr/share/node/bin/yarn /usr/bin/yarn"@,
            "yarn --version"@,
        ],
        None => seq![],
    }
}

/// The commands that install an Oracle JDK (and Gradle when configured);
/// nothing for other JDKs.
pub open spec fn java_build_deps(c: JavaConfig) -> Seq<Seq<char>> {
    if !c.is_oracle {
        seq![]
    } else {
        let v = c.jdk_version@;
        seq![
            "apt install -y wget"@,
            "mkdir -p /opt/lib/jvm/jdk-"@ + v + "-oracle && mkdir -p /usr/lib/jvm"@,
            "cd /tmp && wget -q --output-document jdk.tar.gz "@ + c.jdk_binary_url@,
            "cd /tmp && echo \""@ + c.jdk_binary_checksum@ + " jdk.tar.gz\" >> hash_file.txt && cat hash_file.txt"@,
            "cd /tmp && sha256sum -c hash_file.txt"@,
            "cd /tmp && tar -zxf jdk.tar.gz -C /opt/lib/jvm/jdk-"@ + v + "-oracle --strip-components=1"@,
            "ln -s /opt/lib/jvm/jdk-"@ + v + "-oracle/bin/java  /usr/bin/java"@,
            "ln -s /opt/lib/jvm/jdk-"@ + v + "-oracle/bin/javac  /usr/bin/javac"@,
            "java -version"@,
            "apt remove -y wget"@,
        ] + match c.gradle {
            Some(g) => seq![
                "apt install -y wget unzip"@,
                "mkdir -p /opt/lib/gradle-"@ + g.gradle_version@,
                "cd /tmp && wget -q --output-document gradle.tar.gz "@ + g.gradle_binary_url@,
                "cd /tmp && echo \""@ + g.gradle_binary_checksum@ + " gradle.tar.gz\" > hash_file.txt && cat hash_file.txt"@,
                "cd /tmp && sha256sum -c hash_file.txt"@,
                "cd /tmp && unzip gradle.tar.gz && mv gradle-"@ + g.gradle_version@ + " /opt/lib"@,
                "ln -s /opt/lib/gradle-"@ + g.gradle_version@ + "/bin/gradle  /usr/bin/gradle"@,
                "gradle -version"@,
                "apt remove -y wget"@,
            ],
            None => seq![],
        }
    }
}

/// An Oracle JDK is unpacked before its `java` and `javac` are linked
/// onto the PATH, and both links come before `java -version` runs; with
/// Gradle configured, Gradle is moved to `/opt/lib` before
/// `/opt/lib/gradle-<version>/bin/gradle` is linked to `/usr/bin/gradle`, and
/// that link comes before `gradle -version` runs.
pub proof fn lemma_java_tools_on_path_before_use(c: JavaConfig)
    requires
        c.is_oracle,
    ensures
        exists|u: int, i: int, j: int, k: int| 0 <= u < i < j < k < java_build_deps(c).len()
            && java_build_deps(c)[u] == "cd /tmp && tar -zxf jdk.tar.gz -C /opt/lib/jvm/jdk-"@ + c.jdk_version@ + "-oracle --strip-components=1"@
            && java_build_deps(c)[i] == "ln -s /opt/lib/jvm/jdk-"@ + c.jdk_version@ + "-oracle/bin/java  /usr/bin/java"@
            && java_build_deps(c)[j] == "ln -s /opt/lib/jvm/jdk-"@ + c.jdk_version@ + "-oracle/bin/javac  /usr/bin/javac"@
            && java_build_deps(c)[k] == "java -version"@,
        c.gradle matches Some(g) ==> exists|m: int, i: int, j: int| 0 <= m < i < j < java_build_deps(c).len()
            && java_build_deps(c)[m] == "cd /tmp && unzip gradle.tar.gz && mv gradle-"@ + g.gradle_version@ + " /opt/lib"@
            && java_build_deps(c)[i] == "ln -s /opt/lib/gradle-"@ + g.gradle_version@ + "/bin/gradle  /usr/bin/gradle"@
            && java_build_deps(c)[j] == "gradle -version"@,
{
    let d = java_build_deps(c);
    assert(d[5] == "cd /tmp && tar -zxf jdk.tar.gz -C /opt/lib/jvm/jdk-"@ + c.jdk_version@ + "-oracle --strip-components=1"@);
    assert(d[6] == "ln -s /opt/lib/jvm/jdk-"@ + c.jdk_version@ + "-oracle/bin/java  /usr/bin/java"@);
    assert(d[7] == "ln -s /opt/lib/jvm/jdk-"@ + c.jdk_version@ + "-oracle/bin/javac  /usr/bin/javac"@);
    assert(d[8] == "java -version"@);
    if let Some(g) = c.gradle {
        assert(d[15] == "cd /tmp && unzip gradle.tar.gz && mv gradle-"@ + g.gradle_version@ + " /opt/lib"@);
        assert(d[16] == "ln -s /opt/lib/gradle-"@ + g.gradle_version@ + "/bin/gradle  /usr/bin/gradle"@);
        assert(d[17] == "gradle -version"@);
    }
}

/// Go is checked against its SHA-256 before it is unpacked, and `go` is
/// linked onto the PATH (`/usr/bin`) before `go version` runs.
pub proof fn lemma_go_checked_and_on_path(go: GoConfig)
    ensures
        exists|h: int, u: int, i: int, k: int| 0 <= h < u < i < k < go_build_deps(go).len()
            && go_build_deps(go)[h] == "cd /tmp && sha256sum -c hash_file.txt"@
            && go_build_deps(go)[u] == "cd /tmp && rm -rf /usr/local/go && mkdir /usr/local/go && tar -C /usr/local -xzf go.tar.gz"@
            && go_build_deps(go)[i] == "ln -s /usr/local/go/bin/go /usr/bin/go"@
            && go_build_deps(go)[k] == "go version"@,
{
    let g = go_build_deps(go);
    assert(g[3] == "cd /tmp && sha256sum -c hash_file.txt"@);
    assert(g[4] == "cd /tmp && rm -rf /usr/local/go && mkdir /usr/local/go && tar -C /usr/local -xzf go.tar.gz"@);
    assert(g[5] == "ln -s /usr/local/go/bin/go /usr/bin/go"@);
    assert(g[6] == "go version"@);
}

/// Command `a` runs before command `b` in `cmds`.
pub open spec fn runs_before(cmds: Seq<Seq<char>>, a: Seq<char>, b: Seq<char>) -> bool {
    exists|i: int, j: int| 0 <= i < j < cmds.len() && cmds[i] == a && cmds[j] == b
}

/// Node.js is checked against its SHA-256 before it is unpacked, and
/// unpacked before `node` and `npm` are linked onto the PATH; each link
/// comes before the command that runs it. Yarn, when a version is given, is
/// installed with npm after npm is linked, and linked before
/// `yarn --version` runs.
pub proof fn lemma_node_checked_and_on_path(node: JavascriptConfig)
    ensures
        runs_before(node_build_deps(node), "cd /tmp && sha256sum -c hash_file.txt"@,
            "cd /tmp && rm -rf /usr/share/node && mkdir /usr/share/node && tar -C /usr/share/node -xzf node.tar.gz --strip-components=1"@),
        runs_before(node_build_deps(node),
            "cd /tmp && rm -rf /usr/share/node && mkdir /usr/share/node && tar -C /usr/share/node -xzf node.tar.gz --strip-components=1"@,
            "ln -s /usr/share/node/bin/node /usr/bin/node"@),
        runs_before(node_build_deps(node), "ln -s /usr/share/node/bin/node /usr/bin/node"@, "node --version"@),
        runs_before(node_build_deps(node), "ln -s /usr/share/node/bin/npm /usr/bin/npm"@, "npm --version"@),
        node.yarn_version matches Some(y) ==> runs_before(node_build_deps(node),
            "ln -s /usr/share/node/bin/npm /usr/bin/npm"@, "npm install --global yarn@"@ + y@),
        node.yarn_version matches Some(y) ==> runs_before(node_build_deps(node),
            "npm install --global yarn@"@ + y@, "ln -s /usr/share/node/bin/yarn /usr/bin/yarn"@),
        node.yarn_version is Some ==> runs_before(node_build_deps(node),
            "ln -s /usr/share/node/bin/yarn /usr/bin/yarn"@, "yarn --version"@),
{
    let n = node_build_deps(node);
    assert(n[3] == "cd /tmp && sha256sum -c hash_file.txt"@);
    assert(n[4] == "cd /tmp && rm -rf /usr/share/node && mkdir /usr/share/node && tar -C /usr/share/node -xzf node.tar.gz --strip-components=1"@);
    assert(n[6] == "ln -s /usr/share/node/bin/node /usr/bin/node"@);
    assert(n[7] == "ln -s /usr/share/node/bin/npm /usr/bin/npm"@);
    assert(n[11] == "node --version"@);
    assert(n[12] == "npm --version"@);
    if let Some(y) = node.yarn_version {
        assert(n[13] == "npm install --global yarn@"@ + y@);
        assert(n[14] == "ln -s /usr/share/node/bin/yarn /usr/bin/yarn"@);
        assert(n[15] == "yarn --version"@);
    }
}

/// Nim is checked against its SHA-256 before it is moved into
/// `/opt/lib/nim`, and `nim` is linked onto the PATH before `nim --version`
/// runs.
pub proof fn lemma_nim_checked_and_on_path(nim: NimConfig)
    ensures
        exists|h: int, u: int, i: int, k: int| 0 <= h < u < i < k < nim_build_deps(nim).len()
            && nim_build_deps(nim)[h] == "cd /tmp && sha256sum -c hash_file.txt"@
            && nim_build_deps(nim)[u] == "cd /tmp  && mv nim-"@ + nim.nim_version@ + " /opt/lib/nim"@
            && nim_build_deps(nim)[i] == "ln -s /opt/lib/nim/nim-"@ + nim.nim_version@ + "/bin/nim  /usr/bin/nim"@
            && nim_build_deps(nim)[k] == "nim --version"@,
{
    let m = nim_build_deps(nim);
    assert(m[5] == "cd /tmp && sha256sum -c hash_file.txt"@);
    assert(m[7] == "cd /tmp  && mv nim-"@ + nim.nim_version@ + " /opt/lib/nim"@);
    assert(m[8] == "ln -s /opt/lib/nim/nim-"@ + nim.nim_version@ + "/bin/nim  /usr/bin/nim"@);
    assert(m[9] == "nim --version"@);
}

/// The Rust release tarball is downloaded and its signature written out
/// before Rust's signing key is imported; the signature is verified before
/// the tarball is unpacked, and unpacked before its installer runs.
pub proof fn lemma_rust_verified_before_install(rust: RustConfig)
    ensures
        runs_before(rust_build_deps(rust), "cd /tmp && curl -o rust.tar.xz -L "@ + rust.rust_binary_url@,
            "cd /tmp && gpg --verify rust.tar.xz.asc rust.tar.xz"@),
        runs_before(rust_build_deps(rust),
            "cd /tmp && echo \""@ + rust.rust_binary_gpg_asc@ + "\" >> rust.tar.xz.asc && cat rust.tar.xz.asc "@,
            "cd /tmp && gpg --verify rust.tar.xz.asc rust.tar.xz"@),
        runs_before(rust_build_deps(rust), "curl https://keybase.io/rust/pgp_keys.asc | gpg --import"@,
            "cd /tmp && gpg --verify rust.tar.xz.asc rust.tar.xz"@),
        runs_before(rust_build_deps(rust), "cd /tmp && gpg --verify rust.tar.xz.asc rust.tar.xz"@,
            "cd /tmp && tar xvJf rust.tar.xz -C . --strip-components=1 --exclude=rust-docs"@),
        runs_before(rust_build_deps(rust),
            "cd /tmp && tar xvJf rust.tar.xz -C . --strip-components=1 --exclude=rust-docs"@,
            "cd /tmp && /bin/bash install.sh --without=rust-docs"@),
{
    let r = rust_build_deps(rust);
    assert(r[1] == "cd /tmp && curl -o rust.tar.xz -L "@ + rust.rust_binary_url@);
    assert(r[2] == "cd /tmp && echo \""@ + rust.rust_binary_gpg_asc@ + "\" >> rust.tar.xz.asc && cat rust.tar.xz.asc "@);
    assert(r[3] == "curl https://keybase.io/rust/pgp_keys.asc | gpg --import"@);
    assert(r[4] == "cd /tmp && gpg --verify rust.tar.xz.asc rust.tar.xz"@);
    assert(r[5] == "cd /tmp && tar xvJf rust.tar.xz -C . --strip-components=1 --exclude=rust-docs"@);
    assert(r[6] == "cd /tmp && /bin/bash install.sh --without=rust-docs"@);
}

/// On bookworm and jammy the Microsoft repository is registered and the
/// package lists refreshed before the requested SDK
/// (`dotnet-sdk-<version>=<full version>`) is installed, and the SDK is
/// installed before `dotnet --version` runs; on noble Ubuntu's own
/// `dotnet<version>=<full version>` is installed before `dotnet --version`;
/// no other release gets any .NET command.
pub proof fn lemma_dotnet_installed_before_use(c: DotnetConfig, codename: Seq<char>)
    ensures
        uses_microsoft_repo(codename) ==> {
            &&& runs_before(dotnet_build_deps(c, codename), "cd /tmp && dpkg -i packages-microsoft-prod.deb "@,
                "apt-get update -y"@)
            &&& runs_before(dotnet_build_deps(c, codename), "apt-get update -y"@,
                "apt-get install -y dotnet-sdk-"@ + c.dotnet_version@ + "="@ + c.dotnet_full_version@)
            &&& runs_before(dotnet_build_deps(c, codename),
                "apt-get install -y dotnet-sdk-"@ + c.dotnet_version@ + "="@ + c.dotnet_full_version@,
                "dotnet --version"@)
        },
        codename == "noble numbat"@ ==> runs_before(dotnet_build_deps(c, codename),
            "apt-get install -y dotnet"@ + c.dotnet_version@ + "="@ + c.dotnet_full_version@,
            "dotnet --version"@),
        !uses_microsoft_repo(codename) && codename != "noble numbat"@ ==> dotnet_build_deps(c, codename).len() == 0,
{
    let d = dotnet_build_deps(c, codename);
    if uses_microsoft_repo(codename) {
        assert(d[2] == "cd /tmp && dpkg -i packages-microsoft-prod.deb "@);
        assert(d[3] == "apt-get update -y"@);
        assert(d[5] == "apt-get install -y dotnet-sdk-"@ + c.dotnet_version@ + "="@ + c.dotnet_full_version@);
        assert(d[6] == "dotnet --version"@);
    }
    if codename == "noble numbat"@ {
        reveal_strlit("noble numbat");
        reveal_strlit("bookworm");
        reveal_strlit("jammy jellyfish");
        assert("noble numbat"@[0] != "bookworm"@[0]);
        assert("noble numbat"@[0] != "jammy jellyfish"@[0]);
        assert(!uses_microsoft_repo(codename));
        assert(d[1] == "apt-get install -y dotnet"@ + c.dotnet_version@ + "="@ + c.dotnet_full_version@);
        assert(d[2] == "dotnet --version"@);
    }
}

/// Whether a codename is served by the Microsoft Debian 12 repository.
pub open spec fn uses_microsoft_repo(codename: Seq<char>) -> bool {
    codename == "bookworm"@ || codename == "jammy jellyfish"@
}

/// The commands that install the .NET SDK: from the Microsoft repository on
/// bookworm and jammy, from Ubuntu's own packages on noble, none elsewhere.
pub open spec fn dotnet_build_deps(c: DotnetConfig, codename: Seq<char>) -> Seq<Seq<char>> {
    if uses_microsoft_repo(codename) {
        seq![
            "apt install -y wget"@,
            "cd /tmp && wget https://packages.microsoft.com/config/debian/12/packages-microsoft-prod.deb -O packages-microsoft-prod.deb"@,
            "cd /tmp && dpkg -i packages-microsoft-prod.deb "@,
            "apt-get update -y"@,
            "apt-cache madison dotnet-sdk-"@ + c.dotnet_version@,
            "apt-get install -y dotnet-sdk-"@ + c.dotnet_version@ + "="@ + c.dotnet_full_version@,
            "dotnet --version"@,
            "apt remove -y wget"@,
        ]
    } else if codename == "noble numbat"@ {
        seq![
            "apt-cache madison dotnet"@ + c.dotnet_version@,
            "apt-get install -y dotnet"@ + c.dotnet_version@ + "="@ + c.dotnet_full_version@,
            "dotnet --version"@,
            "apt remove -y wget"@,
        ]
    } else {
        seq![]
    }
}

/// The commands that install Nim from its release tarball, checked by SHA-256.
pub open spec fn nim_build_deps(c: NimConfig) -> Seq<Seq<char>> {
    let v = c.nim_version@;
    seq![
        "apt install -y wget"@,
        "rm -rf /tmp/nim-"@ + v + " && rm -rf /usr/lib/nim/nim-"@ + v + "&& rm -rf /opt/lib/nim/nim-"@ + v
            + " && mkdir /tmp/nim-"@ + v,
        "mkdir -p /opt/lib/nim && mkdir -p /usr/lib/nim"@,
        "cd /tmp && wget -q "@ + c.nim_binary_url@,
        "cd /tmp && echo "@ + c.nim_version_checksum@ + " >> hash_file.txt && cat hash_file.txt"@,
        "cd /tmp && sha256sum -c hash_file.txt"@,
        "cd /tmp && tar xJf nim-"@ + v + "-linux_x64.tar.xz -C nim-"@ + v + " --strip-components=1"@,
        "cd /tmp  && mv nim-"@ + v + " /opt/lib/nim"@,
        "ln -s /opt/lib/nim/nim-"@ + v + "/bin/nim  /usr/bin/nim"@,
        "nim --version"@,
        "apt remove -y wget"@,
    ]
}

/// The chroot setup commands that install a toolchain Debian does not ship.
pub open spec fn build_deps_spec(env: LanguageEnv, codename: Seq<char>) -> Seq<Seq<char>> {
    match env {
        LanguageEnv::C => seq![],
        LanguageEnv::Rust(c) => rust_build_deps(c),
        LanguageEnv::Go(c) => go_build_deps(c),
        LanguageEnv::JavaScript(c) => node_build_deps(c),
        LanguageEnv::TypeScript(c) => node_build_deps(c),
        LanguageEnv::Java(c) => java_build_deps(c),
        LanguageEnv::Dotnet(c) => dotnet_build_deps(c, codename),
        LanguageEnv::Nim(c) => nim_build_deps(c),
    }
}

/// The test-bed setup commands: only .NET on bookworm and jammy needs the
/// Microsoft repository added; every other toolchain is left to the test bed.
pub open spec fn test_deps_spec(env: LanguageEnv, codename: Seq<char>) -> Seq<Seq<char>> {
    match env {
        LanguageEnv::Dotnet(_) => if uses_microsoft_repo(codename) {
            seq![
                "apt install -y wget"@,
                "cd /tmp && wget https://packages.microsoft.com/config/debian/12/packages-microsoft-prod.deb -O packages-microsoft-prod.deb"@,
                "cd /tmp && dpkg -i packages-microsoft-prod.deb "@,
                "apt-get update -y"@,
                "apt remove -y wget"@,
            ]
        } else {
            seq![]
        },
        _ => seq![],
    }
}

fn rust_deps(c: &RustConfig) -> (r: Vec<String>)
    ensures
        text::views(r@) == rust_build_deps(*c),
{
    let mut v: Vec<String> = Vec::new();
    push_str(&mut v, "apt install -y curl gpg gpg-agent");
    push_string(&mut v, cat("cd /tmp && curl -o rust.tar.xz -L ", c.rust_binary_url.as_str()));
    push_string(&mut v, cat3("cd /tmp && echo \"", c.rust_binary_gpg_asc.as_str(), "\" >> rust.tar.xz.asc && cat rust.tar.xz.asc "));
    push_str(&mut v, "curl https://keybase.io/rust/pgp_keys.asc | gpg --import");
    push_str(&mut v, "cd /tmp && gpg --verify rust.tar.xz.asc rust.tar.xz");
    push_str(&mut v, "cd /tmp && tar xvJf rust.tar.xz -C . --strip-components=1 --exclude=rust-docs");
    push_str(&mut v, "cd /tmp && /bin/bash install.sh --without=rust-docs");
    push_str(&mut v, "apt remove -y curl gpg gpg-agent");
    assert(text::views(v@) =~= rust_build_deps(*c));
    v
}

fn go_deps(c: &GoConfig) -> (r: Vec<String>)
    ensures
        text::views(r@) == go_build_deps(*c),
{
    let mut v: Vec<String> = Vec::new();
    push_str(&mut v, "apt install -y curl");
    push_string(&mut v, cat("cd /tmp && curl -o go.tar.gz -L ", c.go_binary_url.as_str()));
    push_string(&mut v, cat3("cd /tmp && echo \"", c.go_binary_checksum.as_str(), " go.tar.gz\" >> hash_file.txt && cat hash_file.txt"));
    push_str(&mut v, "cd /tmp && sha256sum -c hash_file.txt");
    push_str(&mut v, "cd /tmp && rm -rf /usr/local/go && mkdir /usr/local/go && tar -C /usr/local -xzf go.tar.gz");
    push_str(&mut v, "ln -s /usr/local/go/bin/go /usr/bin/go");
    push_str(&mut v, "go version");
    push_str(&mut v, "chmod -R a+rwx /usr/local/go/pkg");
    push_str(&mut v, "apt remove -y curl");
    assert(text::views(v@) =~= go_build_deps(*c));
    v
}

fn node_deps(c: &JavascriptConfig) -> (r: Vec<String>)
    ensures
        text::views(r@) == node_build_deps(*c),
{
    let mut v: Vec<String> = Vec::new();
    push_str(&mut v, "apt install -y curl");
    push_string(&mut v, cat("cd /tmp && curl -o node.tar.gz -L ", c.node_binary_url.as_str()));
    push_string(&mut v, cat3("cd /tmp && echo \"", c.node_binary_checksum.as_str(), " node.tar.gz\" >> hash_file.txt && cat hash_file.txt"));
    push_str(&mut v, "cd /tmp && sha256sum -c hash_file.txt");
    push_str(&mut v, "cd /tmp && rm -rf /usr/share/node && mkdir /usr/share/node && tar -C /usr/share/node -xzf node.tar.gz --strip-components=1");
    push_str(&mut v, "ls -l /usr/share/node/bin");
    push_str(&mut v, "ln -s /usr/share/node/bin/node /usr/bin/node");
    push_str(&mut v, "ln -s /usr/share/node/bin/npm /usr/bin/npm");
    push_str(&mut v, "ln -s /usr/share/node/bin/npx /usr/bin/npx");
    push_str(&mut v, "ln -s /usr/share/node/bin/corepack /usr/bin/corepack");
    push_str(&mut v, "apt remove -y curl");
    push_str(&mut v, "node --version");
    push_str(&mut v, "npm --version");
    match &c.yarn_version {
        Some(y) => {
            push_string(&mut v, cat("npm install --global yarn@", y.as_str()));
            push_str(&mut v, "ln -s /usr/share/node/bin/yarn /usr/bin/yarn");
            push_str(&mut v, "yarn --version");
        },
        None => {},
    }
    assert(text::views(v@) =~= node_build_deps(*c));
    v
}

fn java_deps(c: &JavaConfig) -> (r: Vec<String>)
    ensures
        text::views(r@) == java_build_deps(*c),
{
    let mut v: Vec<String> = Vec::new();
    if !c.is_oracle {
        assert(text::views(v@) =~= java_build_deps(*c));
        return v;
    }
    let jv = c.jdk_version.as_str();
    push_str(&mut v, "apt install -y wget");
    push_string(&mut v, cat3("mkdir -p /opt/lib/jvm/jdk-", jv, "-oracle && mkdir -p /usr/lib/jvm"));
    push_string(&mut v, cat("cd /tmp && wget -q --output-document jdk.tar.gz ", c.jdk_binary_url.as_str()));
    push_string(&mut v, cat3("cd /tmp && echo \"", c.jdk_binary_checksum.as_str(), " jdk.tar.gz\" >> hash_file.txt && cat hash_file.txt"));
    push_str(&mut v, "cd /tmp && sha256sum -c hash_file.txt");
    push_string(&mut v, cat3("cd /tmp && tar -zxf jdk.tar.gz -C /opt/lib/jvm/jdk-", jv, "-oracle --strip-components=1"));
    push_string(&mut v, cat3("ln -s /opt/lib/jvm/jdk-", jv, "-oracle/bin/java  /usr/bin/java"));
    push_string(&mut v, cat3("ln -s /opt/lib/jvm/jdk-", jv, "-oracle/bin/javac  /usr/bin/javac"));
    push_str(&mut v, "java -version");
    push_str(&mut v, "apt remove -y wget");
    match &c.gradle {
        Some(g) => {
            let gv = g.gradle_version.as_str();
            push_str(&mut v, "apt install -y wget unzip");
            push_string(&mut v, cat("mkdir -p /opt/lib/gradle-", gv));
            push_string(&mut v, cat("cd /tmp && wget -q --output-document gradle.tar.gz ", g.gradle_binary_url.as_str()));
            push_string(&mut v, cat3("cd /tmp && echo \"", g.gradle_binary_checksum.as_str(), " gradle.tar.gz\" > hash_file.txt && cat hash_file.txt"));
            push_str(&mut v, "cd /tmp && sha256sum -c hash_file.txt");
            push_string(&mut v, cat3("cd /tmp && unzip gradle.tar.gz && mv gradle-", gv, " /opt/lib"));
            push_string(&mut v, cat3("ln -s /opt/lib/gradle-", gv, "/bin/gradle  /usr/bin/gradle"));
            push_str(&mut v, "gradle -version");
            push_str(&mut v, "apt remove -y wget");
        },
        None => {},
    }
    assert(text::views(v@) =~= java_build_deps(*c));
    v
}

/// Whether the codename is served by the Microsoft Debian 12 repository.
pub fn is_microsoft_repo_codename(codename: &str) -> (r: bool)
    ensures
        r == uses_microsoft_repo(codename@),
{
    str_eq(codename, "bookworm") || str_eq(codename, "jammy jellyfish")
}

fn dotnet_deps(c: &DotnetConfig, codename: &str) -> (r: Vec<String>)
    ensures
        text::views(r@) == dotnet_build_deps(*c, codename@),
{
    let mut v: Vec<String> = Vec::new();
    let dv = c.dotnet_version.as_str();
    let full = c.dotnet_full_version.as_str();
    if is_microsoft_repo_codename(codename) {
        push_str(&mut v, "apt install -y wget");
        push_str(&mut v, "cd /tmp && wget https://packages.microsoft.com/config/debian/12/packages-microsoft-prod.deb -O packages-microsoft-prod.deb");
        push_str(&mut v, "cd /tmp && dpkg -i packages-microsoft-prod.deb ");
        push_str(&mut v, "apt-get update -y");
        push_string(&mut v, cat("apt-cache madison dotnet-sdk-", dv));
        push_string(&mut v, cat4("apt-get install -y dotnet-sdk-", dv, "=", full));
        push_str(&mut v, "dotnet --version");
        push_str(&mut v, "apt remove -y wget");
    } else if str_eq(codename, "noble numbat") {
        push_string(&mut v, cat("apt-cache madison dotnet", dv));
        push_string(&mut v, cat4("apt-get install -y dotnet", dv, "=", full));
        push_str(&mut v, "dotnet --version");
        push_str(&mut v, "apt remove -y wget");
    }
    assert(text::views(v@) =~= dotnet_build_deps(*c, codename@));
    v
}

fn nim_deps(c: &NimConfig) -> (r: Vec<String>)
    ensures
        text::views(r@) == nim_build_deps(*c),
{
    let mut v: Vec<String> = Vec::new();
    let nv = c.nim_version.as_str();
    push_str(&mut v, "apt install -y wget");
    let a = cat4("rm -rf /tmp/nim-", nv, " && rm -rf /usr/lib/nim/nim-", nv);
    let b = cat5(a.as_str(), "&& rm -rf /opt/lib/nim/nim-", nv, " && mkdir /tmp/nim-", nv);
    push_string(&mut v, b);
    push_str(&mut v, "mkdir -p /opt/lib/nim && mkdir -p /usr/lib/nim");
    push_string(&mut v, cat("cd /tmp && wget -q ", c.nim_binary_url.as_str()));
    push_string(&mut v, cat3("cd /tmp && echo ", c.nim_version_checksum.as_str(), " >> hash_file.txt && cat hash_file.txt"));
    push_str(&mut v, "cd /tmp && sha256sum -c hash_file.txt");
    push_string(&mut v, cat5("cd /tmp && tar xJf nim-", nv, "-linux_x64.tar.xz -C nim-", nv, " --strip-components=1"));
    push_string(&mut v, cat3("cd /tmp  && mv nim-", nv, " /opt/lib/nim"));
    push_string(&mut v, cat3("ln -s /opt/lib/nim/nim-", nv, "/bin/nim  /usr/bin/nim"));
    push_str(&mut v, "nim --version");
    push_str(&mut v, "apt remove -y wget");
    assert(text::views(v@) =~= nim_build_deps(*c));
    v
}

impl Sbuild {
    /// A build environment for `config`, whose chroot tarballs are cached in
    /// the configured cache directory, or `~/.cache/sbuild` by default.
    pub fn new(config: PkgConfig, build_files_dir: String) -> (r: Sbuild)
        ensures
            r.config == config,
            r.build_files_dir == build_files_dir,
            r.cache_dir@ == match config.build_env.sbuild_cache_dir {
                Some(d) => d@,
                None => "~/.cache/sbuild"@,
            },
    {
        let cache_dir = match &config.build_env.sbuild_cache_dir {
            Some(d) => d.clone(),
            None => text::owned("~/.cache/sbuild"),
        };
        Sbuild { config, build_files_dir, cache_dir }
    }

    /// The chroot setup commands for a toolchain on this build's codename.
    pub fn get_build_deps_based_on_langenv(&self, lang_env: &LanguageEnv) -> (r: Vec<String>)
        ensures
            text::views(r@) == build_deps_spec(*lang_env, self.config.build_env.codename@),
    {
        match lang_env {
            LanguageEnv::C => Vec::new(),
            LanguageEnv::Rust(c) => rust_deps(c),
            LanguageEnv::Go(c) => go_deps(c),
            LanguageEnv::JavaScript(c) => node_deps(c),
            LanguageEnv::TypeScript(c) => node_deps(c),
            LanguageEnv::Java(c) => java_deps(c),
            LanguageEnv::Dotnet(c) => dotnet_deps(c, self.config.build_env.codename.as_str()),
            LanguageEnv::Nim(c) => nim_deps(c),
        }
    }

    /// The toolchain of the package being built, if it names one.
    pub fn language_env(&self) -> (r: Option<&LanguageEnv>)
        ensures
            r matches Some(e) ==> lang_env_of(self.config.package_type) == Some(*e),
            r is None <==> lang_env_of(self.config.package_type) is None,
    {
        match &self.config.package_type {
            PackageType::Default(c) => Some(&c.language_env),
            PackageType::Git(c) => Some(&c.language_env),
            PackageType::Virtual => None,
        }
    }

    /// The chroot setup commands the package's toolchain needs; none for a
    /// virtual package.
    pub fn get_build_deps_not_in_debian(&self) -> (r: Vec<String>)
        ensures
            text::views(r@) == match lang_env_of(self.config.package_type) {
                Some(e) => build_deps_spec(e, self.config.build_env.codename@),
                None => Seq::<Seq<char>>::empty(),
            },
    {
        match self.language_env() {
            Some(e) => self.get_build_deps_based_on_langenv(e),
            None => {
                let v: Vec<String> = Vec::new();
                assert(text::views(v@) =~= Seq::<Seq<char>>::empty());
                v
            },
        }
    }

    /// The test-bed setup commands for a toolchain on this build's codename.
    pub fn get_test_deps_based_on_langenv(&self, lang_env: &LanguageEnv) -> (r: Vec<String>)
        ensures
            text::views(r@) == test_deps_spec(*lang_env, self.config.build_env.codename@),
    {
        let mut v: Vec<String> = Vec::new();
        match lang_env {
            LanguageEnv::Dotnet(_) => {
                if is_microsoft_repo_codename(self.config.build_env.codename.as_str()) {
                    push_str(&mut v, "apt install -y wget");
                    push_str(&mut v, "cd /tmp && wget https://packages.microsoft.com/config/debian/12/packages-microsoft-prod.deb -O packages-microsoft-prod.deb");
                    push_str(&mut v, "cd /tmp && dpkg -i packages-microsoft-prod.deb ");
                    push_str(&mut v, "apt-get update -y");
                    push_str(&mut v, "apt remove -y wget");
                }
            },
            _ => {},
        }
        assert(text::views(v@) =~= test_deps_spec(*lang_env, self.config.build_env.codename@));
        v
    }

    /// The test-bed setup commands the package's toolchain needs; none for a
    /// virtual package.
    pub fn get_test_deps_not_in_debian(&self) -> (r: Vec<String>)
        ensures
            text::views(r@) == match lang_env_of(self.config.package_type) {
                Some(e) => test_deps_spec(e, self.config.build_env.codename@),
                None => Seq::<Seq<char>>::empty(),
            },
    {
        match self.language_env() {
            Some(e) => self.get_test_deps_based_on_langenv(e),
            None => {
                let v: Vec<String> = Vec::new();
                assert(text::views(v@) =~= Seq::<Seq<char>>::empty());
                v
            },
        }
    }
}


/// The short release name of a configured codename.
pub open spec fn normalized_codename(codename: Seq<char>) -> Option<Seq<char>> {
    if codename == "bookworm"@ {
        Some("bookworm"@)
    } else if codename == "noble numbat"@ {
        Some("noble"@)
    } else if codename == "jammy jellyfish"@ {
        Some("jammy"@)
    } else {
        None
    }
}

/// The error for a codename the packager does not support.
pub open spec fn unsupported_distribution() -> Seq<char> {
    "Not supported distribution"@
}

/// The short release name of a configured codename (`bookworm`, `noble`,
/// `jammy`); an error for any other codename.
pub fn normalize_codename(codename: &str) -> (r: Result<&'static str, String>)
    ensures
        r matches Ok(n) ==> normalized_codename(codename@) == Some(n@),
        r matches Err(e) ==> normalized_codename(codename@) is None && e@ == unsupported_distribution(),
        r is Ok <==> normalized_codename(codename@) is Some,
{
    if str_eq(codename, "bookworm") {
        Ok("bookworm")
    } else if str_eq(codename, "noble numbat") {
        Ok("noble")
    } else if str_eq(codename, "jammy jellyfish") {
        Ok("jammy")
    } else {
        Err(text::owned("Not supported distribution"))
    }
}

/// The archive keyring of a configured codename.
pub open spec fn keyring_for(codename: Seq<char>) -> Option<Seq<char>> {
    if codename == "bookworm"@ {
        Some("/usr/share/keyrings/debian-archive-keyring.gpg"@)
    } else if codename == "noble numbat"@ || codename == "jammy jellyfish"@ {
        Some("/usr/share/keyrings/ubuntu-archive-keyring.gpg"@)
    } else {
        None
    }
}

/// The archive keyring of a configured codename; an error for an
/// unsupported one.
pub fn get_keyring(codename: &str) -> (r: Result<&'static str, String>)
    ensures
        r is Ok <==> keyring_for(codename@) is Some,
        r matches Ok(k) ==> keyring_for(codename@) == Some(k@),
        r matches Err(e) ==> e@ == unsupported_distribution(),
{
    if str_eq(codename, "bookworm") {
        Ok("/usr/share/keyrings/debian-archive-keyring.gpg")
    } else if str_eq(codename, "noble numbat") || str_eq(codename, "jammy jellyfish") {
        Ok("/usr/share/keyrings/ubuntu-archive-keyring.gpg")
    } else {
        Err(text::owned("Not supported distribution"))
    }
}

/// The package mirror of a configured codename.
pub open spec fn repo_url_for(codename: Seq<char>) -> Option<Seq<char>> {
    if codename == "bookworm"@ {
        Some("http://deb.debian.org/debian"@)
    } else if codename == "noble numbat"@ || codename == "jammy jellyfish"@ {
        Some("http://archive.ubuntu.com/ubuntu"@)
    } else {
        None
    }
}

/// The package mirror of a configured codename; an error for an
/// unsupported one.
pub fn get_repo_url(codename: &str) -> (r: Result<&'static str, String>)
    ensures
        r is Ok <==> repo_url_for(codename@) is Some,
        r matches Ok(u) ==> repo_url_for(codename@) == Some(u@),
        r matches Err(e) ==> e@ == unsupported_distribution(),
{
    if str_eq(codename, "bookworm") {
        Ok("http://deb.debian.org/debian")
    } else if str_eq(codename, "noble numbat") || str_eq(codename, "jammy jellyfish") {
        Ok("http://archive.ubuntu.com/ubuntu")
    } else {
        Err(text::owned("Not supported distribution"))
    }
}

/// The codenames the packager supports agree on all three lookups: one
/// succeeds exactly when the others do.
pub proof fn lemma_codename_lookups_agree(codename: Seq<char>)
    ensures
        normalized_codename(codename) is Some <==> keyring_for(codename) is Some,
        normalized_codename(codename) is Some <==> repo_url_for(codename) is Some,
{
}

/// The name of a build output: `<name>_<version>-<revision>_<arch><ext>`.
pub open spec fn output_name(c: PkgConfig, ext: Seq<char>) -> Seq<char> {
    c.package_fields.package_name@ + "_"@ + c.package_fields.version_number@ + "-"@
        + c.package_fields.revision_number@ + "_"@ + c.build_env.arch@ + ext
}

/// The commands Ubuntu noble needs to enable its extra archive components.
pub open spec fn noble_components() -> Seq<Seq<char>> {
    seq![
        "apt install -y software-properties-common"@,
        "add-apt-repository universe"@,
        "add-apt-repository restricted"@,
        "add-apt-repository multiverse"@,
        "apt update"@,
    ]
}

/// The lintian options sbuild passes on when it runs lintian.
pub open spec fn sbuild_lintian_opts() -> Seq<Seq<char>> {
    seq![
        "--run-lintian"@,
        "--lintian-opt=-i"@,
        "--lintian-opt=--I"@,
        "--lintian-opt=--suppress-tags"@,
        "--lintian-opt=bad-distribution-in-changes-file"@,
        "--lintian-opt=--suppress-tags"@,
        "--lintian-opt=debug-file-with-no-debug-symbols"@,
        "--lintian-opt=--tag-display-limit=0"@,
        "--lintian-opts=--fail-on=error"@,
        "--lintian-opts=--fail-on=warning"@,
    ]
}

impl Sbuild {
    /// The setup commands of the package's build chroot, each as a
    /// `--chroot-setup-commands=` option: the toolchain's commands, then on
    /// noble the commands that enable its extra archive components.
    pub fn build_chroot_setup_commands(&self) -> (r: Vec<String>)
        ensures
            text::views(r@) == text::prefixed("--chroot-setup-commands="@, 
                match lang_env_of(self.config.package_type) {
                    Some(e) => build_deps_spec(e, self.config.build_env.codename@),
                    None => Seq::<Seq<char>>::empty(),
                } + if self.config.build_env.codename@ == "noble numbat"@ { noble_components() } else { seq![] }),
    {
        let mut deps = self.get_build_deps_not_in_debian();
        if str_eq(self.config.build_env.codename.as_str(), "noble numbat") {
            push_str(&mut deps, "apt install -y software-properties-common");
            push_str(&mut deps, "add-apt-repository universe");
            push_str(&mut deps, "add-apt-repository restricted");
            push_str(&mut deps, "add-apt-repository multiverse");
            push_str(&mut deps, "apt update");
        }
        let mut r: Vec<String> = Vec::new();
        push_prefixed(&mut r, "--chroot-setup-commands=", deps.as_slice());
        assert(text::views(r@) =~= text::prefixed("--chroot-setup-commands="@, text::views(deps@)));
        r
    }

    /// The directory the packages land in: the parent of the build
    /// directory.
    pub fn get_deb_dir(&self) -> (r: String)
        requires
            paths::has_parent(self.build_files_dir@),
        ensures
            r@ == paths::popped_path(self.build_files_dir@),
    {
        pop_path(self.build_files_dir.as_str())
    }

    /// The name of a build output in the package directory.
    fn output_file(&self, ext: &str) -> (r: String)
        requires
            paths::has_parent(self.build_files_dir@),
        ensures
            r@ == paths::join_spec(paths::popped_path(self.build_files_dir@), output_name(self.config, ext@)),
    {
        let f = &self.config.package_fields;
        let a = cat4(f.package_name.as_str(), "_", f.version_number.as_str(), "-");
        let b = cat5(a.as_str(), f.revision_number.as_str(), "_", self.config.build_env.arch.as_str(), ext);
        assert(b@ =~= output_name(self.config, ext@));
        path_join(self.get_deb_dir().as_str(), b.as_str())
    }

    /// The built binary package: `<name>_<version>-<revision>_<arch>.deb`
    /// in the package directory.
    pub fn get_deb_name(&self) -> (r: String)
        requires
            paths::has_parent(self.build_files_dir@),
        ensures
            r@ == paths::join_spec(paths::popped_path(self.build_files_dir@), output_name(self.config, ".deb"@)),
    {
        self.output_file(".deb")
    }

    /// The build's changes file: `<name>_<version>-<revision>_<arch>.changes`
    /// in the package directory.
    pub fn get_changes_file(&self) -> (r: String)
        requires
            paths::has_parent(self.build_files_dir@),
        ensures
            r@ == paths::join_spec(paths::popped_path(self.build_files_dir@), output_name(self.config, ".changes"@)),
    {
        self.output_file(".changes")
    }

    /// The changes file and the binary package lie in the same directory
    /// under the same name and differ only in their extension: the changes
    /// file with its `.changes` extension replaced by `.deb` is the package.
    pub proof fn lemma_changes_and_deb_share_stem(c: PkgConfig, build_files_dir: Seq<char>)
        ensures
            paths::join_spec(paths::popped_path(build_files_dir), output_name(c, ".changes"@))
                == paths::join_spec(paths::popped_path(build_files_dir), output_name(c, Seq::<char>::empty())) + ".changes"@,
            paths::join_spec(paths::popped_path(build_files_dir), output_name(c, ".deb"@))
                == paths::join_spec(paths::popped_path(build_files_dir), output_name(c, Seq::<char>::empty())) + ".deb"@,
    {
        let stem = output_name(c, Seq::<char>::empty());
        reveal_strlit("_");
        assert(stem.len() > 0);
        assert(output_name(c, ".changes"@) =~= stem + ".changes"@);
        assert(output_name(c, ".deb"@) =~= stem + ".deb"@);
        paths::lemma_join_append(paths::popped_path(build_files_dir), stem, ".changes"@);
        paths::lemma_join_append(paths::popped_path(build_files_dir), stem, ".deb"@);
    }

    /// The cache directory with a leading `~` expanded; `None` for a relative
    /// directory, which has to be resolved against the working directory.
    pub fn expanded_cache_dir(&self) -> (r: Option<String>)
        ensures
            r is None <==> !text::starts_with_spec(self.cache_dir@, "~"@) && !text::starts_with_spec(self.cache_dir@, "/"@),
            r matches Some(d) ==> (if text::starts_with_spec(self.cache_dir@, "~"@) {
                paths::tilde_expanded(self.cache_dir@, d@)
            } else {
                d@ == self.cache_dir@
            }),
    {
        if starts_with(self.cache_dir.as_str(), "~") {
            Some(tilde(self.cache_dir.as_str()))
        } else if starts_with(self.cache_dir.as_str(), "/") {
            Some(self.cache_dir.clone())
        } else {
            None
        }
    }

    /// The chroot tarball in the (expanded) cache directory:
    /// `<release>-<arch>.tar.gz`.
    pub fn get_cache_file(&self, cache_dir: &str) -> (r: String)
        requires
            normalized_codename(self.config.build_env.codename@) is Some,
        ensures
            r@ == paths::join_spec(cache_dir@, normalized_codename(self.config.build_env.codename@).unwrap()
                + "-"@ + self.config.build_env.arch@ + ".tar.gz"@),
    {
        let codename = match normalize_codename(self.config.build_env.codename.as_str()) {
            Ok(c) => c,
            Err(_) => "",
        };
        let name = cat4(codename, "-", self.config.build_env.arch.as_str(), ".tar.gz");
        path_join(cache_dir, name.as_str())
    }

    /// The arguments of the sbuild run that builds the package with the
    /// given chroot tarball; an error for an unsupported codename.
    pub fn package_args(&self, cache_file: &str) -> (r: Result<Vec<String>, String>)
        ensures
            r is Ok <==> normalized_codename(self.config.build_env.codename@) is Some,
            r matches Err(e) ==> e@ == unsupported_distribution(),
            r matches Ok(a) ==> text::views(a@) == seq![
                "-d"@,
                normalized_codename(self.config.build_env.codename@).unwrap(),
                "-A"@,
                "-s"@,
                "--source-only-changes"@,
                "-c"@,
                cache_file@,
                "-v"@,
                "--chroot-mode=unshare"@,
            ] + text::prefixed("--chroot-setup-commands="@, 
                    match lang_env_of(self.config.package_type) {
                        Some(e) => build_deps_spec(e, self.config.build_env.codename@),
                        None => Seq::<Seq<char>>::empty(),
                    } + if self.config.build_env.codename@ == "noble numbat"@ { noble_components() } else { seq![] })
                + seq!["--no-run-piuparts"@, "--no-apt-upgrade"@, "--no-apt-distupgrade"@]
                + (if self.config.build_env.run_lintian == Some(true) { sbuild_lintian_opts() } else { seq!["--no-run-lintian"@] })
                + seq!["--no-run-autopkgtest"@],
    {
        let codename = match normalize_codename(self.config.build_env.codename.as_str()) {
            Ok(c) => c,
            Err(e) => {
                return Err(e);
            },
        };
        let mut args: Vec<String> = Vec::new();
        push_str(&mut args, "-d");
        push_str(&mut args, codename);
        push_str(&mut args, "-A");
        push_str(&mut args, "-s");
        push_str(&mut args, "--source-only-changes");
        push_str(&mut args, "-c");
        push_str(&mut args, cache_file);
        push_str(&mut args, "-v");
        push_str(&mut args, "--chroot-mode=unshare");
        let setup = self.build_chroot_setup_commands();
        push_all(&mut args, setup.as_slice());
        push_str(&mut args, "--no-run-piuparts");
        push_str(&mut args, "--no-apt-upgrade");
        push_str(&mut args, "--no-apt-distupgrade");
        let lintian = match self.config.build_env.run_lintian {
            Some(b) => b,
            None => false,
        };
        if lintian {
            push_str(&mut args, "--run-lintian");
            push_str(&mut args, "--lintian-opt=-i");
            push_str(&mut args, "--lintian-opt=--I");
            push_str(&mut args, "--lintian-opt=--suppress-tags");
            push_str(&mut args, "--lintian-opt=bad-distribution-in-changes-file");
            push_str(&mut args, "--lintian-opt=--suppress-tags");
            push_str(&mut args, "--lintian-opt=debug-file-with-no-debug-symbols");
            push_str(&mut args, "--lintian-opt=--tag-display-limit=0");
            push_str(&mut args, "--lintian-opts=--fail-on=error");
            push_str(&mut args, "--lintian-opts=--fail-on=warning");
        } else {
            push_str(&mut args, "--no-run-lintian");
        }
        push_str(&mut args, "--no-run-autopkgtest");
        assert(text::views(args@) =~= seq![
                "-d"@,
                normalized_codename(self.config.build_env.codename@).unwrap(),
                "-A"@,
                "-s"@,
                "--source-only-changes"@,
                "-c"@,
                cache_file@,
                "-v"@,
                "--chroot-mode=unshare"@,
            ] + text::views(setup@)
                + seq!["--no-run-piuparts"@, "--no-apt-upgrade"@, "--no-apt-distupgrade"@]
                + (if self.config.build_env.run_lintian == Some(true) { sbuild_lintian_opts() } else { seq!["--no-run-lintian"@] })
                + seq!["--no-run-autopkgtest"@]);
        Ok(args)
    }

    /// The arguments of a standalone lintian run on the build's changes
    /// file (in its `Debug` form); Ubuntu releases also suppress the
    /// malformed-archive tag. An error for an unsupported codename.
    pub fn lintian_args(&self) -> (r: Result<Vec<String>, String>)
        requires
            paths::has_parent(self.build_files_dir@),
        ensures
            r is Ok <==> normalized_codename(self.config.build_env.codename@) is Some,
            r matches Err(e) ==> e@ == unsupported_distribution(),
            r matches Ok(a) ==> text::views(a@) == seq![
                "--suppress-tags"@,
                "bad-distribution-in-changes-file"@,
                "-i"@,
                "--I"@,
                text::path_debug_form(paths::join_spec(paths::popped_path(self.build_files_dir@), output_name(self.config, ".changes"@))),
                "--tag-display-limit=0"@,
                "--fail-on=warning"@,
                "--fail-on=error"@,
                "--suppress-tags"@,
                "debug-file-with-no-debug-symbols"@,
            ] + (if self.config.build_env.codename@ == "noble numbat"@ || self.config.build_env.codename@ == "jammy jellyfish"@ {
                seq!["--suppress-tags"@, "malformed-deb-archive"@]
            } else {
                seq![]
            }),
    {
        let changes_file = self.get_changes_file();
        match normalize_codename(self.config.build_env.codename.as_str()) {
            Ok(_) => {},
            Err(e) => {
                return Err(e);
            },
        }
        let mut args: Vec<String> = Vec::new();
        push_str(&mut args, "--suppress-tags");
        push_str(&mut args, "bad-distribution-in-changes-file");
        push_str(&mut args, "-i");
        push_str(&mut args, "--I");
        push_string(&mut args, path_debug(changes_file.as_str()));
        push_str(&mut args, "--tag-display-limit=0");
        push_str(&mut args, "--fail-on=warning");
        push_str(&mut args, "--fail-on=error");
        push_str(&mut args, "--suppress-tags");
        push_str(&mut args, "debug-file-with-no-debug-symbols");
        let cfg = self.config.build_env.codename.as_str();
        let ubuntu = str_eq(cfg, "noble numbat") || str_eq(cfg, "jammy jellyfish");
        if ubuntu {
            push_str(&mut args, "--suppress-tags");
            push_str(&mut args, "malformed-deb-archive");
        }
        assert(text::views(args@) =~= seq![
                "--suppress-tags"@,
                "bad-distribution-in-changes-file"@,
                "-i"@,
                "--I"@,
                text::path_debug_form(changes_file@),
                "--tag-display-limit=0"@,
                "--fail-on=warning"@,
                "--fail-on=error"@,
                "--suppress-tags"@,
                "debug-file-with-no-debug-symbols"@,
            ] + (if self.config.build_env.codename@ == "noble numbat"@ || self.config.build_env.codename@ == "jammy jellyfish"@ {
                seq!["--suppress-tags"@, "malformed-deb-archive"@]
            } else {
                seq![]
            }));
        Ok(args)
    }
}


/// Whether a toolchain is .NET.
pub open spec fn is_dotnet(e: Option<LanguageEnv>) -> bool {
    e matches Some(LanguageEnv::Dotnet(_))
}

impl Sbuild {
    /// The arguments of the piuparts run (the package file follows them):
    /// release, mirror, `/dev` bind-mounted, keyring, verbose output, and for
    /// .NET on bookworm and jammy the Microsoft repository without signature
    /// checks. An error for an unsupported codename.
    pub fn piuparts_args(&self) -> (r: Result<Vec<String>, String>)
        ensures
            r is Ok <==> normalized_codename(self.config.build_env.codename@) is Some,
            r matches Err(e) ==> e@ == unsupported_distribution(),
            r matches Ok(a) ==> text::views(a@) == seq![
                "-d"@,
                normalized_codename(self.config.build_env.codename@).unwrap(),
                "-m"@,
                repo_url_for(self.config.build_env.codename@).unwrap(),
                "--bindmount=/dev"@,
                "--keyring="@ + keyring_for(self.config.build_env.codename@).unwrap(),
                "--verbose"@,
            ] + (if is_dotnet(lang_env_of(self.config.package_type)) && uses_microsoft_repo(self.config.build_env.codename@) {
                seq![
                    "--extra-repo=deb https://packages.microsoft.com/debian/12/prod "@ + self.config.build_env.codename@ + " main"@,
                    "--do-not-verify-signatures"@,
                ]
            } else {
                seq![]
            }),
    {
        let cfg = self.config.build_env.codename.as_str();
        let codename = match normalize_codename(cfg) {
            Ok(c) => c,
            Err(e) => {
                return Err(e);
            },
        };
        let repo_url = match get_repo_url(cfg) {
            Ok(u) => u,
            Err(e) => {
                return Err(e);
            },
        };
        let keyring = match get_keyring(cfg) {
            Ok(k) => k,
            Err(e) => {
                return Err(e);
            },
        };
        let mut args: Vec<String> = Vec::new();
        push_str(&mut args, "-d");
        push_str(&mut args, codename);
        push_str(&mut args, "-m");
        push_str(&mut args, repo_url);
        push_str(&mut args, "--bindmount=/dev");
        push_string(&mut args, cat("--keyring=", keyring));
        push_str(&mut args, "--verbose");
        let dotnet = match self.language_env() {
            Some(LanguageEnv::Dotnet(_)) => true,
            _ => false,
        };
        if dotnet && is_microsoft_repo_codename(cfg) {
            push_string(&mut args, cat3("--extra-repo=deb https://packages.microsoft.com/debian/12/prod ", cfg, " main"));
            push_str(&mut args, "--do-not-verify-signatures");
        }
        assert(text::views(args@) =~= seq![
                "-d"@,
                normalized_codename(self.config.build_env.codename@).unwrap(),
                "-m"@,
                repo_url_for(self.config.build_env.codename@).unwrap(),
                "--bindmount=/dev"@,
                "--keyring="@ + keyring_for(self.config.build_env.codename@).unwrap(),
                "--verbose"@,
            ] + (if is_dotnet(lang_env_of(self.config.package_type)) && uses_microsoft_repo(self.config.build_env.codename@) {
                seq![
                    "--extra-repo=deb https://packages.microsoft.com/debian/12/prod "@ + self.config.build_env.codename@ + " main"@,
                    "--do-not-verify-signatures"@,
                ]
            } else {
                seq![]
            }));
        Ok(args)
    }

    /// The arguments of the autopkgtest run against a QEMU image: the changes
    /// file, no rebuild, an apt upgrade, the test-bed setup commands, then
    /// the image.
    pub fn autopkgtest_args(&self, image_path: &str) -> (r: Vec<String>)
        requires
            paths::has_parent(self.build_files_dir@),
        ensures
            text::views(r@) == seq![
                paths::join_spec(paths::popped_path(self.build_files_dir@), output_name(self.config, ".changes"@)),
                "--no-built-binaries"@,
                "--apt-upgrade"@,
            ] + text::prefixed("--setup-commands="@, match lang_env_of(self.config.package_type) {
                Some(e) => test_deps_spec(e, self.config.build_env.codename@),
                None => Seq::<Seq<char>>::empty(),
            }) + seq!["--"@, "qemu"@, image_path@],
    {
        let mut args: Vec<String> = Vec::new();
        push_string(&mut args, self.get_changes_file());
        push_str(&mut args, "--no-built-binaries");
        push_str(&mut args, "--apt-upgrade");
        let deps = self.get_test_deps_not_in_debian();
        push_prefixed(&mut args, "--setup-commands=", deps.as_slice());
        push_str(&mut args, "--");
        push_str(&mut args, "qemu");
        push_str(&mut args, image_path);
        args
    }

    /// Where the autopkgtest image for a release lives: `autopkgtest-<release>-<arch>.img`
    /// in the cache directory, after its leading `~` is expanded.
    pub fn autopkgtest_image_path(&self, codename: &str) -> (r: String)
        ensures
            exists|dir: Seq<char>| paths::tilde_expanded(self.cache_dir@, dir)
                && r@ == paths::join_spec(dir, "autopkgtest-"@ + codename@ + "-"@ + self.config.build_env.arch@ + ".img"@),
    {
        let dir = tilde(self.cache_dir.as_str());
        let name = cat5("autopkgtest-", codename, "-", self.config.build_env.arch.as_str(), ".img");
        path_join(dir.as_str(), name.as_str())
    }

    /// The program and arguments that build the autopkgtest image for a
    /// release (the image path follows them): on bookworm the release, the
    /// image (in its `Debug` form), mirror and architecture; on the Ubuntu
    /// codenames the release, mirror, architecture and verbose output. An
    /// error for an unsupported configured codename, and for any other
    /// release name.
    pub fn autopkgtest_image_command(&self, codename: &str, image_path: &str) -> (r: Result<(&'static str, Vec<String>), String>)
        ensures
            r is Ok <==> repo_url_for(self.config.build_env.codename@) is Some
                && (codename@ == "bookworm"@ || codename@ == "noble numbat"@ || codename@ == "jammy jellyfish"@),
            r matches Err(e) ==> (if repo_url_for(self.config.build_env.codename@) is None {
                e@ == unsupported_distribution()
            } else {
                e@ == "Unsupported codename: "@ + codename@
            }),
            r matches Ok((p, a)) ==> (if codename@ == "bookworm"@ {
                p@ == "autopkgtest-build-qemu"@ && text::views(a@) == seq![
                    codename@,
                    text::path_debug_form(image_path@),
                    "--mirror="@ + repo_url_for(self.config.build_env.codename@).unwrap(),
                    "--arch="@ + self.config.build_env.arch@,
                ]
            } else {
                p@ == "autopkgtest-buildvm-ubuntu-cloud"@ && text::views(a@) == seq![
                    "--release="@ + codename@,
                    "--mirror="@ + repo_url_for(self.config.build_env.codename@).unwrap(),
                    "--arch="@ + self.config.build_env.arch@,
                    "-v"@,
                ]
            }),
    {
        let repo_url = match get_repo_url(self.config.build_env.codename.as_str()) {
            Ok(u) => u,
            Err(e) => {
                return Err(e);
            },
        };
        let arch = self.config.build_env.arch.as_str();
        let mut args: Vec<String> = Vec::new();
        if str_eq(codename, "bookworm") {
            push_str(&mut args, codename);
            push_string(&mut args, path_debug(image_path));
            push_string(&mut args, cat("--mirror=", repo_url));
            push_string(&mut args, cat("--arch=", arch));
            assert(text::views(args@) =~= seq![
                    codename@,
                    text::path_debug_form(image_path@),
                    "--mirror="@ + repo_url_for(self.config.build_env.codename@).unwrap(),
                    "--arch="@ + self.config.build_env.arch@,
                ]);
            Ok(("autopkgtest-build-qemu", args))
        } else if str_eq(codename, "noble numbat") || str_eq(codename, "jammy jellyfish") {
            push_string(&mut args, cat("--release=", codename));
            push_string(&mut args, cat("--mirror=", repo_url));
            push_string(&mut args, cat("--arch=", arch));
            push_str(&mut args, "-v");
            assert(text::views(args@) =~= seq![
                    "--release="@ + codename@,
                    "--mirror="@ + repo_url_for(self.config.build_env.codename@).unwrap(),
                    "--arch="@ + self.config.build_env.arch@,
                    "-v"@,
                ]);
            Ok(("autopkgtest-buildvm-ubuntu-cloud", args))
        } else {
            Err(cat("Unsupported codename: ", codename))
        }
    }
}

} // verus!
