//! The commands that install a language toolchain into a build chroot or
//! test bed, one installer per language.
use vstd::prelude::*;
use crate::v1::pkg_config::{
    DotnetConfig, DotnetPackage, GoConfig, JavaConfig, JavascriptConfig, LanguageEnv, NimConfig, RustConfig,
};
use crate::v1::build::command_builder::{fill, fill_args, CommandBuilder};
use crate::text::{self, chars_of, occurs_at_exec, replace_all, slice_of, str_eq};
use crate::v1::build::sbuild::runs_before;

verus! {

/// Installs a toolchain: its build-time chroot commands and its test-bed
/// commands.
pub trait LanguageInstaller {
    /// The chroot commands for an architecture and codename.
    spec fn build_deps(&self, arch: Seq<char>, codename: Seq<char>) -> Seq<Seq<char>>;

    /// The test-bed commands for a codename.
    spec fn test_deps(&self, codename: Seq<char>) -> Seq<Seq<char>>;

    /// Whether the installer can say what the test bed needs.
    spec fn has_test_deps(&self) -> bool;

    /// The chroot commands for an architecture and codename.
    fn get_build_deps(&self, arch: &str, codename: &str) -> (r: Vec<String>)
        ensures
            text::views(r@) == self.build_deps(arch@, codename@),
    ;

    /// The test-bed commands for a codename.
    fn get_test_deps(&self, codename: &str) -> (r: Vec<String>)
        requires
            self.has_test_deps(),
        ensures
            text::views(r@) == self.test_deps(codename@),
    ;
}

/// The installer of a toolchain Debian already has: nothing to do.
pub struct EmptyInstaller;
pub struct GoInstaller<'a>(pub &'a GoConfig);
pub struct NodeInstaller<'a>(pub &'a JavascriptConfig);
pub struct JavaInstaller<'a>(pub &'a JavaConfig);
pub struct DotnetInstaller<'a>(pub &'a DotnetConfig);
pub struct NimInstaller<'a>(pub &'a NimConfig);
pub struct RustInstaller<'a>(pub &'a RustConfig);

impl LanguageInstaller for EmptyInstaller {
    open spec fn build_deps(&self, arch: Seq<char>, codename: Seq<char>) -> Seq<Seq<char>> {
        seq![]
    }

    open spec fn test_deps(&self, codename: Seq<char>) -> Seq<Seq<char>> {
        seq![]
    }

    open spec fn has_test_deps(&self) -> bool {
        true
    }

    fn get_build_deps(&self, _arch: &str, _codename: &str) -> (r: Vec<String>) {
        let r: Vec<String> = Vec::new();
        assert(text::views(r@) =~= Seq::<Seq<char>>::empty());
        r
    }

    fn get_test_deps(&self, _codename: &str) -> (r: Vec<String>) {
        let r: Vec<String> = Vec::new();
        assert(text::views(r@) =~= Seq::<Seq<char>>::empty());
        r
    }
}

/// The Rust installer's chroot commands: the release tarball, checked
/// against its signature, installed with its own script.
pub open spec fn rust_installer_deps(c: RustConfig) -> Seq<Seq<char>> {
    seq![
        "apt install -y wget gpg gpg-agent"@,
        fill("cd /tmp && wget -q -O package.tar.xz {}"@, c.rust_binary_url@),
        fill("cd /tmp && echo \"{}\" >> package.tar.xz.asc"@, c.rust_binary_gpg_asc@),
        "wget -qO- https://keybase.io/some-key/pgp_keys.asc | gpg --import"@,
        "cd /tmp && gpg --verify package.tar.xz.asc package.tar.xz"@,
        "cd /tmp && tar xvJf package.tar.xz -C . --strip-components=1"@,
        "cd /tmp && /bin/bash install.sh"@,
        "apt remove -y wget gpg gpg-agent"@,
    ]
}

impl LanguageInstaller for RustInstaller<'_> {
    open spec fn build_deps(&self, arch: Seq<char>, codename: Seq<char>) -> Seq<Seq<char>> {
        rust_installer_deps(*self.0)
    }

    /// Rust compiles to a binary: the test bed needs nothing.
    open spec fn test_deps(&self, codename: Seq<char>) -> Seq<Seq<char>> {
        seq![]
    }

    open spec fn has_test_deps(&self) -> bool {
        true
    }

    fn get_build_deps(&self, _arch: &str, _codename: &str) -> (r: Vec<String>) {
        let mut b = CommandBuilder::new();
        b.add("apt install -y wget gpg gpg-agent");
        b.add_with("cd /tmp && wget -q -O package.tar.xz {}", self.0.rust_binary_url.as_str());
        b.add_with("cd /tmp && echo \"{}\" >> package.tar.xz.asc", self.0.rust_binary_gpg_asc.as_str());
        b.add("wget -qO- https://keybase.io/some-key/pgp_keys.asc | gpg --import");
        b.add("cd /tmp && gpg --verify package.tar.xz.asc package.tar.xz");
        b.add("cd /tmp && tar xvJf package.tar.xz -C . --strip-components=1");
        b.add("cd /tmp && /bin/bash install.sh");
        b.add("apt remove -y wget gpg gpg-agent");
        let r = b.build();
        assert(text::views(r@) =~= rust_installer_deps(*self.0));
        r
    }

    fn get_test_deps(&self, _codename: &str) -> (r: Vec<String>) {
        let r: Vec<String> = Vec::new();
        assert(text::views(r@) =~= Seq::<Seq<char>>::empty());
        r
    }
}

/// The Go installer's chroot commands: the release tarball, checked by
/// SHA-256, unpacked to `/usr/local/go`.
pub open spec fn go_installer_deps(c: GoConfig) -> Seq<Seq<char>> {
    seq![
        "apt install -y wget"@,
        fill("cd /tmp && wget -q -O go.tar.gz {}"@, c.go_binary_url@),
        fill("cd /tmp && echo \"{} go.tar.gz\" >> hash_file.txt && cat hash_file.txt"@, c.go_binary_checksum@),
        "cd /tmp && sha256sum -c hash_file.txt"@,
        "cd /tmp && rm -rf /usr/local/go && mkdir /usr/local/go && tar -C /usr/local -xzf go.tar.gz"@,
        "ln -s /usr/local/go/bin/go /usr/bin/go"@,
        "go version"@,
        "chmod -R a+rwx /usr/local/go/pkg"@,
        "apt remove -y wget"@,
    ]
}

impl LanguageInstaller for GoInstaller<'_> {
    open spec fn build_deps(&self, arch: Seq<char>, codename: Seq<char>) -> Seq<Seq<char>> {
        go_installer_deps(*self.0)
    }

    /// Go compiles to a binary: the test bed needs nothing.
    open spec fn test_deps(&self, codename: Seq<char>) -> Seq<Seq<char>> {
        seq![]
    }

    open spec fn has_test_deps(&self) -> bool {
        true
    }

    fn get_build_deps(&self, _arch: &str, _codename: &str) -> (r: Vec<String>) {
        let mut b = CommandBuilder::new();
        b.add("apt install -y wget");
        b.add_with("cd /tmp && wget -q -O go.tar.gz {}", self.0.go_binary_url.as_str());
        b.add_with("cd /tmp && echo \"{} go.tar.gz\" >> hash_file.txt && cat hash_file.txt", self.0.go_binary_checksum.as_str());
        b.add("cd /tmp && sha256sum -c hash_file.txt");
        b.add("cd /tmp && rm -rf /usr/local/go && mkdir /usr/local/go && tar -C /usr/local -xzf go.tar.gz");
        b.add("ln -s /usr/local/go/bin/go /usr/bin/go");
        b.add("go version");
        b.add("chmod -R a+rwx /usr/local/go/pkg");
        b.add("apt remove -y wget");
        let r = b.build();
        assert(text::views(r@) =~= go_installer_deps(*self.0));
        r
    }

    fn get_test_deps(&self, _codename: &str) -> (r: Vec<String>) {
        let r: Vec<String> = Vec::new();
        assert(text::views(r@) =~= Seq::<Seq<char>>::empty());
        r
    }
}

/// The Node.js installer's chroot commands, with yarn when a version is
/// given.
pub open spec fn node_installer_deps(c: JavascriptConfig) -> Seq<Seq<char>> {
    seq![
        "apt install -y wget"@,
        fill("cd /tmp && wget -q -O node.tar.gz {}"@, c.node_binary_url@),
        fill("cd /tmp && echo \"{} node.tar.gz\" >> hash_file.txt && cat hash_file.txt"@, c.node_binary_checksum@),
        "cd /tmp && sha256sum -c hash_file.txt"@,
        "cd /tmp && rm -rf /usr/share/node && mkdir /usr/share/node && tar -C /usr/share/node -xzf node.tar.gz --strip-components=1"@,
        "ls -l /usr/share/node/bin"@,
        "ln -s /usr/share/node/bin/node /usr/bin/node"@,
        "ln -s /usr/share/node/bin/npm /usr/bin/npm"@,
        "ln -s /usr/share/node/bin/npx /usr/bin/npx"@,
        "ln -s /usr/share/node/bin/corepack /usr/bin/corepack"@,
        "apt remove -y wget"@,
        "node --version"@,
        "npm --version"@,
    ] + match c.yarn_version {
        Some(y) => seq![
            fill("npm install --global yarn@{}"@, y@),
            "ln -s /usr/share/node/bin/yarn /usr/bin/yarn"@,
            "yarn --version"@,
        ],
        None => seq![],
    }
}

impl LanguageInstaller for NodeInstaller<'_> {
    open spec fn build_deps(&self, arch: Seq<char>, codename: Seq<char>) -> Seq<Seq<char>> {
        node_installer_deps(*self.0)
    }

    /// Node is left to the test bed to install.
    open spec fn test_deps(&self, codename: Seq<char>) -> Seq<Seq<char>> {
        seq![]
    }

    open spec fn has_test_deps(&self) -> bool {
        true
    }

    fn get_build_deps(&self, _arch: &str, _codename: &str) -> (r: Vec<String>) {
        let mut b = CommandBuilder::new();
        b.add("apt install -y wget");
        b.add_with("cd /tmp && wget -q -O node.tar.gz {}", self.0.node_binary_url.as_str());
        b.add_with("cd /tmp && echo \"{} node.tar.gz\" >> hash_file.txt && cat hash_file.txt", self.0.node_binary_checksum.as_str());
        b.add("cd /tmp && sha256sum -c hash_file.txt");
        b.add("cd /tmp && rm -rf /usr/share/node && mkdir /usr/share/node && tar -C /usr/share/node -xzf node.tar.gz --strip-components=1");
        b.add("ls -l /usr/share/node/bin");
        b.add("ln -s /usr/share/node/bin/node /usr/bin/node");
        b.add("ln -s /usr/share/node/bin/npm /usr/bin/npm");
        b.add("ln -s /usr/share/node/bin/npx /usr/bin/npx");
        b.add("ln -s /usr/share/node/bin/corepack /usr/bin/corepack");
        b.add("apt remove -y wget");
        b.add("node --version");
        b.add("npm --version");
        match &self.0.yarn_version {
            Some(y) => {
                b.add_with("npm install --global yarn@{}", y.as_str());
                b.add("ln -s /usr/share/node/bin/yarn /usr/bin/yarn");
                b.add("yarn --version");
            },
            None => {},
        }
        let r = b.build();
        assert(text::views(r@) =~= node_installer_deps(*self.0));
        r
    }

    fn get_test_deps(&self, _codename: &str) -> (r: Vec<String>) {
        let r: Vec<String> = Vec::new();
        assert(text::views(r@) =~= Seq::<Seq<char>>::empty());
        r
    }
}

/// The Java installer's chroot commands: an Oracle JDK (and Gradle when
/// configured); nothing for other JDKs.
pub open spec fn java_installer_deps(c: JavaConfig) -> Seq<Seq<char>> {
    if !c.is_oracle {
        seq![]
    } else {
        let v = c.jdk_version@;
        seq![
            "apt install -y wget"@,
            fill("mkdir -p /opt/lib/jvm/jdk-{}-oracle && mkdir -p /usr/lib/jvm"@, v),
            fill("cd /tmp && wget -q --output-document jdk.tar.gz {}"@, c.jdk_binary_url@),
            fill("cd /tmp && echo \"{} jdk.tar.gz\" >> hash_file.txt && cat hash_file.txt"@, c.jdk_binary_checksum@),
            "cd /tmp && sha256sum -c hash_file.txt"@,
            fill("cd /tmp && tar -zxf jdk.tar.gz -C /opt/lib/jvm/jdk-{}-oracle --strip-components=1"@, v),
            fill("ln -s /opt/lib/jvm/jdk-{}-oracle/bin/java /usr/bin/java"@, v),
            fill("ln -s /opt/lib/jvm/jdk-{}-oracle/bin/javac /usr/bin/javac"@, v),
            "java -version"@,
            "apt remove -y wget"@,
        ] + match c.gradle {
            Some(g) => seq![
                "apt install -y wget unzip"@,
                fill("mkdir -p /opt/lib/gradle-{}"@, g.gradle_version@),
                fill("cd /tmp && wget -q --output-document gradle.tar.gz {}"@, g.gradle_binary_url@),
                fill("cd /tmp && echo \"{} gradle.tar.gz\" > hash_file.txt && cat hash_file.txt"@, g.gradle_binary_checksum@),
                "cd /tmp && sha256sum -c hash_file.txt"@,
                fill("cd /tmp && unzip gradle.tar.gz && mv gradle-{} /opt/lib"@, g.gradle_version@),
                fill("ln -s /opt/lib/gradle-{}/bin/gradle /usr/bin/gradle"@, g.gradle_version@),
                "gradle -version"@,
                "apt remove -y wget"@,
            ],
            None => seq![],
        }
    }
}

/// A template with one `{}` and no other `{` filled with `arg`.
proof fn lemma_fill_one(template: Seq<char>, pre: Seq<char>, post: Seq<char>, arg: Seq<char>)
    requires
        template == pre + "{}"@ + post,
        forall|k: int| 0 <= k < pre.len() ==> #[trigger] pre[k] != '{',
        forall|k: int| 0 <= k < post.len() ==> #[trigger] post[k] != '{',
    ensures
        fill(template, arg) == pre + arg + post,
{
    reveal_strlit("{}");
    text::lemma_replace_once(pre, "{}"@, post, arg);
}

/// The Java installer links the Oracle JDK's `java` and `javac` onto the
/// PATH after unpacking it and before `java -version` runs; with Gradle
/// configured, Gradle is moved to `/opt/lib`, then
/// `/opt/lib/gradle-<version>/bin/gradle` is linked to `/usr/bin/gradle`,
/// and only then does `gradle -version` run.
pub proof fn lemma_java_installer_links_before_use(c: JavaConfig)
    requires
        c.is_oracle,
    ensures
        exists|u: int, i: int, j: int, k: int| 0 <= u < i < j < k < java_installer_deps(c).len()
            && java_installer_deps(c)[u] == "cd /tmp && tar -zxf jdk.tar.gz -C /opt/lib/jvm/jdk-"@ + c.jdk_version@ + "-oracle --strip-components=1"@
            && java_installer_deps(c)[i] == "ln -s /opt/lib/jvm/jdk-"@ + c.jdk_version@ + "-oracle/bin/java /usr/bin/java"@
            && java_installer_deps(c)[j] == "ln -s /opt/lib/jvm/jdk-"@ + c.jdk_version@ + "-oracle/bin/javac /usr/bin/javac"@
            && java_installer_deps(c)[k] == "java -version"@,
        c.gradle matches Some(g) ==> exists|m: int, i: int, j: int| 0 <= m < i < j < java_installer_deps(c).len()
            && java_installer_deps(c)[m] == "cd /tmp && unzip gradle.tar.gz && mv gradle-"@ + g.gradle_version@ + " /opt/lib"@
            && java_installer_deps(c)[i] == "ln -s /opt/lib/gradle-"@ + g.gradle_version@ + "/bin/gradle /usr/bin/gradle"@
            && java_installer_deps(c)[j] == "gradle -version"@,
{
    let d = java_installer_deps(c);
    let v = c.jdk_version@;
    reveal_strlit("{}");
    reveal_strlit("cd /tmp && tar -zxf jdk.tar.gz -C /opt/lib/jvm/jdk-{}-oracle --strip-components=1");
    reveal_strlit("cd /tmp && tar -zxf jdk.tar.gz -C /opt/lib/jvm/jdk-");
    reveal_strlit("-oracle --strip-components=1");
    assert("cd /tmp && tar -zxf jdk.tar.gz -C /opt/lib/jvm/jdk-{}-oracle --strip-components=1"@ =~= "cd /tmp && tar -zxf jdk.tar.gz -C /opt/lib/jvm/jdk-"@ + "{}"@ + "-oracle --strip-components=1"@);
    lemma_fill_one(
        "cd /tmp && tar -zxf jdk.tar.gz -C /opt/lib/jvm/jdk-{}-oracle --strip-components=1"@,
        "cd /tmp && tar -zxf jdk.tar.gz -C /opt/lib/jvm/jdk-"@,
        "-oracle --strip-components=1"@,
        v,
    );
    reveal_strlit("ln -s /opt/lib/jvm/jdk-{}-oracle/bin/java /usr/bin/java");
    reveal_strlit("ln -s /opt/lib/jvm/jdk-");
    reveal_strlit("-oracle/bin/java /usr/bin/java");
    assert("ln -s /opt/lib/jvm/jdk-{}-oracle/bin/java /usr/bin/java"@ =~= "ln -s /opt/lib/jvm/jdk-"@ + "{}"@ + "-oracle/bin/java /usr/bin/java"@);
    lemma_fill_one(
        "ln -s /opt/lib/jvm/jdk-{}-oracle/bin/java /usr/bin/java"@,
        "ln -s /opt/lib/jvm/jdk-"@,
        "-oracle/bin/java /usr/bin/java"@,
        v,
    );
    reveal_strlit("ln -s /opt/lib/jvm/jdk-{}-oracle/bin/javac /usr/bin/javac");
    reveal_strlit("-oracle/bin/javac /usr/bin/javac");
    assert("ln -s /opt/lib/jvm/jdk-{}-oracle/bin/javac /usr/bin/javac"@ =~= "ln -s /opt/lib/jvm/jdk-"@ + "{}"@ + "-oracle/bin/javac /usr/bin/javac"@);
    lemma_fill_one(
        "ln -s /opt/lib/jvm/jdk-{}-oracle/bin/javac /usr/bin/javac"@,
        "ln -s /opt/lib/jvm/jdk-"@,
        "-oracle/bin/javac /usr/bin/javac"@,
        v,
    );
    assert(d[5] == "cd /tmp && tar -zxf jdk.tar.gz -C /opt/lib/jvm/jdk-"@ + v + "-oracle --strip-components=1"@);
    assert(d[6] == "ln -s /opt/lib/jvm/jdk-"@ + v + "-oracle/bin/java /usr/bin/java"@);
    assert(d[7] == "ln -s /opt/lib/jvm/jdk-"@ + v + "-oracle/bin/javac /usr/bin/javac"@);
    assert(d[8] == "java -version"@);
    if let Some(g) = c.gradle {
        let gv = g.gradle_version@;
        reveal_strlit("cd /tmp && unzip gradle.tar.gz && mv gradle-{} /opt/lib");
        reveal_strlit("cd /tmp && unzip gradle.tar.gz && mv gradle-");
        reveal_strlit(" /opt/lib");
        assert("cd /tmp && unzip gradle.tar.gz && mv gradle-{} /opt/lib"@ =~= "cd /tmp && unzip gradle.tar.gz && mv gradle-"@ + "{}"@ + " /opt/lib"@);
        lemma_fill_one(
            "cd /tmp && unzip gradle.tar.gz && mv gradle-{} /opt/lib"@,
            "cd /tmp && unzip gradle.tar.gz && mv gradle-"@,
            " /opt/lib"@,
            gv,
        );
        reveal_strlit("ln -s /opt/lib/gradle-{}/bin/gradle /usr/bin/gradle");
        reveal_strlit("ln -s /opt/lib/gradle-");
        reveal_strlit("/bin/gradle /usr/bin/gradle");
        assert("ln -s /opt/lib/gradle-{}/bin/gradle /usr/bin/gradle"@ =~= "ln -s /opt/lib/gradle-"@ + "{}"@ + "/bin/gradle /usr/bin/gradle"@);
        lemma_fill_one(
            "ln -s /opt/lib/gradle-{}/bin/gradle /usr/bin/gradle"@,
            "ln -s /opt/lib/gradle-"@,
            "/bin/gradle /usr/bin/gradle"@,
            gv,
        );
        assert(d[15] == "cd /tmp && unzip gradle.tar.gz && mv gradle-"@ + gv + " /opt/lib"@);
        assert(d[16] == "ln -s /opt/lib/gradle-"@ + gv + "/bin/gradle /usr/bin/gradle"@);
        assert(d[17] == "gradle -version"@);
    }
}

/// The Rust installer downloads the release tarball and writes out its
/// signature before verifying it, imports the signing key before the
/// verification, verifies before unpacking, and unpacks before running the
/// release's installer.
pub proof fn lemma_rust_installer_verifies_before_install(c: RustConfig)
    ensures
        runs_before(rust_installer_deps(c), "cd /tmp && wget -q -O package.tar.xz "@ + c.rust_binary_url@,
            "cd /tmp && gpg --verify package.tar.xz.asc package.tar.xz"@),
        runs_before(rust_installer_deps(c), "cd /tmp && echo \""@ + c.rust_binary_gpg_asc@ + "\" >> package.tar.xz.asc"@,
            "cd /tmp && gpg --verify package.tar.xz.asc package.tar.xz"@),
        runs_before(rust_installer_deps(c), "wget -qO- https://keybase.io/some-key/pgp_keys.asc | gpg --import"@,
            "cd /tmp && gpg --verify package.tar.xz.asc package.tar.xz"@),
        runs_before(rust_installer_deps(c), "cd /tmp && gpg --verify package.tar.xz.asc package.tar.xz"@,
            "cd /tmp && tar xvJf package.tar.xz -C . --strip-components=1"@),
        runs_before(rust_installer_deps(c), "cd /tmp && tar xvJf package.tar.xz -C . --strip-components=1"@,
            "cd /tmp && /bin/bash install.sh"@),
{
    let d = rust_installer_deps(c);
    reveal_strlit("{}");
    reveal_strlit("cd /tmp && wget -q -O package.tar.xz {}");
    reveal_strlit("cd /tmp && wget -q -O package.tar.xz ");
    reveal_strlit("");
    assert("cd /tmp && wget -q -O package.tar.xz {}"@ =~= "cd /tmp && wget -q -O package.tar.xz "@ + "{}"@ + ""@);
    lemma_fill_one("cd /tmp && wget -q -O package.tar.xz {}"@, "cd /tmp && wget -q -O package.tar.xz "@, ""@, c.rust_binary_url@);
    assert("cd /tmp && wget -q -O package.tar.xz "@ + c.rust_binary_url@ + ""@ =~= "cd /tmp && wget -q -O package.tar.xz "@ + c.rust_binary_url@);
    reveal_strlit("cd /tmp && echo \"{}\" >> package.tar.xz.asc");
    reveal_strlit("cd /tmp && echo \"");
    reveal_strlit("\" >> package.tar.xz.asc");
    assert("cd /tmp && echo \"{}\" >> package.tar.xz.asc"@ =~= "cd /tmp && echo \""@ + "{}"@ + "\" >> package.tar.xz.asc"@);
    lemma_fill_one("cd /tmp && echo \"{}\" >> package.tar.xz.asc"@, "cd /tmp && echo \""@, "\" >> package.tar.xz.asc"@, c.rust_binary_gpg_asc@);
    assert(d[1] == "cd /tmp && wget -q -O package.tar.xz "@ + c.rust_binary_url@);
    assert(d[2] == "cd /tmp && echo \""@ + c.rust_binary_gpg_asc@ + "\" >> package.tar.xz.asc"@);
    assert(d[3] == "wget -qO- https://keybase.io/some-key/pgp_keys.asc | gpg --import"@);
    assert(d[4] == "cd /tmp && gpg --verify package.tar.xz.asc package.tar.xz"@);
    assert(d[5] == "cd /tmp && tar xvJf package.tar.xz -C . --strip-components=1"@);
    assert(d[6] == "cd /tmp && /bin/bash install.sh"@);
}

/// The Go installer checks the tarball's SHA-256 before unpacking it to
/// `/usr/local/go`, and links `go` onto the PATH before `go version` runs.
pub proof fn lemma_go_installer_checked_and_on_path(c: GoConfig)
    ensures
        runs_before(go_installer_deps(c), "cd /tmp && sha256sum -c hash_file.txt"@,
            "cd /tmp && rm -rf /usr/local/go && mkdir /usr/local/go && tar -C /usr/local -xzf go.tar.gz"@),
        runs_before(go_installer_deps(c),
            "cd /tmp && rm -rf /usr/local/go && mkdir /usr/local/go && tar -C /usr/local -xzf go.tar.gz"@,
            "ln -s /usr/local/go/bin/go /usr/bin/go"@),
        runs_before(go_installer_deps(c), "ln -s /usr/local/go/bin/go /usr/bin/go"@, "go version"@),
{
    let d = go_installer_deps(c);
    assert(d[3] == "cd /tmp && sha256sum -c hash_file.txt"@);
    assert(d[4] == "cd /tmp && rm -rf /usr/local/go && mkdir /usr/local/go && tar -C /usr/local -xzf go.tar.gz"@);
    assert(d[5] == "ln -s /usr/local/go/bin/go /usr/bin/go"@);
    assert(d[6] == "go version"@);
}

/// The Node.js installer checks the tarball's SHA-256 before unpacking it,
/// unpacks it before linking `node` and `npm` onto the PATH, and links each
/// before its version is asked; yarn, when a version is given, is installed
/// with npm after npm is linked, and linked before `yarn --version` runs.
pub proof fn lemma_node_installer_checked_and_on_path(c: JavascriptConfig)
    ensures
        runs_before(node_installer_deps(c), "cd /tmp && sha256sum -c hash_file.txt"@,
            "cd /tmp && rm -rf /usr/share/node && mkdir /usr/share/node && tar -C /usr/share/node -xzf node.tar.gz --strip-components=1"@),
        runs_before(node_installer_deps(c),
            "cd /tmp && rm -rf /usr/share/node && mkdir /usr/share/node && tar -C /usr/share/node -xzf node.tar.gz --strip-components=1"@,
            "ln -s /usr/share/node/bin/node /usr/bin/node"@),
        runs_before(node_installer_deps(c), "ln -s /usr/share/node/bin/node /usr/bin/node"@, "node --version"@),
        runs_before(node_installer_deps(c), "ln -s /usr/share/node/bin/npm /usr/bin/npm"@, "npm --version"@),
        c.yarn_version matches Some(y) ==> runs_before(node_installer_deps(c),
            "ln -s /usr/share/node/bin/npm /usr/bin/npm"@, "npm install --global yarn@"@ + y@),
        c.yarn_version matches Some(y) ==> runs_before(node_installer_deps(c),
            "npm install --global yarn@"@ + y@, "ln -s /usr/share/node/bin/yarn /usr/bin/yarn"@),
        c.yarn_version is Some ==> runs_before(node_installer_deps(c),
            "ln -s /usr/share/node/bin/yarn /usr/bin/yarn"@, "yarn --version"@),
{
    let d = node_installer_deps(c);
    reveal_strlit("{}");
    assert(d[3] == "cd /tmp && sha256sum -c hash_file.txt"@);
    assert(d[4] == "cd /tmp && rm -rf /usr/share/node && mkdir /usr/share/node && tar -C /usr/share/node -xzf node.tar.gz --strip-components=1"@);
    assert(d[6] == "ln -s /usr/share/node/bin/node /usr/bin/node"@);
    assert(d[7] == "ln -s /usr/share/node/bin/npm /usr/bin/npm"@);
    assert(d[11] == "node --version"@);
    assert(d[12] == "npm --version"@);
    if let Some(y) = c.yarn_version {
        reveal_strlit("npm install --global yarn@{}");
        reveal_strlit("npm install --global yarn@");
        reveal_strlit("");
        assert("npm install --global yarn@{}"@ =~= "npm install --global yarn@"@ + "{}"@ + ""@);
        lemma_fill_one("npm install --global yarn@{}"@, "npm install --global yarn@"@, ""@, y@);
        assert("npm install --global yarn@"@ + y@ + ""@ =~= "npm install --global yarn@"@ + y@);
        assert(d[13] == "npm install --global yarn@"@ + y@);
        assert(d[14] == "ln -s /usr/share/node/bin/yarn /usr/bin/yarn"@);
        assert(d[15] == "yarn --version"@);
    }
}

/// The Nim installer checks the tarball's SHA-256 before moving Nim to
/// `/opt/lib/nim`, and links `nim` onto the PATH before `nim --version`
/// runs.
pub proof fn lemma_nim_installer_checked_and_on_path(c: NimConfig)
    ensures
        runs_before(nim_installer_deps(c), "cd /tmp && sha256sum -c hash_file.txt"@,
            "cd /tmp && mv nim-"@ + c.nim_version@ + " /opt/lib/nim"@),
        runs_before(nim_installer_deps(c), "cd /tmp && mv nim-"@ + c.nim_version@ + " /opt/lib/nim"@,
            "ln -s /opt/lib/nim/nim-"@ + c.nim_version@ + "/bin/nim /usr/bin/nim"@),
        runs_before(nim_installer_deps(c), "ln -s /opt/lib/nim/nim-"@ + c.nim_version@ + "/bin/nim /usr/bin/nim"@,
            "nim --version"@),
{
    let d = nim_installer_deps(c);
    reveal_strlit("{}");
    let v = c.nim_version@;
    reveal_strlit("cd /tmp && mv nim-{} /opt/lib/nim");
    reveal_strlit("cd /tmp && mv nim-");
    reveal_strlit(" /opt/lib/nim");
    assert("cd /tmp && mv nim-{} /opt/lib/nim"@ =~= "cd /tmp && mv nim-"@ + "{}"@ + " /opt/lib/nim"@);
    lemma_fill_one("cd /tmp && mv nim-{} /opt/lib/nim"@, "cd /tmp && mv nim-"@, " /opt/lib/nim"@, v);
    reveal_strlit("ln -s /opt/lib/nim/nim-{}/bin/nim /usr/bin/nim");
    reveal_strlit("ln -s /opt/lib/nim/nim-");
    reveal_strlit("/bin/nim /usr/bin/nim");
    assert("ln -s /opt/lib/nim/nim-{}/bin/nim /usr/bin/nim"@ =~= "ln -s /opt/lib/nim/nim-"@ + "{}"@ + "/bin/nim /usr/bin/nim"@);
    lemma_fill_one("ln -s /opt/lib/nim/nim-{}/bin/nim /usr/bin/nim"@, "ln -s /opt/lib/nim/nim-"@, "/bin/nim /usr/bin/nim"@, v);
    assert(d[5] == "cd /tmp && sha256sum -c hash_file.txt"@);
    assert(d[7] == "cd /tmp && mv nim-"@ + v + " /opt/lib/nim"@);
    assert(d[8] == "ln -s /opt/lib/nim/nim-"@ + v + "/bin/nim /usr/bin/nim"@);
    assert(d[9] == "nim --version"@);
}

impl LanguageInstaller for JavaInstaller<'_> {
    open spec fn build_deps(&self, arch: Seq<char>, codename: Seq<char>) -> Seq<Seq<char>> {
        java_installer_deps(*self.0)
    }

    /// The JDK is left to the test bed to install.
    open spec fn test_deps(&self, codename: Seq<char>) -> Seq<Seq<char>> {
        seq![]
    }

    open spec fn has_test_deps(&self) -> bool {
        true
    }

    fn get_build_deps(&self, _arch: &str, _codename: &str) -> (r: Vec<String>) {
        if !self.0.is_oracle {
            let r: Vec<String> = Vec::new();
            assert(text::views(r@) =~= Seq::<Seq<char>>::empty());
            return r;
        }
        let v = self.0.jdk_version.as_str();
        let mut b = CommandBuilder::new();
        b.add("apt install -y wget");
        b.add_with("mkdir -p /opt/lib/jvm/jdk-{}-oracle && mkdir -p /usr/lib/jvm", v);
        b.add_with("cd /tmp && wget -q --output-document jdk.tar.gz {}", self.0.jdk_binary_url.as_str());
        b.add_with("cd /tmp && echo \"{} jdk.tar.gz\" >> hash_file.txt && cat hash_file.txt", self.0.jdk_binary_checksum.as_str());
        b.add("cd /tmp && sha256sum -c hash_file.txt");
        b.add_with("cd /tmp && tar -zxf jdk.tar.gz -C /opt/lib/jvm/jdk-{}-oracle --strip-components=1", v);
        b.add_with("ln -s /opt/lib/jvm/jdk-{}-oracle/bin/java /usr/bin/java", v);
        b.add_with("ln -s /opt/lib/jvm/jdk-{}-oracle/bin/javac /usr/bin/javac", v);
        b.add("java -version");
        b.add("apt remove -y wget");
        match &self.0.gradle {
            Some(g) => {
                let gv = g.gradle_version.as_str();
                b.add("apt install -y wget unzip");
                b.add_with("mkdir -p /opt/lib/gradle-{}", gv);
                b.add_with("cd /tmp && wget -q --output-document gradle.tar.gz {}", g.gradle_binary_url.as_str());
                b.add_with("cd /tmp && echo \"{} gradle.tar.gz\" > hash_file.txt && cat hash_file.txt", g.gradle_binary_checksum.as_str());
                b.add("cd /tmp && sha256sum -c hash_file.txt");
                b.add_with("cd /tmp && unzip gradle.tar.gz && mv gradle-{} /opt/lib", gv);
                b.add_with("ln -s /opt/lib/gradle-{}/bin/gradle /usr/bin/gradle", gv);
                b.add("gradle -version");
                b.add("apt remove -y wget");
            },
            None => {},
        }
        let r = b.build();
        assert(text::views(r@) =~= java_installer_deps(*self.0));
        r
    }

    fn get_test_deps(&self, _codename: &str) -> (r: Vec<String>) {
        let r: Vec<String> = Vec::new();
        assert(text::views(r@) =~= Seq::<Seq<char>>::empty());
        r
    }
}

/// The Nim installer's chroot commands: the release tarball, checked by
/// SHA-256, installed under `/opt/lib/nim`.
pub open spec fn nim_installer_deps(c: NimConfig) -> Seq<Seq<char>> {
    let v = c.nim_version@;
    seq![
        "apt install -y wget"@,
        fill("rm -rf /tmp/nim-{} && rm -rf /usr/lib/nim/nim-{} && rm -rf /opt/lib/nim/nim-{} && mkdir /tmp/nim-{}"@, v),
        "mkdir -p /opt/lib/nim && mkdir -p /usr/lib/nim"@,
        fill("cd /tmp && wget -q {}"@, c.nim_binary_url@),
        fill("cd /tmp && echo {} >> hash_file.txt && cat hash_file.txt"@, c.nim_version_checksum@),
        "cd /tmp && sha256sum -c hash_file.txt"@,
        fill("cd /tmp && tar xJf nim-{}-linux_x64.tar.xz -C nim-{} --strip-components=1"@, v),
        fill("cd /tmp && mv nim-{} /opt/lib/nim"@, v),
        fill("ln -s /opt/lib/nim/nim-{}/bin/nim /usr/bin/nim"@, v),
        "nim --version"@,
        "apt remove -y wget"@,
    ]
}

impl LanguageInstaller for NimInstaller<'_> {
    open spec fn build_deps(&self, arch: Seq<char>, codename: Seq<char>) -> Seq<Seq<char>> {
        nim_installer_deps(*self.0)
    }

    open spec fn test_deps(&self, codename: Seq<char>) -> Seq<Seq<char>> {
        seq![]
    }

    /// What Nim's test bed needs was never written down: asking panics.
    open spec fn has_test_deps(&self) -> bool {
        false
    }

    fn get_build_deps(&self, _arch: &str, _codename: &str) -> (r: Vec<String>) {
        let v = self.0.nim_version.as_str();
        let mut b = CommandBuilder::new();
        b.add("apt install -y wget");
        b.add_with("rm -rf /tmp/nim-{} && rm -rf /usr/lib/nim/nim-{} && rm -rf /opt/lib/nim/nim-{} && mkdir /tmp/nim-{}", v);
        b.add("mkdir -p /opt/lib/nim && mkdir -p /usr/lib/nim");
        b.add_with("cd /tmp && wget -q {}", self.0.nim_binary_url.as_str());
        b.add_with("cd /tmp && echo {} >> hash_file.txt && cat hash_file.txt", self.0.nim_version_checksum.as_str());
        b.add("cd /tmp && sha256sum -c hash_file.txt");
        b.add_with("cd /tmp && tar xJf nim-{}-linux_x64.tar.xz -C nim-{} --strip-components=1", v);
        b.add_with("cd /tmp && mv nim-{} /opt/lib/nim", v);
        b.add_with("ln -s /opt/lib/nim/nim-{}/bin/nim /usr/bin/nim", v);
        b.add("nim --version");
        b.add("apt remove -y wget");
        let r = b.build();
        assert(text::views(r@) =~= nim_installer_deps(*self.0));
        r
    }

    fn get_test_deps(&self, _codename: &str) -> (r: Vec<String>) {
        Vec::new()
    }
}


/// A .NET package name as apt knows it: the part before `_<arch>` (the
/// whole name when that does not occur), with `_` turned into `=`.
pub open spec fn transformed_name(input: Seq<char>, arch: Seq<char>) -> Seq<char> {
    match text::before_first(input, "_"@ + arch) {
        Some(prefix) => text::replace_spec(prefix, "_"@, "="@),
        None => text::replace_spec(input, "_"@, "="@),
    }
}

/// The apt name and version of a .NET package file name for an
/// architecture, such as `dotnet-sdk-8.0=8.0.100-1` for
/// `dotnet-sdk-8.0_8.0.100-1_amd64`.
pub fn transform_name(input: &str, arch: &str) -> (r: String)
    ensures
        r@ == transformed_name(input@, arch@),
{
    let pat = text::cat("_", arch);
    match text::find_before(input, pat.as_str()) {
        Some(prefix) => replace_all(prefix.as_str(), "_", "="),
        None => replace_all(input, "_", "="),
    }
}

/// A .NET package file name `<name>_<version>_<arch>...` becomes the apt
/// request `<name>=<version>` for that architecture, when neither name nor
/// version holds `_` and the version does not itself start with the
/// architecture.
pub proof fn lemma_transformed_name(name: Seq<char>, ver: Seq<char>, arch: Seq<char>, rest: Seq<char>)
    requires
        forall|k: int| 0 <= k < name.len() ==> #[trigger] name[k] != '_',
        forall|k: int| 0 <= k < ver.len() ==> #[trigger] ver[k] != '_',
        forall|k: int| 0 <= k < arch.len() ==> #[trigger] arch[k] != '_',
        !text::starts_with_spec(ver, arch),
    ensures
        transformed_name(name + "_"@ + ver + "_"@ + arch + rest, arch) == name + "="@ + ver,
{
    reveal_strlit("_");
    reveal_strlit("=");
    let u = "_"@;
    let p = u + arch;
    let s = name + u + ver + u + arch + rest;
    let n = name.len() as int;
    let i = n + 1 + ver.len();
    assert(s[n] == '_');
    assert(s[i] == '_');
    assert forall|j: int| 0 <= j < i implies !text::occurs_at(s, p, j) by {
        if text::occurs_at(s, p, j) {
            assert(s.subrange(j, j + p.len())[0] == s[j]);
            assert(s[j] == '_');
            if j < n {
                assert(s[j] == name[j]);
            } else if j > n {
                assert(s[j] == ver[j - n - 1]);
            } else {
                // at the first `_`, the architecture would have to begin the version
                if arch.len() <= ver.len() {
                    assert forall|k: int| 0 <= k < arch.len() implies ver.take(arch.len() as int)[k] == arch[k] by {
                        assert(s.subrange(j, j + p.len())[k + 1] == p[k + 1]);
                        assert(s[j + 1 + k] == ver[k]);
                    }
                    assert(ver.take(arch.len() as int) =~= arch);
                } else {
                    let k = ver.len() as int;
                    assert(s.subrange(j, j + p.len())[k + 1] == p[k + 1]);
                    assert(s[j + 1 + k] == '_');
                    assert(p[k + 1] == arch[k]);
                }
            }
        }
    }
    assert(s.subrange(i, i + p.len()) =~= p);
    text::lemma_before_first_at(s, p, i);
    assert(s.take(i) =~= name + u + ver);
    text::lemma_replace_once(name, u, ver, "="@);
}

/// `apt install -y <dep>` for each extra dependency.
pub open spec fn dep_cmds(deps: Seq<Seq<char>>) -> Seq<Seq<char>>
    decreases deps.len(),
{
    if deps.len() == 0 {
        seq![]
    } else {
        dep_cmds(deps.drop_last()) + seq![fill("apt install -y {}"@, deps.last())]
    }
}

/// The commands that fetch, install and check each backup .NET package.
pub open spec fn backup_pkg_cmds(pkgs: Seq<DotnetPackage>) -> Seq<Seq<char>>
    decreases pkgs.len(),
{
    if pkgs.len() == 0 {
        seq![]
    } else {
        let p = pkgs.last();
        backup_pkg_cmds(pkgs.drop_last()) + seq![
            fill("cd /tmp && wget -q {}"@, p.url@),
            fill("cd /tmp && ls && dpkg -i {}.deb"@, p.name@),
            fill("cd /tmp && ls && sha1sum {}.deb"@, p.name@),
            fill_args("cd /tmp &&  echo {} {}.deb > hash_file.txt && cat hash_file.txt"@, seq![p.hash@, p.name@]),
            "cd /tmp && sha1sum -c hash_file.txt"@,
        ]
    }
}

/// The commands that fetch, install from the repository and check each
/// .NET package.
pub open spec fn repo_pkg_cmds(pkgs: Seq<DotnetPackage>, arch: Seq<char>, install: Seq<char>) -> Seq<Seq<char>>
    decreases pkgs.len(),
{
    if pkgs.len() == 0 {
        seq![]
    } else {
        let p = pkgs.last();
        repo_pkg_cmds(pkgs.drop_last(), arch, install) + seq![
            fill("cd /tmp && wget -q {}"@, p.url@),
            fill(install, transformed_name(p.name@, arch)),
            fill("cd /tmp && apt download -y {}"@, transformed_name(p.name@, arch)),
            fill("cd /tmp && ls && sha1sum {}.deb"@, p.name@),
            fill_args("cd /tmp &&  echo {} {}.deb >> hash_file.txt && cat hash_file.txt"@, seq![p.hash@, p.name@]),
            "cd /tmp && sha1sum -c hash_file.txt"@,
        ]
    }
}

/// The .NET installer's chroot commands: the backup packages when asked
/// for; otherwise the Microsoft repository on bookworm and jammy, the
/// backports archive on noble, nothing elsewhere.
pub open spec fn dotnet_installer_deps(c: DotnetConfig, arch: Seq<char>, codename: Seq<char>) -> Seq<Seq<char>> {
    let tail = seq!["dotnet --version"@, "apt remove -y wget"@];
    if c.use_backup_version {
        seq!["apt install -y wget"@, "apt install -y libicu-dev"@]
            + dep_cmds(match c.deps { Some(d) => text::views(d@), None => seq![] })
            + backup_pkg_cmds(c.dotnet_packages@) + tail
    } else if codename == "bookworm"@ || codename == "jammy jellyfish"@ {
        seq![
            "apt install -y wget"@,
            "cd /tmp && wget -q https://packages.microsoft.com/config/debian/12/packages-microsoft-prod.deb -O packages-microsoft-prod.deb"@,
            "cd /tmp && dpkg -i packages-microsoft-prod.deb"@,
            "apt update -y"@,
        ] + repo_pkg_cmds(c.dotnet_packages@, arch, "cd /tmp && apt install -y --allow-downgrades {}"@) + tail
    } else if codename == "noble numbat"@ {
        seq![
            "apt-get install software-properties-common -y"@,
            "add-apt-repository ppa:dotnet/backports"@,
            "apt-get update -y"@,
            "apt install -y wget"@,
        ] + repo_pkg_cmds(c.dotnet_packages@, arch, "cd /tmp && apt install -y {}"@) + tail
    } else {
        seq![]
    }
}

/// The .NET installer's test-bed commands: the Microsoft repository on
/// bookworm and jammy, nothing elsewhere.
pub open spec fn dotnet_installer_test_deps(codename: Seq<char>) -> Seq<Seq<char>> {
    if codename == "bookworm"@ || codename == "jammy jellyfish"@ {
        seq![
            "apt install -y wget"@,
            "cd /tmp && wget https://packages.microsoft.com/config/debian/12/packages-microsoft-prod.deb -O packages-microsoft-prod.deb"@,
            "cd /tmp && dpkg -i packages-microsoft-prod.deb"@,
            "apt-get update -y"@,
            "apt remove -y wget"@,
        ]
    } else {
        seq![]
    }
}

fn add_repo_packages(b: &mut CommandBuilder, pkgs: &Vec<DotnetPackage>, arch: &str, install: &str)
    ensures
        final(b).cmds() == old(b).cmds() + repo_pkg_cmds(pkgs@, arch@, install@),
{
    let mut i: usize = 0;
    while i < pkgs.len()
        invariant
            i <= pkgs.len(),
            b.cmds() == old(b).cmds() + repo_pkg_cmds(pkgs@.take(i as int), arch@, install@),
        decreases pkgs.len() - i,
    {
        proof {
            assert(pkgs@.take(i + 1).drop_last() =~= pkgs@.take(i as int));
        }
        let p = &pkgs[i];
        let name = transform_name(p.name.as_str(), arch);
        b.add_with("cd /tmp && wget -q {}", p.url.as_str());
        b.add_with(install, name.as_str());
        b.add_with("cd /tmp && apt download -y {}", name.as_str());
        b.add_with("cd /tmp && ls && sha1sum {}.deb", p.name.as_str());
        let args = vec![p.hash.as_str(), p.name.as_str()];
        assert(crate::v1::build::command_builder::arg_views(args@) =~= seq![p.hash@, p.name@]);
        b.add_with_args("cd /tmp &&  echo {} {}.deb >> hash_file.txt && cat hash_file.txt", args.as_slice());
        b.add("cd /tmp && sha1sum -c hash_file.txt");
        i = i + 1;
        assert(b.cmds() =~= old(b).cmds() + repo_pkg_cmds(pkgs@.take(i as int), arch@, install@));
    }
    assert(pkgs@.take(i as int) =~= pkgs@);
}

impl LanguageInstaller for DotnetInstaller<'_> {
    open spec fn build_deps(&self, arch: Seq<char>, codename: Seq<char>) -> Seq<Seq<char>> {
        dotnet_installer_deps(*self.0, arch, codename)
    }

    open spec fn test_deps(&self, codename: Seq<char>) -> Seq<Seq<char>> {
        dotnet_installer_test_deps(codename)
    }

    open spec fn has_test_deps(&self) -> bool {
        true
    }

    fn get_build_deps(&self, arch: &str, codename: &str) -> (r: Vec<String>) {
        let c = self.0;
        let mut b = CommandBuilder::new();
        if c.use_backup_version {
            b.add("apt install -y wget");
            b.add("apt install -y libicu-dev");
            let empty: Vec<String> = Vec::new();
            let deps: &Vec<String> = match &c.deps {
                Some(d) => d,
                None => &empty,
            };
            let ghost base = b.cmds();
            let mut i: usize = 0;
            while i < deps.len()
                invariant
                    i <= deps.len(),
                    b.cmds() == base + dep_cmds(text::views(deps@).take(i as int)),
                decreases deps.len() - i,
            {
                proof {
                    assert(text::views(deps@).take(i + 1).drop_last() =~= text::views(deps@).take(i as int));
                }
                b.add_with("apt install -y {}", deps[i].as_str());
                i = i + 1;
                assert(b.cmds() =~= base + dep_cmds(text::views(deps@).take(i as int)));
            }
            assert(text::views(deps@).take(i as int) =~= text::views(deps@));
            assert(text::views(empty@) =~= Seq::<Seq<char>>::empty());
            let ghost base2 = b.cmds();
            let pkgs = &c.dotnet_packages;
            let mut k: usize = 0;
            while k < pkgs.len()
                invariant
                    k <= pkgs.len(),
                    b.cmds() == base2 + backup_pkg_cmds(pkgs@.take(k as int)),
                decreases pkgs.len() - k,
            {
                proof {
                    assert(pkgs@.take(k + 1).drop_last() =~= pkgs@.take(k as int));
                }
                let p = &pkgs[k];
                b.add_with("cd /tmp && wget -q {}", p.url.as_str());
                b.add_with("cd /tmp && ls && dpkg -i {}.deb", p.name.as_str());
                b.add_with("cd /tmp && ls && sha1sum {}.deb", p.name.as_str());
                let args = vec![p.hash.as_str(), p.name.as_str()];
                assert(crate::v1::build::command_builder::arg_views(args@) =~= seq![p.hash@, p.name@]);
                b.add_with_args("cd /tmp &&  echo {} {}.deb > hash_file.txt && cat hash_file.txt", args.as_slice());
                b.add("cd /tmp && sha1sum -c hash_file.txt");
                k = k + 1;
                assert(b.cmds() =~= base2 + backup_pkg_cmds(pkgs@.take(k as int)));
            }
            assert(pkgs@.take(k as int) =~= pkgs@);
            b.add("dotnet --version");
            b.add("apt remove -y wget");
        } else if str_eq(codename, "bookworm") || str_eq(codename, "jammy jellyfish") {
            b.add("apt install -y wget");
            b.add("cd /tmp && wget -q https://packages.microsoft.com/config/debian/12/packages-microsoft-prod.deb -O packages-microsoft-prod.deb");
            b.add("cd /tmp && dpkg -i packages-microsoft-prod.deb");
            b.add("apt update -y");
            add_repo_packages(&mut b, &c.dotnet_packages, arch, "cd /tmp && apt install -y --allow-downgrades {}");
            b.add("dotnet --version");
            b.add("apt remove -y wget");
        } else if str_eq(codename, "noble numbat") {
            b.add("apt-get install software-properties-common -y");
            b.add("add-apt-repository ppa:dotnet/backports");
            b.add("apt-get update -y");
            b.add("apt install -y wget");
            add_repo_packages(&mut b, &c.dotnet_packages, arch, "cd /tmp && apt install -y {}");
            b.add("dotnet --version");
            b.add("apt remove -y wget");
        }
        let r = b.build();
        assert(text::views(r@) =~= dotnet_installer_deps(*self.0, arch@, codename@));
        r
    }

    fn get_test_deps(&self, codename: &str) -> (r: Vec<String>) {
        let mut b = CommandBuilder::new();
        if str_eq(codename, "bookworm") || str_eq(codename, "jammy jellyfish") {
            b.add("apt install -y wget");
            b.add("cd /tmp && wget https://packages.microsoft.com/config/debian/12/packages-microsoft-prod.deb -O packages-microsoft-prod.deb");
            b.add("cd /tmp && dpkg -i packages-microsoft-prod.deb");
            b.add("apt-get update -y");
            b.add("apt remove -y wget");
        }
        let r = b.build();
        assert(text::views(r@) =~= dotnet_installer_test_deps(codename@));
        r
    }
}

/// The installer of a toolchain, chosen by language.
pub enum Installer<'a> {
    Empty(EmptyInstaller),
    Go(GoInstaller<'a>),
    Node(NodeInstaller<'a>),
    Java(JavaInstaller<'a>),
    Dotnet(DotnetInstaller<'a>),
    Nim(NimInstaller<'a>),
    Rust(RustInstaller<'a>),
}

impl LanguageInstaller for Installer<'_> {
    open spec fn build_deps(&self, arch: Seq<char>, codename: Seq<char>) -> Seq<Seq<char>> {
        match self {
            Installer::Empty(i) => i.build_deps(arch, codename),
            Installer::Go(i) => i.build_deps(arch, codename),
            Installer::Node(i) => i.build_deps(arch, codename),
            Installer::Java(i) => i.build_deps(arch, codename),
            Installer::Dotnet(i) => i.build_deps(arch, codename),
            Installer::Nim(i) => i.build_deps(arch, codename),
            Installer::Rust(i) => i.build_deps(arch, codename),
        }
    }

    open spec fn test_deps(&self, codename: Seq<char>) -> Seq<Seq<char>> {
        match self {
            Installer::Empty(i) => i.test_deps(codename),
            Installer::Go(i) => i.test_deps(codename),
            Installer::Node(i) => i.test_deps(codename),
            Installer::Java(i) => i.test_deps(codename),
            Installer::Dotnet(i) => i.test_deps(codename),
            Installer::Nim(i) => i.test_deps(codename),
            Installer::Rust(i) => i.test_deps(codename),
        }
    }

    open spec fn has_test_deps(&self) -> bool {
        !(self is Nim)
    }

    fn get_build_deps(&self, arch: &str, codename: &str) -> (r: Vec<String>) {
        match self {
            Installer::Empty(i) => i.get_build_deps(arch, codename),
            Installer::Go(i) => i.get_build_deps(arch, codename),
            Installer::Node(i) => i.get_build_deps(arch, codename),
            Installer::Java(i) => i.get_build_deps(arch, codename),
            Installer::Dotnet(i) => i.get_build_deps(arch, codename),
            Installer::Nim(i) => i.get_build_deps(arch, codename),
            Installer::Rust(i) => i.get_build_deps(arch, codename),
        }
    }

    fn get_test_deps(&self, codename: &str) -> (r: Vec<String>) {
        match self {
            Installer::Empty(i) => i.get_test_deps(codename),
            Installer::Go(i) => i.get_test_deps(codename),
            Installer::Node(i) => i.get_test_deps(codename),
            Installer::Java(i) => i.get_test_deps(codename),
            Installer::Dotnet(i) => i.get_test_deps(codename),
            Installer::Nim(i) => i.get_test_deps(codename),
            Installer::Rust(i) => i.get_test_deps(codename),
        }
    }
}

/// The chroot commands of a language's installer (JavaScript and
/// TypeScript share Node's; C needs none).
pub open spec fn lang_build_deps(e: LanguageEnv, arch: Seq<char>, codename: Seq<char>) -> Seq<Seq<char>> {
    match e {
        LanguageEnv::Rust(c) => rust_installer_deps(c),
        LanguageEnv::Go(c) => go_installer_deps(c),
        LanguageEnv::JavaScript(c) => node_installer_deps(c),
        LanguageEnv::TypeScript(c) => node_installer_deps(c),
        LanguageEnv::Java(c) => java_installer_deps(c),
        LanguageEnv::Dotnet(c) => dotnet_installer_deps(c, arch, codename),
        LanguageEnv::Nim(c) => nim_installer_deps(c),
        LanguageEnv::C => seq![],
    }
}

/// The test-bed commands of a language's installer.
pub open spec fn lang_test_deps(e: LanguageEnv, codename: Seq<char>) -> Seq<Seq<char>> {
    match e {
        LanguageEnv::Dotnet(_) => dotnet_installer_test_deps(codename),
        _ => seq![],
    }
}

/// The installer of a language's toolchain; Nim's cannot say what its test
/// bed needs.
pub fn get_installer(lang_env: &LanguageEnv) -> (r: Installer<'_>)
    ensures
        forall|a: Seq<char>, c: Seq<char>| #[trigger] r.build_deps(a, c) == lang_build_deps(*lang_env, a, c),
        forall|c: Seq<char>| #[trigger] r.test_deps(c) == lang_test_deps(*lang_env, c),
        r.has_test_deps() == !(lang_env is Nim),
{
    match lang_env {
        LanguageEnv::Rust(c) => Installer::Rust(RustInstaller(c)),
        LanguageEnv::Go(c) => Installer::Go(GoInstaller(c)),
        LanguageEnv::JavaScript(c) => Installer::Node(NodeInstaller(c)),
        LanguageEnv::TypeScript(c) => Installer::Node(NodeInstaller(c)),
        LanguageEnv::Java(c) => Installer::Java(JavaInstaller(c)),
        LanguageEnv::Dotnet(c) => Installer::Dotnet(DotnetInstaller(c)),
        LanguageEnv::Nim(c) => Installer::Nim(NimInstaller(c)),
        LanguageEnv::C => Installer::Empty(EmptyInstaller),
    }
}

} // verus!
