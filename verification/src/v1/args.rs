//! The commands of the packager's command line, and what each one asks for.
use vstd::prelude::*;
use crate::v1::packager::PackagerOperation;

verus! {

/// The command line: one action.
pub struct PkgBuilderArgs {
    pub action: ActionType,
}

/// The actions of the command line.
pub enum ActionType {
    /// Build the package.
    Package(PackageCommand),
    /// Create or remove the build environment.
    Env(EnvCommand),
    /// Run the install, upgrade and removal tests.
    Piuparts(DefaultCommand),
    /// Run the tests against the built package.
    Autopkgtest(DefaultCommand),
    /// Run lintian against the package.
    Lintian(DefaultCommand),
    /// Check the built package against its hashes, building it first.
    Verify(VerifyConfig),
}

/// The verify command: the configuration, the file of expected hashes, and
/// whether to skip building the package again.
pub struct VerifyConfig {
    pub config: Option<String>,
    pub verify_config: Option<String>,
    pub no_package: Option<bool>,
}

/// A command that only takes the configuration.
pub struct DefaultCommand {
    pub config: Option<String>,
}

/// The build command: the configuration, and switches that override the
/// configured checks.
pub struct PackageCommand {
    pub config: Option<String>,
    pub run_piuparts: Option<bool>,
    pub run_autopkgtest: Option<bool>,
    pub run_lintian: Option<bool>,
}

/// The build environment command.
pub struct EnvCommand {
    pub build_env_sub_command: BuildEnvSubCommand,
}

/// Creating or removing the build environment.
pub enum BuildEnvSubCommand {
    Create(CreateBuildEnvCommand),
    Clean(CleanBuildEnvCommand),
}

/// Creating the build environment.
pub struct CreateBuildEnvCommand {
    pub config: Option<String>,
}

/// Removing the build environment.
pub struct CleanBuildEnvCommand {
    pub config: Option<String>,
}

/// What a command asks for: where its configuration is (the current
/// directory's `pkg-builder.toml` when not given), the verification file,
/// the switches that override the configured checks, and the operation.
pub struct CliRequest {
    pub config: Option<String>,
    pub verify_config: Option<String>,
    pub run_piuparts: Option<bool>,
    pub run_autopkgtest: Option<bool>,
    pub run_lintian: Option<bool>,
    pub operation: PackagerOperation,
}

/// The request of a command: the build command carries its switches; the
/// verify command its verification file, and it builds the package again
/// unless told not to; every other command carries its configuration only.
pub fn cli_request(action: ActionType) -> (r: CliRequest)
    ensures
        match action {
            ActionType::Package(c) => r.config == c.config && r.verify_config is None
                && r.run_piuparts == c.run_piuparts && r.run_autopkgtest == c.run_autopkgtest
                && r.run_lintian == c.run_lintian && r.operation == PackagerOperation::Package,
            ActionType::Verify(c) => r.config == c.config && r.verify_config == c.verify_config
                && r.run_piuparts is None && r.run_autopkgtest is None && r.run_lintian is None
                && r.operation == (PackagerOperation::Verify { package: !(c.no_package == Some(true)) }),
            ActionType::Env(e) => r.verify_config is None && r.run_piuparts is None
                && r.run_autopkgtest is None && r.run_lintian is None
                && match e.build_env_sub_command {
                    BuildEnvSubCommand::Create(c) => r.config == c.config && r.operation == PackagerOperation::CreateBuildEnv,
                    BuildEnvSubCommand::Clean(c) => r.config == c.config && r.operation == PackagerOperation::CleanBuildEnv,
                },
            ActionType::Piuparts(c) => r.config == c.config && r.verify_config is None && r.run_piuparts is None
                && r.run_autopkgtest is None && r.run_lintian is None && r.operation == PackagerOperation::RunPiuparts,
            ActionType::Autopkgtest(c) => r.config == c.config && r.verify_config is None && r.run_piuparts is None
                && r.run_autopkgtest is None && r.run_lintian is None && r.operation == PackagerOperation::RunAutopkgtests,
            ActionType::Lintian(c) => r.config == c.config && r.verify_config is None && r.run_piuparts is None
                && r.run_autopkgtest is None && r.run_lintian is None && r.operation == PackagerOperation::RunLintian,
        },
{
    let plain = |config: Option<String>, operation: PackagerOperation| -> (r: CliRequest)
        ensures
            r.config == config && r.verify_config is None && r.run_piuparts is None
                && r.run_autopkgtest is None && r.run_lintian is None && r.operation == operation,
    {
        CliRequest { config, verify_config: None, run_piuparts: None, run_autopkgtest: None, run_lintian: None, operation }
    };
    match action {
        ActionType::Package(c) => CliRequest {
            config: c.config,
            verify_config: None,
            run_piuparts: c.run_piuparts,
            run_autopkgtest: c.run_autopkgtest,
            run_lintian: c.run_lintian,
            operation: PackagerOperation::Package,
        },
        ActionType::Verify(c) => {
            let no_package = match c.no_package {
                Some(b) => b,
                None => false,
            };
            CliRequest {
                config: c.config,
                verify_config: c.verify_config,
                run_piuparts: None,
                run_autopkgtest: None,
                run_lintian: None,
                operation: PackagerOperation::Verify { package: !no_package },
            }
        },
        ActionType::Env(e) => match e.build_env_sub_command {
            BuildEnvSubCommand::Create(c) => plain(c.config, PackagerOperation::CreateBuildEnv),
            BuildEnvSubCommand::Clean(c) => plain(c.config, PackagerOperation::CleanBuildEnv),
        },
        ActionType::Piuparts(c) => plain(c.config, PackagerOperation::RunPiuparts),
        ActionType::Autopkgtest(c) => plain(c.config, PackagerOperation::RunAutopkgtests),
        ActionType::Lintian(c) => plain(c.config, PackagerOperation::RunLintian),
    }
}

} // verus!
