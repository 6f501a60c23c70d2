use pkg_builder::v1::args::{
    cli_request, ActionType, BuildEnvSubCommand, CleanBuildEnvCommand, CreateBuildEnvCommand, DefaultCommand,
    EnvCommand, PackageCommand, VerifyConfig,
};
use pkg_builder::v1::packager::PackagerOperation;

#[test]
fn package_command_carries_its_switches() {
    let r = cli_request(ActionType::Package(PackageCommand {
        config: Some("examples/pkg-builder.toml".to_string()),
        run_piuparts: Some(false),
        run_autopkgtest: None,
        run_lintian: Some(true),
    }));
    assert_eq!(r.config, Some("examples/pkg-builder.toml".to_string()));
    assert_eq!(r.verify_config, None);
    assert_eq!(r.run_piuparts, Some(false));
    assert_eq!(r.run_autopkgtest, None);
    assert_eq!(r.run_lintian, Some(true));
    assert_eq!(r.operation, PackagerOperation::Package);
}

#[test]
fn verify_command_builds_again_unless_told_not_to() {
    let r = cli_request(ActionType::Verify(VerifyConfig {
        config: None,
        verify_config: Some("v.toml".to_string()),
        no_package: None,
    }));
    assert_eq!(r.config, None);
    assert_eq!(r.verify_config, Some("v.toml".to_string()));
    assert_eq!(r.operation, PackagerOperation::Verify { package: true });
    let r = cli_request(ActionType::Verify(VerifyConfig { config: None, verify_config: None, no_package: Some(true) }));
    assert_eq!(r.operation, PackagerOperation::Verify { package: false });
    let r = cli_request(ActionType::Verify(VerifyConfig { config: None, verify_config: None, no_package: Some(false) }));
    assert_eq!(r.operation, PackagerOperation::Verify { package: true });
}

#[test]
fn other_commands_carry_their_configuration() {
    let c = || Some("c.toml".to_string());
    let r = cli_request(ActionType::Env(EnvCommand {
        build_env_sub_command: BuildEnvSubCommand::Create(CreateBuildEnvCommand { config: c() }),
    }));
    assert_eq!((r.config, r.operation), (c(), PackagerOperation::CreateBuildEnv));
    let r = cli_request(ActionType::Env(EnvCommand {
        build_env_sub_command: BuildEnvSubCommand::Clean(CleanBuildEnvCommand { config: c() }),
    }));
    assert_eq!((r.config, r.operation), (c(), PackagerOperation::CleanBuildEnv));
    let r = cli_request(ActionType::Piuparts(DefaultCommand { config: c() }));
    assert_eq!((r.config, r.operation), (c(), PackagerOperation::RunPiuparts));
    let r = cli_request(ActionType::Autopkgtest(DefaultCommand { config: c() }));
    assert_eq!((r.config, r.operation), (c(), PackagerOperation::RunAutopkgtests));
    let r = cli_request(ActionType::Lintian(DefaultCommand { config: None }));
    assert_eq!((r.config, r.operation, r.run_lintian), (None, PackagerOperation::RunLintian, None));
}
