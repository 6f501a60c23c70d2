use pkg_builder::v1::pkg_config::{
    BuildEnv, DefaultPackageTypeConfig, DotnetConfig, GitPackageTypeConfig, GoConfig, JavaConfig, JavascriptConfig,
    LanguageEnv, NimConfig, PackageFields, PackageType, PkgConfig, RustConfig, Validation,
};

fn check_errors<T: Validation>(config: &T, expected_errors: &[&str]) {
    match config.validate() {
        Err(validation_errors) => {
            assert_eq!(validation_errors.len(), expected_errors.len(), "Number of errors is different");
            for (actual, expected) in validation_errors.iter().zip(expected_errors.iter()) {
                assert_eq!(actual.to_string(), *expected);
            }
        }
        Ok(_) => panic!("Validation should have failed."),
    }
}

#[test]
fn test_empty_strings_are_error_rust_config() {
    let config = RustConfig {
        rust_version: "".to_string(),
        rust_binary_url: "".to_string(),
        rust_binary_gpg_asc: "".to_string(),
    };
    check_errors(&config, &[
        "field: rust_version cannot be empty",
        "field: rust_binary_url cannot be empty",
        "field: rust_binary_gpg_asc cannot be empty",
    ]);
}

#[test]
fn test_empty_strings_are_error_go_config() {
    let config = GoConfig {
        go_version: "".to_string(),
        go_binary_url: "".to_string(),
        go_binary_checksum: "".to_string(),
    };
    check_errors(&config, &[
        "field: go_version cannot be empty",
        "field: go_binary_url cannot be empty",
        "field: go_binary_checksum cannot be empty",
    ]);
}

#[test]
fn test_empty_strings_are_error_javascript_config() {
    let config = JavascriptConfig {
        node_version: "".to_string(),
        yarn_version: Some("".to_string()),
        ..Default::default()
    };
    check_errors(&config, &["field: node_version cannot be empty", "field: yarn_version cannot be empty"]);
}

#[test]
fn test_empty_strings_are_error_java_config() {
    let config = JavaConfig {
        is_oracle: false,
        jdk_version: "".to_string(),
        ..Default::default()
    };
    check_errors(&config, &["field: jdk_version cannot be empty"]);
}

#[test]
fn test_empty_strings_are_error_dotnet_config() {
    let config = DotnetConfig {
        dotnet_version: "".to_string(),
        ..Default::default()
    };
    check_errors(&config, &["field: dotnet_version cannot be empty"]);
}

#[test]
fn test_empty_strings_are_error_nim_config() {
    let config = NimConfig {
        nim_version: "".to_string(),
        nim_binary_url: "".to_string(),
        nim_version_checksum: "".to_string(),
    };
    check_errors(&config, &[
        "field: nim_version cannot be empty",
        "field: nim_binary_url cannot be empty",
        "field: nim_version_checksum cannot be empty",
    ]);
}

#[test]
fn test_empty_strings_are_error_default_package_type_config() {
    let config = DefaultPackageTypeConfig {
        tarball_url: "".to_string(),
        tarball_hash: "".to_string(),
        language_env: LanguageEnv::C,
    };
    check_errors(&config, &["field: tarball_url cannot be empty", "field: tarball_hash cannot be empty"]);
}

#[test]
fn test_empty_strings_are_error_git_package_type_config() {
    let config = GitPackageTypeConfig {
        git_commit: "".to_string(),
        git_url: "".to_string(),
        language_env: LanguageEnv::C,
        ..Default::default()
    };
    check_errors(&config, &["field: git_commit cannot be empty", "field: git_url cannot be empty"]);
}

#[test]
fn test_empty_strings_are_error_package_fields() {
    let config = PackageFields {
        spec_file: "".to_string(),
        package_name: "".to_string(),
        version_number: "".to_string(),
        revision_number: "".to_string(),
        homepage: "".to_string(),
    };
    check_errors(&config, &[
        "field: spec_file cannot be empty",
        "field: package_name cannot be empty",
        "field: version_number cannot be empty",
        "field: revision_number cannot be empty",
        "field: homepage cannot be empty",
    ]);
}

#[test]
fn test_empty_strings_are_error_build_env() {
    let config = BuildEnv {
        codename: "".to_string(),
        arch: "".to_string(),
        pkg_builder_version: "".to_string(),
        debcrafter_version: "".to_string(),
        run_lintian: None,
        run_piuparts: None,
        run_autopkgtest: None,
        workdir: None,
        ..Default::default()
    };
    check_errors(&config, &[
        "field: codename cannot be empty",
        "field: arch cannot be empty",
        "field: pkg_builder_version cannot be empty",
        "field: debcrafter_version cannot be empty",
    ]);
}

#[test]
fn test_validate_with_all_empty_values_pkg_config() {
    let config = PkgConfig {
        package_fields: PackageFields {
            spec_file: "".to_string(),
            package_name: "".to_string(),
            version_number: "".to_string(),
            revision_number: "".to_string(),
            homepage: "".to_string(),
        },
        package_type: PackageType::Virtual,
        build_env: BuildEnv {
            codename: "".to_string(),
            arch: "".to_string(),
            pkg_builder_version: "".to_string(),
            debcrafter_version: "".to_string(),
            run_lintian: None,
            run_piuparts: None,
            run_autopkgtest: None,
            workdir: None,
            ..Default::default()
        },
        cli_options: None,
        verify: None,
    };
    check_errors(&config, &[
        "field: spec_file cannot be empty",
        "field: package_name cannot be empty",
        "field: version_number cannot be empty",
        "field: revision_number cannot be empty",
        "field: homepage cannot be empty",
        "field: codename cannot be empty",
        "field: arch cannot be empty",
        "field: pkg_builder_version cannot be empty",
        "field: debcrafter_version cannot be empty",
    ]);
}

#[test]
fn blank_values_count_as_empty_and_valid_config_passes() {
    let config = GoConfig { go_version: " \t\u{3000}".to_string(), go_binary_url: "u".to_string(), go_binary_checksum: "c".to_string() };
    check_errors(&config, &["field: go_version cannot be empty"]);
    let ok = RustConfig { rust_version: "1".to_string(), rust_binary_url: "u".to_string(), rust_binary_gpg_asc: "a".to_string() };
    assert!(ok.validate().is_ok());
    let dft = DefaultPackageTypeConfig { tarball_url: "u".to_string(), tarball_hash: "".to_string(), language_env: LanguageEnv::C };
    assert!(dft.validate().is_ok());
}
