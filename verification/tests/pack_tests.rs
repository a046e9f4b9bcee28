use duckdb_ext_tools::events::ResolvedArtifact;
use duckdb_ext_tools::pack::Overrides;
use duckdb_ext_tools::pack::PackError;
use duckdb_ext_tools::pack::checked_footer;
use duckdb_ext_tools::pack::choose_duckdb_version;
use duckdb_ext_tools::pack::derive_parameters;
use duckdb_ext_tools::pack::extension_output_path;

fn no_overrides() -> Overrides {
    Overrides { extension_path: None, extension_version: None, duckdb_platform: None }
}

#[test]
fn output_path_replaces_name_and_extension() {
    assert_eq!(
        extension_output_path("target/debug/libfoo.so", "my-ext"),
        "target/debug/my_ext.duckdb_extension"
    );
}

#[test]
fn output_path_without_directory() {
    assert_eq!(extension_output_path("libfoo.so", "foo"), "foo.duckdb_extension");
}

#[test]
fn engine_version_override_wins() {
    let chosen = choose_duckdb_version(
        &Some(String::from("v2.0.0")),
        &Some(String::from("v1.4.2")),
    );
    assert_eq!(chosen, Ok(String::from("v2.0.0")));
}

#[test]
fn engine_version_falls_back_to_detection() {
    let chosen = choose_duckdb_version(&None, &Some(String::from("v1.4.2")));
    assert_eq!(chosen, Ok(String::from("v1.4.2")));
}

#[test]
fn engine_version_missing_everywhere_fails() {
    let chosen = choose_duckdb_version(&None, &None);
    assert_eq!(chosen, Err(PackError::MissingDuckdbVersion));
}

#[test]
fn parameters_are_derived_from_the_artifact() {
    let artifact = ResolvedArtifact {
        package_name: String::from("my-ext"),
        package_version: String::from("0.3.1"),
        filename: String::from("/w/target/aarch64-apple-darwin/release/libmy_ext.dylib"),
    };
    let params = derive_parameters(
        &artifact,
        &no_overrides(),
        "/w/target",
        "linux",
        "x86_64",
        "v1.4.2",
        "C_STRUCT_UNSTABLE",
    )
    .expect("derivation should succeed");
    assert_eq!(params.library_path, artifact.filename);
    assert_eq!(
        params.extension_path,
        "/w/target/aarch64-apple-darwin/release/my_ext.duckdb_extension"
    );
    assert_eq!(params.extension_version, "v0.3.1");
    assert_eq!(params.duckdb_platform, "osx_arm64");
    assert_eq!(params.duckdb_version, "v1.4.2");
    assert_eq!(params.abi_type, "C_STRUCT_UNSTABLE");
}

#[test]
fn parameter_overrides_win() {
    let artifact = ResolvedArtifact {
        package_name: String::from("my-ext"),
        package_version: String::from("0.3.1"),
        filename: String::from("/w/target/aarch64-apple-darwin/release/libmy_ext.dylib"),
    };
    let overrides = Overrides {
        extension_path: Some(String::from("/out/custom.duckdb_extension")),
        extension_version: Some(String::from("v9.9.9")),
        duckdb_platform: Some(String::from("linux_arm64")),
    };
    let params = derive_parameters(
        &artifact,
        &overrides,
        "/w/target",
        "linux",
        "x86_64",
        "v1.4.2",
        "C_STRUCT_UNSTABLE",
    )
    .expect("derivation should succeed");
    assert_eq!(params.extension_path, "/out/custom.duckdb_extension");
    assert_eq!(params.extension_version, "v9.9.9");
    assert_eq!(params.duckdb_platform, "linux_arm64");
}

#[test]
fn unsupported_triple_aborts_derivation() {
    let artifact = ResolvedArtifact {
        package_name: String::from("my-ext"),
        package_version: String::from("0.3.1"),
        filename: String::from("/w/target/riscv64gc-unknown-linux-gnu/release/libmy_ext.so"),
    };
    let derived = derive_parameters(
        &artifact,
        &no_overrides(),
        "/w/target",
        "linux",
        "x86_64",
        "v1.4.2",
        "C_STRUCT_UNSTABLE",
    );
    assert!(matches!(derived, Err(PackError::UnsupportedPlatform)));
}

#[test]
fn oversized_field_is_refused() {
    let artifact = ResolvedArtifact {
        package_name: String::from("my-ext"),
        package_version: String::from("0.3.1"),
        filename: String::from("/w/target/release/libmy_ext.so"),
    };
    let overrides = Overrides {
        extension_path: None,
        extension_version: Some(String::from("v0.3.1-with-a-build-tag-well-over-the-limit")),
        duckdb_platform: None,
    };
    let params = derive_parameters(
        &artifact,
        &overrides,
        "/w/target",
        "linux",
        "x86_64",
        "v1.4.2",
        "C_STRUCT_UNSTABLE",
    )
    .expect("derivation should succeed");
    assert_eq!(checked_footer(&params), None);
}
