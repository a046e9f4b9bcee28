use duckdb_ext_tools::pack::PackError;
use duckdb_ext_tools::pack::resolve_platform;
use duckdb_ext_tools::platform::TripleResolution;
use duckdb_ext_tools::platform::first_segment;
use duckdb_ext_tools::platform::host_platform;
use duckdb_ext_tools::platform::segment_platform;

#[test]
fn darwin_triple_maps_to_osx_arm64() {
    match segment_platform("aarch64-apple-darwin") {
        TripleResolution::Platform(p) => assert_eq!(p, "osx_arm64"),
        other => panic!("expected a platform, got {:?}", other),
    }
}

#[test]
fn linux_triple_maps_to_linux_amd64() {
    match segment_platform("x86_64-unknown-linux-gnu") {
        TripleResolution::Platform(p) => assert_eq!(p, "linux_amd64"),
        other => panic!("expected a platform, got {:?}", other),
    }
}

#[test]
fn windows_triple_maps_to_windows_amd64() {
    match segment_platform("x86_64-pc-windows-msvc") {
        TripleResolution::Platform(p) => assert_eq!(p, "windows_amd64"),
        other => panic!("expected a platform, got {:?}", other),
    }
}

#[test]
fn profile_directory_is_no_triple() {
    assert!(matches!(segment_platform("debug"), TripleResolution::NoTriple));
    assert!(matches!(segment_platform("release"), TripleResolution::NoTriple));
}

#[test]
fn unsupported_system_is_fatal() {
    assert!(matches!(
        segment_platform("riscv64gc-unknown-linux-gnu"),
        TripleResolution::Unsupported
    ));
}

#[test]
fn host_mapping_respells_known_names() {
    assert_eq!(host_platform("macos", "aarch64"), "osx_arm64");
    assert_eq!(host_platform("linux", "x86_64"), "linux_amd64");
    assert_eq!(host_platform("windows", "x86"), "windows_amd");
}

#[test]
fn host_mapping_passes_unknown_names_through() {
    assert_eq!(host_platform("freebsd", "sparc64"), "freebsd_sparc64");
}

#[test]
fn first_segment_reads_the_target_subdirectory() {
    let segment = first_segment("/w/target/aarch64-apple-darwin/release/libfoo.so", "/w/target");
    assert_eq!(segment.as_deref(), Some("aarch64-apple-darwin"));
    assert_eq!(first_segment("/elsewhere/release/libfoo.so", "/w/target"), None);
}

#[test]
fn override_wins_over_triple() {
    let overridden = Some(String::from("linux_arm64"));
    let resolved = resolve_platform(
        &overridden,
        "/w/target/aarch64-apple-darwin/release/libfoo.so",
        "/w/target",
        "linux",
        "x86_64",
    );
    assert_eq!(resolved, Ok(String::from("linux_arm64")));
}

#[test]
fn triple_wins_over_host_default() {
    let resolved = resolve_platform(
        &None,
        "/w/target/aarch64-apple-darwin/release/libfoo.so",
        "/w/target",
        "linux",
        "x86_64",
    );
    assert_eq!(resolved, Ok(String::from("osx_arm64")));
}

#[test]
fn host_default_applies_without_a_triple() {
    let resolved = resolve_platform(
        &None,
        "/w/target/release/libfoo.so",
        "/w/target",
        "macos",
        "aarch64",
    );
    assert_eq!(resolved, Ok(String::from("osx_arm64")));
}

#[test]
fn unsupported_triple_fails_resolution() {
    let resolved = resolve_platform(
        &None,
        "/w/target/riscv64gc-unknown-linux-gnu/release/libfoo.so",
        "/w/target",
        "linux",
        "x86_64",
    );
    assert_eq!(resolved, Err(PackError::UnsupportedPlatform));
}
