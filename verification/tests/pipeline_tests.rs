//! One packaging run followed end to end at the byte level: discovery from
//! a build-event stream, parameter derivation, and the footer appended to
//! a duplicate of the library's bytes.

use duckdb_ext_tools::events::PackageMeta;
use duckdb_ext_tools::events::resolve_artifacts;
use duckdb_ext_tools::events::workspace_cdylib_packages;
use duckdb_ext_tools::footer::encode_field;
use duckdb_ext_tools::pack::Overrides;
use duckdb_ext_tools::pack::checked_footer;
use duckdb_ext_tools::pack::choose_duckdb_version;
use duckdb_ext_tools::pack::derive_parameters;

#[test]
fn one_package_end_to_end() {
    let metas = vec![PackageMeta {
        id: String::from("id-ext1"),
        name: String::from("ext1"),
        version: String::from("1.2.0"),
        kinds: vec![String::from("cdylib")],
    }];
    let members = vec![String::from("id-ext1")];
    let packages = workspace_cdylib_packages(&metas, &members);
    assert_eq!(packages.len(), 1);

    let line = format!(
        "{{\"reason\":\"compiler-artifact\",\"package_id\":\"id-ext1\",\"manifest_path\":\"/w/Cargo.toml\",\"target\":{{\"name\":\"ext1\",\"kind\":[\"cdylib\"],\"src_path\":\"/w/src/lib.rs\"}},\"profile\":{{\"opt_level\":\"3\",\"debug_assertions\":false,\"overflow_checks\":false,\"test\":false}},\"features\":[],\"filenames\":[\"/w/target/release/libext1.so\"],\"executable\":null,\"fresh\":false}}"
    );
    let lines = vec![line];
    let resolved = resolve_artifacts(&lines, &packages, "/w/target");
    assert_eq!(resolved.len(), 1);

    let engine_version = choose_duckdb_version(&Some(String::from("v1.4.2")), &None)
        .expect("the override settles the engine version");
    let params = derive_parameters(
        &resolved[0],
        &(Overrides { extension_path: None, extension_version: None, duckdb_platform: None }),
        "/w/target",
        "linux",
        "x86_64",
        engine_version.as_str(),
        "C_STRUCT_UNSTABLE",
    )
    .expect("derivation should succeed");
    assert_eq!(params.library_path, "/w/target/release/libext1.so");
    assert_eq!(params.extension_path, "/w/target/release/ext1.duckdb_extension");

    let library_bytes: Vec<u8> = b"\x7fELF-some-library-bytes".to_vec();
    let mut packaged = library_bytes.clone();
    let footer = checked_footer(&params).expect("every field fits its slot");
    packaged.extend_from_slice(&footer);

    assert_eq!(packaged.len(), library_bytes.len() + 534);
    assert_eq!(&packaged[..library_bytes.len()], &library_bytes[..]);
    let appended = &packaged[library_bytes.len()..];
    assert_eq!(&appended[118..150], &encode_field(b"C_STRUCT_UNSTABLE")[..]);
    assert_eq!(&appended[150..182], &encode_field(b"v1.2.0")[..]);
    assert_eq!(&appended[182..214], &encode_field(b"v1.4.2")[..]);
    assert_eq!(&appended[214..246], &encode_field(b"linux_amd64")[..]);
    assert_eq!(appended[246], b'4');
}
