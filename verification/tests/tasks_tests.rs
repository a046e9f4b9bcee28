use duckdb_ext_tools::tasks::TaskKind;
use duckdb_ext_tools::tasks::build_arguments;
use duckdb_ext_tools::tasks::route_task;
use duckdb_ext_tools::tasks::select_arguments;

fn strings(items: &[&str]) -> Vec<String> {
    items.iter().map(|s| String::from(*s)).collect()
}

#[test]
fn launcher_entries_are_dropped() {
    let selected = select_arguments(&strings(&["/usr/bin/cargo", "duckdb-ext-build", "--quiet"]));
    assert_eq!(selected, strings(&["duckdb-ext-build", "--quiet"]));
}

#[test]
fn direct_invocation_is_kept_whole() {
    let selected = select_arguments(&strings(&["/usr/bin/duckdb-ext-pack", "-q"]));
    assert_eq!(selected, strings(&["/usr/bin/duckdb-ext-pack", "-q"]));
}

#[test]
fn build_subcommand_routes_to_build() {
    assert_eq!(route_task(&strings(&["cargo-duckdb-ext-build"])), TaskKind::Build);
}

#[test]
fn pack_subcommand_routes_to_pack() {
    assert_eq!(route_task(&strings(&["/usr/bin/duckdb-ext-pack", "-q"])), TaskKind::Pack);
}

#[test]
fn anything_else_is_unsupported() {
    assert_eq!(route_task(&strings(&["cargo"])), TaskKind::Unsupported);
    assert_eq!(route_task(&strings(&[])), TaskKind::Unsupported);
}

#[test]
fn build_invocation_arguments() {
    let arguments = build_arguments(&strings(&["--release", "--features", "loadable"]));
    assert_eq!(
        arguments,
        strings(&["build", "--message-format=json", "--release", "--features", "loadable"])
    );
}
