//! The artifact resolver.
//!
//! A build run emits a line-oriented stream of structured records. Only the
//! compiler-artifact records matter: those whose target carries the
//! dynamic-library kind tag and whose package identity belongs to a known
//! workspace package yield artifacts to package. Lines that parse to no
//! recognized record and artifacts of unknown packages are dropped
//! silently; order is stream order and nothing is deduplicated.

use cargo_metadata::Message;
use vstd::prelude::*;
use vstd::string::StrSliceExecFns;
use vstd::string::StringExecFns;

use crate::text::str_eq;

verus! {

/// A compiler-artifact record of the build-event stream, reduced to the
/// parts the resolver reads.
pub struct BuildEvent {
    /// The opaque identity of the originating package.
    pub package_id: String,
    /// The kind tags of the compiled target, by their lowercase names.
    pub target_kinds: Vec<String>,
    /// The output files the record names.
    pub filenames: Vec<String>,
}

/// The mathematical content of a `BuildEvent`.
pub struct BuildEventModel {
    pub package_id: Seq<char>,
    pub target_kinds: Seq<Seq<char>>,
    pub filenames: Seq<Seq<char>>,
}

impl View for BuildEvent {
    type V = BuildEventModel;

    open spec fn view(&self) -> BuildEventModel {
        (BuildEventModel {
            package_id: self.package_id@,
            target_kinds: self.target_kinds.deep_view(),
            filenames: self.filenames.deep_view(),
        })
    }
}

impl DeepView for BuildEvent {
    type V = BuildEventModel;

    open spec fn deep_view(&self) -> BuildEventModel {
        self.view()
    }
}

/// A workspace package an artifact can be correlated to.
pub struct PackageDesc {
    /// The opaque identity the build events refer to.
    pub id: String,
    /// The package's name.
    pub name: String,
    /// The package's version string.
    pub version: String,
}

/// The mathematical content of a `PackageDesc`.
pub struct PackageDescModel {
    pub id: Seq<char>,
    pub name: Seq<char>,
    pub version: Seq<char>,
}

impl View for PackageDesc {
    type V = PackageDescModel;

    open spec fn view(&self) -> PackageDescModel {
        (PackageDescModel { id: self.id@, name: self.name@, version: self.version@ })
    }
}

impl DeepView for PackageDesc {
    type V = PackageDescModel;

    open spec fn deep_view(&self) -> PackageDescModel {
        self.view()
    }
}

/// A package as the manifest's dependency graph describes it.
pub struct PackageMeta {
    /// The opaque identity the build events refer to.
    pub id: String,
    /// The package's name.
    pub name: String,
    /// The package's version string.
    pub version: String,
    /// The kind tags of all targets the package produces.
    pub kinds: Vec<String>,
}

/// The mathematical content of a `PackageMeta`.
pub struct PackageMetaModel {
    pub id: Seq<char>,
    pub name: Seq<char>,
    pub version: Seq<char>,
    pub kinds: Seq<Seq<char>>,
}

impl View for PackageMeta {
    type V = PackageMetaModel;

    open spec fn view(&self) -> PackageMetaModel {
        (PackageMetaModel {
            id: self.id@,
            name: self.name@,
            version: self.version@,
            kinds: self.kinds.deep_view(),
        })
    }
}

impl DeepView for PackageMeta {
    type V = PackageMetaModel;

    open spec fn deep_view(&self) -> PackageMetaModel {
        self.view()
    }
}

/// One file requiring packaging: the package it came from and the file's
/// path.
pub struct ResolvedArtifact {
    /// The originating package's name.
    pub package_name: String,
    /// The originating package's version string.
    pub package_version: String,
    /// The artifact's path.
    pub filename: String,
}

/// The mathematical content of a `ResolvedArtifact`.
pub struct ResolvedArtifactModel {
    pub package_name: Seq<char>,
    pub package_version: Seq<char>,
    pub filename: Seq<char>,
}

impl View for ResolvedArtifact {
    type V = ResolvedArtifactModel;

    open spec fn view(&self) -> ResolvedArtifactModel {
        (ResolvedArtifactModel {
            package_name: self.package_name@,
            package_version: self.package_version@,
            filename: self.filename@,
        })
    }
}

impl DeepView for ResolvedArtifact {
    type V = ResolvedArtifactModel;

    open spec fn deep_view(&self) -> ResolvedArtifactModel {
        self.view()
    }
}

/// What one line of the build-event stream parses to: nothing for a line
/// that is no compiler-artifact record, otherwise the record's content.
pub uninterp spec fn artifact_event_of(line: Seq<char>) -> Option<BuildEventModel>;

/// Relies on `serde_json::from_str::<cargo_metadata::Message>`: what a
/// line parses to depends on its text alone. A line that is not a
/// compiler-artifact record (another record kind, or no recognized record
/// at all) yields nothing; one that is yields the package identity, the
/// target's kind tags by their lowercase names, and the output file paths.
#[verifier::external_body]
fn parse_artifact_line(line: &str) -> (r: Option<BuildEvent>)
    ensures
        r.deep_view() == artifact_event_of(line@),
{
    match serde_json::from_str::<Message>(line) {
        Ok(Message::CompilerArtifact(a)) => Some(BuildEvent {
            package_id: a.package_id.repr,
            target_kinds: a.target.kind.iter().map(|k| k.to_string()).collect(),
            filenames: a.filenames.iter().map(|f| f.to_string()).collect(),
        }),
        _ => None,
    }
}

/// One of the strings equals `s`.
pub open spec fn seq_contains_str(v: Seq<Seq<char>>, s: Seq<char>) -> bool {
    exists|i: int| 0 <= i < v.len() && v[i] == s
}

/// Whether one of the strings in `v` equals `s`.
pub fn contains_string(v: &Vec<String>, s: &str) -> (r: bool)
    ensures
        r == seq_contains_str(v.deep_view(), s@),
{
    let mut i: usize = 0;
    while i < v.len()
        invariant
            i <= v@.len(),
            forall|j: int| 0 <= j < i ==> v.deep_view()[j] != s@,
        decreases v@.len() - i,
    {
        if str_eq(v[i].as_str(), s) {
            proof {
                assert(v.deep_view()[i as int] == s@);
            }
            return true;
        }
        i = i + 1;
    }
    false
}

/// The first package whose identity is `id`.
pub open spec fn found_package(
    packages: Seq<PackageDescModel>,
    id: Seq<char>,
) -> Option<PackageDescModel>
    decreases packages.len(),
{
    if packages.len() == 0 {
        None
    } else if packages.first().id == id {
        Some(packages.first())
    } else {
        found_package(packages.drop_first(), id)
    }
}

/// Looks up the first package with the given identity, yielding its index.
pub fn find_package(packages: &Vec<PackageDesc>, id: &str) -> (r: Option<usize>)
    ensures
        match r {
            Some(i) => i < packages@.len() && found_package(packages.deep_view(), id@) == Some(
                packages.deep_view()[i as int],
            ),
            None => found_package(packages.deep_view(), id@) is None,
        },
{
    let ghost all = packages.deep_view();
    let mut i: usize = 0;
    proof {
        assert(all.skip(0) =~= all);
    }
    while i < packages.len()
        invariant
            i <= all.len(),
            all == packages.deep_view(),
            all.len() == packages@.len(),
            found_package(all, id@) == found_package(all.skip(i as int), id@),
        decreases all.len() - i,
    {
        proof {
            assert(all.skip(i as int).first() == all[i as int]);
            assert(all.skip(i as int).drop_first() =~= all.skip(i as int + 1));
        }
        if str_eq(packages[i].id.as_str(), id) {
            return Some(i);
        }
        i = i + 1;
    }
    proof {
        assert(all.skip(i as int) =~= Seq::<PackageDescModel>::empty());
    }
    None
}

/// The artifacts one stream line contributes: each output file of a
/// dynamic-library compiler-artifact record whose package is known.
pub open spec fn line_candidates(
    line: Seq<char>,
    packages: Seq<PackageDescModel>,
) -> Seq<ResolvedArtifactModel> {
    match artifact_event_of(line) {
        None => Seq::empty(),
        Some(e) => {
            if seq_contains_str(e.target_kinds, "cdylib"@) {
                match found_package(packages, e.package_id) {
                    None => Seq::empty(),
                    Some(p) => e.filenames.map_values(
                        |f: Seq<char>|
                            (ResolvedArtifactModel {
                                package_name: p.name,
                                package_version: p.version,
                                filename: f,
                            }),
                    ),
                }
            } else {
                Seq::empty()
            }
        },
    }
}

/// The artifacts a whole stream contributes, in stream order.
pub open spec fn stream_candidates(
    lines: Seq<Seq<char>>,
    packages: Seq<PackageDescModel>,
) -> Seq<ResolvedArtifactModel>
    decreases lines.len(),
{
    if lines.len() == 0 {
        Seq::empty()
    } else {
        stream_candidates(lines.drop_last(), packages) + line_candidates(lines.last(), packages)
    }
}

/// Filters a build-event stream down to the dynamic-library artifacts of
/// known packages, in stream order, one entry per output file.
pub fn collect_candidates(lines: &Vec<String>, packages: &Vec<PackageDesc>) -> (r: Vec<
    ResolvedArtifact,
>)
    ensures
        r.deep_view() == stream_candidates(lines.deep_view(), packages.deep_view()),
{
    let ghost stream = lines.deep_view();
    let ghost known = packages.deep_view();
    let mut out: Vec<ResolvedArtifact> = Vec::new();
    let mut i: usize = 0;
    proof {
        assert(stream.take(0) =~= Seq::<Seq<char>>::empty());
    }
    while i < lines.len()
        invariant
            i <= stream.len(),
            stream == lines.deep_view(),
            known == packages.deep_view(),
            stream.len() == lines@.len(),
            out.deep_view() == stream_candidates(stream.take(i as int), known),
        decreases stream.len() - i,
    {
        let ghost line_model = stream[i as int];
        match parse_artifact_line(lines[i].as_str()) {
            None => {},
            Some(event) => {
                if contains_string(&event.target_kinds, "cdylib") {
                    match find_package(packages, event.package_id.as_str()) {
                        None => {},
                        Some(p) => {
                            let ghost pkg = known[p as int];
                            let ghost contributed = line_candidates(line_model, known);
                            let ghost before = out.deep_view();
                            let mut j: usize = 0;
                            proof {
                                assert(contributed =~= event@.filenames.map_values(
                                    |f: Seq<char>|
                                        (ResolvedArtifactModel {
                                            package_name: pkg.name,
                                            package_version: pkg.version,
                                            filename: f,
                                        }),
                                ));
                                assert(before + contributed.take(0) =~= before);
                            }
                            while j < event.filenames.len()
                                invariant
                                    j <= event@.filenames.len(),
                                    contributed.len() == event@.filenames.len(),
                                    forall|k: int|
                                        0 <= k < contributed.len() ==> contributed[k]
                                            == (ResolvedArtifactModel {
                                            package_name: pkg.name,
                                            package_version: pkg.version,
                                            filename: event@.filenames[k],
                                        }),
                                    p < packages@.len(),
                                    pkg == known[p as int],
                                    known == packages.deep_view(),
                                    pkg.name == packages@[p as int].name@,
                                    pkg.version == packages@[p as int].version@,
                                    out.deep_view() == before + contributed.take(j as int),
                                decreases event@.filenames.len() - j,
                            {
                                let entry = ResolvedArtifact {
                                    package_name: packages[p].name.clone(),
                                    package_version: packages[p].version.clone(),
                                    filename: event.filenames[j].clone(),
                                };
                                proof {
                                    assert(event.filenames@[j as int]@ == event@.filenames[
                                        j as int
                                    ]);
                                    assert(entry.deep_view() == contributed[j as int]);
                                }
                                let ghost prior = out@;
                                let ghost prior_model = out.deep_view();
                                out.push(entry);
                                j = j + 1;
                                proof {
                                    let target = before + contributed.take(j as int);
                                    assert(prior_model == before + contributed.take(j as int - 1));
                                    assert(out@.len() == prior.len() + 1);
                                    assert(out@.last().deep_view() == contributed[j as int - 1]);
                                    assert(out.deep_view().len() == target.len());
                                    assert forall|k: int|
                                        0 <= k < out.deep_view().len() implies out.deep_view()[k]
                                        == target[k] by {
                                        if k < prior.len() {
                                            assert(out@[k] == prior[k]);
                                            assert(prior_model[k] == (before + contributed.take(
                                                j as int - 1,
                                            ))[k]);
                                        } else {
                                            assert(out@[k] == out@.last());
                                        }
                                    }
                                    assert(out.deep_view() =~= target);
                                }
                            }
                            proof {
                                assert(contributed.take(j as int) =~= contributed);
                            }
                        },
                    }
                }
            },
        }
        i = i + 1;
        proof {
            assert(stream.take(i as int).drop_last() =~= stream.take(i as int - 1));
            assert(stream.take(i as int).last() == line_model);
            assert(out.deep_view() =~= stream_candidates(stream.take(i as int), known));
        }
    }
    proof {
        assert(stream.take(i as int) =~= stream);
    }
    out
}

/// The path names the directory itself or something under it. Both paths
/// are taken as canonical: absolute, separated by `/`, with no trailing
/// separator on the directory.
pub open spec fn path_in_dir(path: Seq<char>, dir: Seq<char>) -> bool {
    path == dir || (path.len() > dir.len() && path.take(dir.len() as int) == dir && path[dir.len()
        as int] == '/')
}

/// Whether a canonical path lies inside a canonical directory.
pub fn in_target_directory(path: &str, dir: &str) -> (r: bool)
    ensures
        r == path_in_dir(path@, dir@),
{
    if str_eq(path, dir) {
        return true;
    }
    let n = path.unicode_len();
    let d = dir.unicode_len();
    if n <= d {
        return false;
    }
    let prefix = path.substring_char(0, d);
    str_eq(prefix, dir) && path.get_char(d) == '/'
}

/// The candidates whose file lies inside the target directory, in order.
pub open spec fn candidates_in_dir(
    candidates: Seq<ResolvedArtifactModel>,
    dir: Seq<char>,
) -> Seq<ResolvedArtifactModel>
    decreases candidates.len(),
{
    if candidates.len() == 0 {
        Seq::empty()
    } else {
        candidates_in_dir(candidates.drop_last(), dir) + (if path_in_dir(
            candidates.last().filename,
            dir,
        ) {
            seq![candidates.last()]
        } else {
            Seq::empty()
        })
    }
}

/// Keeps the candidates whose file lies inside the target directory.
pub fn filter_in_target(candidates: &Vec<ResolvedArtifact>, target_dir: &str) -> (r: Vec<
    ResolvedArtifact,
>)
    ensures
        r.deep_view() == candidates_in_dir(candidates.deep_view(), target_dir@),
{
    let ghost all = candidates.deep_view();
    let mut out: Vec<ResolvedArtifact> = Vec::new();
    let mut i: usize = 0;
    proof {
        assert(all.take(0) =~= Seq::<ResolvedArtifactModel>::empty());
    }
    while i < candidates.len()
        invariant
            i <= all.len(),
            all == candidates.deep_view(),
            all.len() == candidates@.len(),
            out.deep_view() == candidates_in_dir(all.take(i as int), target_dir@),
        decreases all.len() - i,
    {
        if in_target_directory(candidates[i].filename.as_str(), target_dir) {
            let entry = ResolvedArtifact {
                package_name: candidates[i].package_name.clone(),
                package_version: candidates[i].package_version.clone(),
                filename: candidates[i].filename.clone(),
            };
            proof {
                assert(entry.deep_view() == all[i as int]);
            }
            out.push(entry);
        }
        i = i + 1;
        proof {
            assert(all.take(i as int).drop_last() =~= all.take(i as int - 1));
            assert(all.take(i as int).last() == all[i as int - 1]);
            assert(out.deep_view() =~= candidates_in_dir(all.take(i as int), target_dir@));
        }
    }
    proof {
        assert(all.take(i as int) =~= all);
    }
    out
}

/// Resolves a build-event stream against the known packages: the
/// dynamic-library artifacts of known packages whose canonical output
/// paths lie inside the target directory, in stream order. The caller is
/// expected to hand in canonical paths.
pub fn resolve_artifacts(
    lines: &Vec<String>,
    packages: &Vec<PackageDesc>,
    target_dir: &str,
) -> (r: Vec<ResolvedArtifact>)
    ensures
        r.deep_view() == candidates_in_dir(
            stream_candidates(lines.deep_view(), packages.deep_view()),
            target_dir@,
        ),
{
    let candidates = collect_candidates(lines, packages);
    filter_in_target(&candidates, target_dir)
}

/// The first package named after the database engine, if any, determines
/// the default engine version: a `v` before its version string.
pub open spec fn detected_engine_version(packages: Seq<PackageMetaModel>) -> Option<Seq<char>>
    decreases packages.len(),
{
    if packages.len() == 0 {
        None
    } else if packages.first().name == "duckdb"@ || packages.first().name == "libduckdb-sys"@ {
        Some("v"@ + packages.first().version)
    } else {
        detected_engine_version(packages.drop_first(), )
    }
}

/// Detects the default database-engine version from the dependency graph:
/// the version of the first package named `duckdb` or `libduckdb-sys`,
/// prefixed with `v`.
pub fn detect_duckdb_version(packages: &Vec<PackageMeta>) -> (r: Option<String>)
    ensures
        r.deep_view() == detected_engine_version(packages.deep_view()),
{
    let ghost all = packages.deep_view();
    let mut i: usize = 0;
    proof {
        assert(all.skip(0) =~= all);
    }
    while i < packages.len()
        invariant
            i <= all.len(),
            all == packages.deep_view(),
            all.len() == packages@.len(),
            detected_engine_version(all) == detected_engine_version(all.skip(i as int)),
        decreases all.len() - i,
    {
        proof {
            assert(all.skip(i as int).first() == all[i as int]);
            assert(all.skip(i as int).drop_first() =~= all.skip(i as int + 1));
        }
        if str_eq(packages[i].name.as_str(), "duckdb") || str_eq(
            packages[i].name.as_str(),
            "libduckdb-sys",
        ) {
            let mut version = String::new();
            version.append("v");
            version.append(packages[i].version.as_str());
            proof {
                assert(version@ =~= "v"@ + all[i as int].version);
            }
            return Some(version);
        }
        i = i + 1;
    }
    proof {
        assert(all.skip(i as int) =~= Seq::<PackageMetaModel>::empty());
    }
    None
}

/// The packages that belong to the workspace and produce a
/// dynamic-library target, reduced to correlation entries, in order.
pub open spec fn workspace_library_packages(
    packages: Seq<PackageMetaModel>,
    members: Seq<Seq<char>>,
) -> Seq<PackageDescModel>
    decreases packages.len(),
{
    if packages.len() == 0 {
        Seq::empty()
    } else {
        workspace_library_packages(packages.drop_last(), members) + (if seq_contains_str(
            members,
            packages.last().id,
        ) && seq_contains_str(packages.last().kinds, "cdylib"@) {
            seq![
                (PackageDescModel {
                    id: packages.last().id,
                    name: packages.last().name,
                    version: packages.last().version,
                }),
            ]
        } else {
            Seq::empty()
        })
    }
}

/// Keeps the packages that are workspace members and produce a
/// dynamic-library target.
pub fn workspace_cdylib_packages(packages: &Vec<PackageMeta>, members: &Vec<String>) -> (r: Vec<
    PackageDesc,
>)
    ensures
        r.deep_view() == workspace_library_packages(packages.deep_view(), members.deep_view()),
{
    let ghost all = packages.deep_view();
    let ghost ids = members.deep_view();
    let mut out: Vec<PackageDesc> = Vec::new();
    let mut i: usize = 0;
    proof {
        assert(all.take(0) =~= Seq::<PackageMetaModel>::empty());
    }
    while i < packages.len()
        invariant
            i <= all.len(),
            all == packages.deep_view(),
            ids == members.deep_view(),
            all.len() == packages@.len(),
            out.deep_view() == workspace_library_packages(all.take(i as int), ids),
        decreases all.len() - i,
    {
        if contains_string(members, packages[i].id.as_str()) && contains_string(
            &packages[i].kinds,
            "cdylib",
        ) {
            let entry = PackageDesc {
                id: packages[i].id.clone(),
                name: packages[i].name.clone(),
                version: packages[i].version.clone(),
            };
            out.push(entry);
        }
        i = i + 1;
        proof {
            assert(all.take(i as int).drop_last() =~= all.take(i as int - 1));
            assert(all.take(i as int).last() == all[i as int - 1]);
            assert(out.deep_view() =~= workspace_library_packages(all.take(i as int), ids));
        }
    }
    proof {
        assert(all.take(i as int) =~= all);
    }
    out
}

} // verus!
