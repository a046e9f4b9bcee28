//! The packaging orchestrator.
//!
//! For each resolved artifact the orchestrator derives the packaging
//! parameters: the extension's output path, the extension version, the
//! platform identifier and the engine version, each taken from an explicit
//! override when one is given, from the artifact otherwise, and from a
//! computed default last. The caller then duplicates the artifact to the
//! output path and appends the footer built from these parameters.

use vstd::prelude::*;
use vstd::string::StrSliceExecFns;
use vstd::string::StringExecFns;
use vstd::utf8::encode_utf8;

use crate::events::ResolvedArtifact;
use crate::footer::footer;
use crate::footer::footer_bytes;
use crate::platform::TripleArch;
use crate::platform::TripleOs;
use crate::platform::TripleResolution;
use crate::platform::first_segment;
use crate::platform::first_segment_under;
use crate::platform::host_platform;
use crate::platform::host_platform_label;
use crate::platform::platform_label;
use crate::platform::segment_platform;
use crate::platform::triple_class_of;
use crate::text::dashes_replaced;
use crate::text::find_last;
use crate::text::last_index_of;
use crate::text::replace_dashes;

verus! {

/// A failure of parameter derivation.
#[derive(Clone, Copy, Debug, PartialEq, Eq, Structural)]
pub enum PackError {
    /// The artifact was built for a target triple whose operating system
    /// or architecture has no entry in the platform mapping. The caller
    /// treats this as fatal: there is no policy for unknown systems.
    UnsupportedPlatform,
    /// No database-engine version was given and none could be detected
    /// from the dependency graph.
    MissingDuckdbVersion,
}

/// Everything a footer write needs, fully resolved.
pub struct PackagingParameters {
    /// The artifact to duplicate.
    pub library_path: String,
    /// Where the packaged extension is written.
    pub extension_path: String,
    /// The extension's version string.
    pub extension_version: String,
    /// The normalized platform identifier.
    pub duckdb_platform: String,
    /// The engine version the extension is built for.
    pub duckdb_version: String,
    /// The ABI contract tag.
    pub abi_type: String,
}

/// The mathematical content of `PackagingParameters`.
pub struct PackagingParametersModel {
    pub library_path: Seq<char>,
    pub extension_path: Seq<char>,
    pub extension_version: Seq<char>,
    pub duckdb_platform: Seq<char>,
    pub duckdb_version: Seq<char>,
    pub abi_type: Seq<char>,
}

impl View for PackagingParameters {
    type V = PackagingParametersModel;

    open spec fn view(&self) -> PackagingParametersModel {
        (PackagingParametersModel {
            library_path: self.library_path@,
            extension_path: self.extension_path@,
            extension_version: self.extension_version@,
            duckdb_platform: self.duckdb_platform@,
            duckdb_version: self.duckdb_version@,
            abi_type: self.abi_type@,
        })
    }
}

/// The caller's explicit overrides; a field left out is derived.
pub struct Overrides {
    /// Overrides the derived extension output path.
    pub extension_path: Option<String>,
    /// Overrides the extension version taken from the package.
    pub extension_version: Option<String>,
    /// Overrides the platform derived from the triple or the host.
    pub duckdb_platform: Option<String>,
}

/// The mathematical content of `Overrides`.
pub struct OverridesModel {
    pub extension_path: Option<Seq<char>>,
    pub extension_version: Option<Seq<char>>,
    pub duckdb_platform: Option<Seq<char>>,
}

impl View for Overrides {
    type V = OverridesModel;

    open spec fn view(&self) -> OverridesModel {
        (OverridesModel {
            extension_path: self.extension_path.deep_view(),
            extension_version: self.extension_version.deep_view(),
            duckdb_platform: self.duckdb_platform.deep_view(),
        })
    }
}

/// The file stem of a name: what stands before the last dot, when a dot
/// stands after at least one character; otherwise the whole name.
pub open spec fn stem_of(name: Seq<char>) -> Seq<char> {
    if last_index_of(name, '.') > 0 {
        name.take(last_index_of(name, '.'))
    } else {
        name
    }
}

/// The derived output path: the artifact's directory, then the package
/// name with dashes replaced by underscores, then the fixed extension
/// suffix in place of the name's own.
pub open spec fn derived_extension_path(file: Seq<char>, package: Seq<char>) -> Seq<char> {
    file.take(last_index_of(file, '/') + 1) + stem_of(dashes_replaced(package))
        + ".duckdb_extension"@
}

/// Derives the extension output path from the artifact path and the
/// package name.
pub fn extension_output_path(filename: &str, package_name: &str) -> (r: String)
    ensures
        r@ == derived_extension_path(filename@, package_name@),
{
    let mut r = String::new();
    let n = filename.unicode_len();
    match find_last(filename, '/') {
        Some(i) => {
            proof {
                assert(i < n);
            }
            r.append(filename.substring_char(0, i + 1));
        },
        None => {},
    }
    let underscored = replace_dashes(package_name);
    let name = underscored.as_str();
    let stem_end: usize = match find_last(name, '.') {
        Some(d) => if d > 0 {
            d
        } else {
            name.unicode_len()
        },
        None => name.unicode_len(),
    };
    r.append(name.substring_char(0, stem_end));
    r.append(".duckdb_extension");
    proof {
        assert(r@ =~= derived_extension_path(filename@, package_name@));
    }
    r
}

/// What platform resolution yields under the precedence rule: an explicit
/// override wins over a value derived from the artifact path's triple
/// segment, which wins over the host default. Nothing is yielded exactly
/// when a triple parses but its system is outside the mapping: the fatal
/// case.
pub open spec fn platform_outcome(
    override_platform: Option<Seq<char>>,
    file: Seq<char>,
    target_dir: Seq<char>,
    host_os: Seq<char>,
    host_arch: Seq<char>,
) -> Option<Seq<char>> {
    match override_platform {
        Some(p) => Some(p),
        None => match first_segment_under(file, target_dir) {
            None => Some(host_platform_label(host_os, host_arch)),
            Some(segment) => match triple_class_of(segment) {
                None => Some(host_platform_label(host_os, host_arch)),
                Some((os, arch)) => {
                    if os != TripleOs::Other && arch != TripleArch::Other {
                        Some(platform_label(os, arch))
                    } else {
                        None
                    }
                },
            },
        },
    }
}

/// Precedence of platform resolution: an explicit override always wins,
/// whatever the artifact path holds; without one, a supported
/// triple-derived value wins over the host default; the host default
/// applies exactly when no triple parses out of the path.
pub proof fn lemma_platform_precedence(
    override_platform: Seq<char>,
    file: Seq<char>,
    target_dir: Seq<char>,
    host_os: Seq<char>,
    host_arch: Seq<char>,
)
    ensures
        platform_outcome(Some(override_platform), file, target_dir, host_os, host_arch) == Some(
            override_platform,
        ),
        first_segment_under(file, target_dir) matches Some(segment) ==> (triple_class_of(segment)
            matches Some(classes) ==> (classes.0 != TripleOs::Other && classes.1
            != TripleArch::Other ==> platform_outcome(None, file, target_dir, host_os, host_arch)
            == Some(platform_label(classes.0, classes.1)))),
        first_segment_under(file, target_dir) matches Some(segment) ==> (triple_class_of(segment)
            is None ==> platform_outcome(None, file, target_dir, host_os, host_arch) == Some(
            host_platform_label(host_os, host_arch),
        )),
        first_segment_under(file, target_dir) is None ==> platform_outcome(
            None,
            file,
            target_dir,
            host_os,
            host_arch,
        ) == Some(host_platform_label(host_os, host_arch)),
{
}

/// Resolves the platform identifier with override-over-triple-over-host
/// precedence; fails exactly on a parsed triple outside the mapping.
pub fn resolve_platform(
    override_platform: &Option<String>,
    filename: &str,
    target_dir: &str,
    host_os: &str,
    host_arch: &str,
) -> (r: Result<String, PackError>)
    ensures
        r is Ok <==> platform_outcome(
            override_platform.deep_view(),
            filename@,
            target_dir@,
            host_os@,
            host_arch@,
        ) is Some,
        r matches Ok(p) ==> p@ == platform_outcome(
            override_platform.deep_view(),
            filename@,
            target_dir@,
            host_os@,
            host_arch@,
        )->Some_0,
        r matches Err(e) ==> e == PackError::UnsupportedPlatform,
{
    match override_platform {
        Some(p) => Ok(p.clone()),
        None => match first_segment(filename, target_dir) {
            None => Ok(host_platform(host_os, host_arch)),
            Some(segment) => match segment_platform(segment.as_str()) {
                TripleResolution::Platform(p) => Ok(p),
                TripleResolution::Unsupported => Err(PackError::UnsupportedPlatform),
                TripleResolution::NoTriple => Ok(host_platform(host_os, host_arch)),
            },
        },
    }
}

/// Chooses the engine version: the explicit override, else the version
/// detected from the dependency graph, else a failure.
pub fn choose_duckdb_version(
    override_version: &Option<String>,
    detected: &Option<String>,
) -> (r: Result<String, PackError>)
    ensures
        override_version is Some ==> (r matches Ok(v) && v@ == override_version->0@),
        override_version is None && detected is Some ==> (r matches Ok(v) && v@ == detected->0@),
        override_version is None && detected is None ==> (r matches Err(e) && e
            == PackError::MissingDuckdbVersion),
{
    match override_version {
        Some(v) => Ok(v.clone()),
        None => match detected {
            Some(v) => Ok(v.clone()),
            None => Err(PackError::MissingDuckdbVersion),
        },
    }
}

/// Derives the full parameter set for one artifact. Fails exactly when
/// platform resolution hits a parsed triple outside the mapping.
pub fn derive_parameters(
    artifact: &ResolvedArtifact,
    overrides: &Overrides,
    target_dir: &str,
    host_os: &str,
    host_arch: &str,
    duckdb_version: &str,
    abi_type: &str,
) -> (r: Result<PackagingParameters, PackError>)
    ensures
        r is Ok <==> platform_outcome(
            overrides@.duckdb_platform,
            artifact@.filename,
            target_dir@,
            host_os@,
            host_arch@,
        ) is Some,
        r matches Err(e) ==> e == PackError::UnsupportedPlatform,
        r matches Ok(p) ==> {
            &&& p@.library_path == artifact@.filename
            &&& p@.extension_path == (match overrides@.extension_path {
                Some(e) => e,
                None => derived_extension_path(artifact@.filename, artifact@.package_name),
            })
            &&& p@.extension_version == (match overrides@.extension_version {
                Some(v) => v,
                None => "v"@ + artifact@.package_version,
            })
            &&& p@.duckdb_platform == platform_outcome(
                overrides@.duckdb_platform,
                artifact@.filename,
                target_dir@,
                host_os@,
                host_arch@,
            )->Some_0
            &&& p@.duckdb_version == duckdb_version@
            &&& p@.abi_type == abi_type@
        },
{
    let duckdb_platform = match resolve_platform(
        &overrides.duckdb_platform,
        artifact.filename.as_str(),
        target_dir,
        host_os,
        host_arch,
    ) {
        Ok(p) => p,
        Err(e) => {
            return Err(e);
        },
    };
    let extension_path = match &overrides.extension_path {
        Some(p) => p.clone(),
        None => extension_output_path(artifact.filename.as_str(), artifact.package_name.as_str()),
    };
    let extension_version = match &overrides.extension_version {
        Some(v) => v.clone(),
        None => {
            let mut v = String::new();
            v.append("v");
            v.append(artifact.package_version.as_str());
            proof {
                assert(v@ =~= "v"@ + artifact@.package_version);
            }
            v
        },
    };
    Ok(
        PackagingParameters {
            library_path: artifact.filename.clone(),
            extension_path,
            extension_version,
            duckdb_platform,
            duckdb_version: String::from_str(duckdb_version),
            abi_type: String::from_str(abi_type),
        },
    )
}

/// The string's encoding fits a 32-byte field slot.
pub open spec fn fits_slot(s: Seq<char>) -> bool {
    encode_utf8(s).len() <= 32
}

/// Builds the footer for a resolved parameter set, after checking that
/// every field fits its slot; yields nothing when one does not.
pub fn checked_footer(params: &PackagingParameters) -> (r: Option<Vec<u8>>)
    ensures
        r is Some <==> fits_slot(params@.abi_type) && fits_slot(params@.extension_version)
            && fits_slot(params@.duckdb_version) && fits_slot(params@.duckdb_platform),
        r matches Some(f) ==> f@ == footer_bytes(
            encode_utf8(params@.abi_type),
            encode_utf8(params@.extension_version),
            encode_utf8(params@.duckdb_version),
            encode_utf8(params@.duckdb_platform),
        ) && f@.len() == 534,
{
    let abi = params.abi_type.as_str();
    let version = params.extension_version.as_str();
    let engine = params.duckdb_version.as_str();
    let platform = params.duckdb_platform.as_str();
    if abi.as_bytes().len() <= 32 && version.as_bytes().len() <= 32 && engine.as_bytes().len()
        <= 32 && platform.as_bytes().len() <= 32 {
        Some(footer(abi, version, engine, platform))
    } else {
        None
    }
}

} // verus!
