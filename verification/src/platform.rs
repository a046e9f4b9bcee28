//! Platform identifiers.
//!
//! An extension carries a normalized `{os}_{arch}` identifier. It is derived
//! from the target-triple path segment of a build artifact when one is
//! present, and otherwise from the host's own operating-system and
//! architecture names. A triple whose operating system or architecture has
//! no entry in the mapping is a fatal condition for the caller; the host
//! fallback, having no triple to blame, passes unknown names through.

use target_lexicon::Architecture;
use target_lexicon::OperatingSystem;
use target_lexicon::Triple;
use vstd::prelude::*;
use vstd::string::StrSliceExecFns;
use vstd::string::StringExecFns;

use crate::text::str_eq;

verus! {

/// The operating-system class of a parsed target triple.
#[derive(Clone, Copy, Debug, PartialEq, Eq, Structural)]
pub enum TripleOs {
    Linux,
    MacOs,
    Windows,
    Other,
}

/// The architecture class of a parsed target triple.
#[derive(Clone, Copy, Debug, PartialEq, Eq, Structural)]
pub enum TripleArch {
    X86_64,
    Aarch64,
    X86_32,
    Arm,
    Other,
}

/// What parsing a candidate target-triple string yields: nothing when the
/// string is not a triple, otherwise the triple's operating-system and
/// architecture classes.
pub uninterp spec fn triple_class_of(s: Seq<char>) -> Option<(TripleOs, TripleArch)>;

/// Relies on `target_lexicon::Triple::from_str`: parsing a triple depends
/// on the string alone, and an unparsable string is an error. The Darwin
/// and macOS operating systems are one class here, as both identify the
/// same platform family.
#[verifier::external_body]
fn classify_triple(s: &str) -> (r: Option<(TripleOs, TripleArch)>)
    ensures
        r == triple_class_of(s@),
{
    let triple = match s.parse::<Triple>() { Ok(t) => t, Err(_) => return None };
    let os = match triple.operating_system {
        OperatingSystem::Linux => TripleOs::Linux,
        OperatingSystem::Darwin(_) | OperatingSystem::MacOSX(_) => TripleOs::MacOs,
        OperatingSystem::Windows => TripleOs::Windows,
        _ => TripleOs::Other,
    };
    let arch = match triple.architecture {
        Architecture::X86_64 => TripleArch::X86_64,
        Architecture::Aarch64(_) => TripleArch::Aarch64,
        Architecture::X86_32(_) => TripleArch::X86_32,
        Architecture::Arm(_) => TripleArch::Arm,
        _ => TripleArch::Other,
    };
    Some((os, arch))
}

/// The identifier name of a supported operating-system class.
pub open spec fn os_label(os: TripleOs) -> Seq<char> {
    match os {
        TripleOs::Linux => "linux"@,
        TripleOs::MacOs => "osx"@,
        TripleOs::Windows => "windows"@,
        TripleOs::Other => Seq::empty(),
    }
}

/// The identifier name of a supported architecture class.
pub open spec fn arch_label(arch: TripleArch) -> Seq<char> {
    match arch {
        TripleArch::X86_64 => "amd64"@,
        TripleArch::Aarch64 => "arm64"@,
        TripleArch::X86_32 => "amd"@,
        TripleArch::Arm => "arm"@,
        TripleArch::Other => Seq::empty(),
    }
}

/// The `{os}_{arch}` identifier of a supported class pair.
pub open spec fn platform_label(os: TripleOs, arch: TripleArch) -> Seq<char> {
    os_label(os) + "_"@ + arch_label(arch)
}

/// Builds the platform identifier for a class pair; yields nothing when
/// either class is outside the supported mapping.
pub fn platform_for(os: TripleOs, arch: TripleArch) -> (r: Option<String>)
    ensures
        os != TripleOs::Other && arch != TripleArch::Other ==> r is Some && r->Some_0@
            == platform_label(os, arch),
        os == TripleOs::Other || arch == TripleArch::Other ==> r is None,
{
    let os_name = match os {
        TripleOs::Linux => "linux",
        TripleOs::MacOs => "osx",
        TripleOs::Windows => "windows",
        TripleOs::Other => {
            return None;
        },
    };
    let arch_name = match arch {
        TripleArch::X86_64 => "amd64",
        TripleArch::Aarch64 => "arm64",
        TripleArch::X86_32 => "amd",
        TripleArch::Arm => "arm",
        TripleArch::Other => {
            return None;
        },
    };
    let mut r = String::new();
    r.append(os_name);
    r.append("_");
    r.append(arch_name);
    proof {
        assert(r@ =~= platform_label(os, arch));
    }
    Some(r)
}

/// What resolving a platform from an artifact path yields: a triple segment
/// may be absent, carry an unsupported system, or map to an identifier.
#[derive(Debug)]
pub enum TripleResolution {
    /// The path holds no parsable target triple; the host default applies.
    NoTriple,
    /// The path holds a triple whose operating system or architecture has
    /// no entry in the mapping: a fatal condition.
    Unsupported,
    /// The platform identifier derived from the triple.
    Platform(String),
}

/// Resolves a platform identifier from one candidate triple segment.
pub fn segment_platform(segment: &str) -> (r: TripleResolution)
    ensures
        match triple_class_of(segment@) {
            Some((os, arch)) => {
                if os != TripleOs::Other && arch != TripleArch::Other {
                    r matches TripleResolution::Platform(p) && p@ == platform_label(os, arch)
                } else {
                    r is Unsupported
                }
            },
            None => r is NoTriple,
        },
{
    match classify_triple(segment) {
        None => TripleResolution::NoTriple,
        Some((os, arch)) => match platform_for(os, arch) {
            Some(p) => TripleResolution::Platform(p),
            None => TripleResolution::Unsupported,
        },
    }
}

/// The host operating-system name normalized to the identifier scheme:
/// only the macOS spelling differs; unknown names pass through.
pub open spec fn host_os_label(os: Seq<char>) -> Seq<char> {
    if os == "macos"@ {
        "osx"@
    } else {
        os
    }
}

/// The host architecture name normalized to the identifier scheme;
/// unknown names pass through.
pub open spec fn host_arch_label(arch: Seq<char>) -> Seq<char> {
    if arch == "x86"@ {
        "amd"@
    } else if arch == "x86_64"@ {
        "amd64"@
    } else if arch == "aarch64"@ {
        "arm64"@
    } else {
        arch
    }
}

/// The `{os}_{arch}` identifier of the host.
pub open spec fn host_platform_label(os: Seq<char>, arch: Seq<char>) -> Seq<char> {
    host_os_label(os) + "_"@ + host_arch_label(arch)
}

/// Builds the default platform identifier from the host's own
/// operating-system and architecture names.
pub fn host_platform(host_os: &str, host_arch: &str) -> (r: String)
    ensures
        r@ == host_platform_label(host_os@, host_arch@),
{
    let mut r = String::new();
    if str_eq(host_os, "macos") {
        r.append("osx");
    } else {
        r.append(host_os);
    }
    r.append("_");
    if str_eq(host_arch, "x86") {
        r.append("amd");
    } else if str_eq(host_arch, "x86_64") {
        r.append("amd64");
    } else if str_eq(host_arch, "aarch64") {
        r.append("arm64");
    } else {
        r.append(host_arch);
    }
    proof {
        assert(r@ =~= host_platform_label(host_os@, host_arch@));
    }
    r
}

/// The first path segment of `path` under the directory `dir`: what stands
/// between the separator after `dir` and the next separator. Nothing when
/// `path` does not lie under `dir`.
pub open spec fn first_segment_under(path: Seq<char>, dir: Seq<char>) -> Option<Seq<char>> {
    if path.len() > dir.len() + 1 && path.take(dir.len() as int) == dir && path[dir.len() as int]
        == '/' {
        Some(segment_prefix(path.skip(dir.len() as int + 1)))
    } else {
        None
    }
}

/// The prefix of `s` up to its first separator, or all of `s`.
pub open spec fn segment_prefix(s: Seq<char>) -> Seq<char>
    decreases s.len(),
{
    if s.len() == 0 {
        s
    } else if s.first() == '/' {
        Seq::empty()
    } else {
        seq![s.first()] + segment_prefix(s.drop_first())
    }
}

/// Takes the first path segment of `path` under the directory `dir`.
pub fn first_segment(path: &str, dir: &str) -> (r: Option<String>)
    ensures
        r is Some ==> first_segment_under(path@, dir@) == Some(r->Some_0@),
        r is None ==> first_segment_under(path@, dir@) is None,
{
    let n = path.unicode_len();
    let d = dir.unicode_len();
    if d >= n {
        return None;
    }
    if n <= d + 1 {
        return None;
    }
    let prefix = path.substring_char(0, d);
    if !str_eq(prefix, dir) {
        return None;
    }
    if path.get_char(d) != '/' {
        return None;
    }
    let mut i: usize = d + 1;
    while i < n && path.get_char(i) != '/'
        invariant
            d + 1 <= i <= n,
            n == path@.len(),
            d == dir@.len(),
            forall|j: int| d + 1 <= j < i ==> path@[j] != '/',
        decreases n - i,
    {
        i = i + 1;
    }
    let segment = String::from_str(path.substring_char(d + 1, i));
    proof {
        let rest = path@.skip(d as int + 1);
        lemma_segment_prefix_scan(rest, i as int - d as int - 1);
        assert(segment@ =~= rest.take(i as int - d as int - 1));
    }
    Some(segment)
}

/// When the first `k` characters of `s` hold no separator and either `k`
/// is all of `s` or a separator follows, the segment prefix is exactly
/// those `k` characters.
proof fn lemma_segment_prefix_scan(s: Seq<char>, k: int)
    requires
        0 <= k <= s.len(),
        forall|j: int| 0 <= j < k ==> s[j] != '/',
        k < s.len() ==> s[k] == '/',
    ensures
        segment_prefix(s) == s.take(k),
    decreases k,
{
    if k == 0 {
        if s.len() == 0 {
            assert(s.take(0) =~= s);
        } else {
            assert(s.take(0) =~= Seq::<char>::empty());
        }
    } else {
        let rest = s.drop_first();
        lemma_segment_prefix_scan(rest, k - 1);
        assert(seq![s.first()] + rest.take(k - 1) =~= s.take(k));
    }
}

} // verus!
