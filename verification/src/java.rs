//! The Java runtime dependency: version threshold routing, the on-disk
//! layout of each runtime family, its download locations, and its
//! health verification.

use vstd::prelude::*;
use crate::text::{
    parse_u32, parse_u32_spec, split_once_char, split_once_spec, path_join, seq_contains_str,
    contains_string,
};
use crate::platform::Platform;
use crate::store::{DepState, dep_installed, healthy, verify_post};

verus! {

/// The three supported Java runtime families.
#[derive(Debug, Clone, Copy, PartialEq, Eq, Structural)]
pub enum JavaVersion {
    Java8,
    Java17,
    Java21,
}

/// The numeric value of one dotted-version component; zero where the
/// digits do not parse.
pub open spec fn component_val(s: Seq<char>) -> u32 {
    match parse_u32_spec(s) {
        Some(n) => n,
        None => 0,
    }
}

/// The numeric (major, minor, patch) triple of a dotted version
/// string; components past the third are ignored, missing or
/// unparsable ones read as zero.
pub open spec fn version_parts(v: Seq<char>) -> (u32, u32, u32) {
    match split_once_spec(v, '.') {
        None => (component_val(v), 0, 0),
        Some(p) => match split_once_spec(p.1, '.') {
            None => (component_val(p.0), component_val(p.1), 0),
            Some(q) => (
                component_val(p.0),
                component_val(q.0),
                match split_once_spec(q.1, '.') {
                    None => component_val(q.1),
                    Some(r) => component_val(r.0),
                },
            ),
        },
    }
}

/// The version lies strictly before the threshold, comparing the
/// numeric triples componentwise.
pub open spec fn version_before(v: Seq<char>, maj: u32, min: u32, pat: u32) -> bool {
    let t = version_parts(v);
    t.0 < maj || (t.0 == maj && (t.1 < min || (t.1 == min && t.2 < pat)))
}

/// The family an ordered threshold table assigns to a Minecraft
/// version, compared as a numeric dotted version.
pub open spec fn required_java(v: Seq<char>) -> JavaVersion {
    if version_before(v, 1, 13, 0) {
        JavaVersion::Java8
    } else if version_before(v, 1, 18, 0) {
        JavaVersion::Java8
    } else if version_before(v, 1, 20, 5) {
        JavaVersion::Java17
    } else {
        JavaVersion::Java21
    }
}

fn component_u32(s: &str) -> (r: u32)
    ensures
        r == component_val(s@),
{
    match parse_u32(s) {
        Some(n) => n,
        None => 0,
    }
}

fn version_triple(v: &str) -> (r: (u32, u32, u32))
    ensures
        r == version_parts(v@),
{
    match split_once_char(v, '.') {
        None => (component_u32(v), 0, 0),
        Some((maj, rest)) => {
            let major = component_u32(maj.as_str());
            match split_once_char(rest.as_str(), '.') {
                None => (major, component_u32(rest.as_str()), 0),
                Some((min, rest2)) => {
                    let minor = component_u32(min.as_str());
                    let patch = match split_once_char(rest2.as_str(), '.') {
                        None => component_u32(rest2.as_str()),
                        Some((pat, _)) => component_u32(pat.as_str()),
                    };
                    (major, minor, patch)
                },
            }
        },
    }
}

fn version_lt(v: &str, maj: u32, min: u32, pat: u32) -> (r: bool)
    ensures
        r == version_before(v@, maj, min, pat),
{
    let t = version_triple(v);
    t.0 < maj || (t.0 == maj && (t.1 < min || (t.1 == min && t.2 < pat)))
}

/// Picks the Java family a Minecraft version needs, comparing versions
/// numerically by their dotted components: releases before 1.18 run on
/// Java 8, releases before 1.20.5 on Java 17, and everything newer on
/// Java 21.
pub fn require_java(mc_version: &str) -> (r: JavaVersion)
    ensures
        r == required_java(mc_version@),
{
    if version_lt(mc_version, 1, 13, 0) {
        JavaVersion::Java8
    } else if version_lt(mc_version, 1, 18, 0) {
        JavaVersion::Java8
    } else if version_lt(mc_version, 1, 20, 5) {
        JavaVersion::Java17
    } else {
        JavaVersion::Java21
    }
}

/// The name of the version-scoped directory of a family under the
/// Java base directory.
pub open spec fn java_dir_name(v: JavaVersion) -> Seq<char> {
    match v {
        JavaVersion::Java8 => "8"@,
        JavaVersion::Java17 => "17"@,
        JavaVersion::Java21 => "21"@,
    }
}

/// The version-scoped install directory of a family.
pub open spec fn java_install_dir_of(base: Seq<char>, v: JavaVersion) -> Seq<char> {
    base + "/"@ + java_dir_name(v)
}

/// Computes the install directory of a Java family.
pub fn java_install_dir(base: &str, version: JavaVersion) -> (r: String)
    ensures
        r@ == java_install_dir_of(base@, version),
{
    match version {
        JavaVersion::Java8 => path_join(base, "8"),
        JavaVersion::Java17 => path_join(base, "17"),
        JavaVersion::Java21 => path_join(base, "21"),
    }
}

/// The path of the runnable binary, relative to the install directory.
pub open spec fn java_bin_rel(p: Platform) -> Seq<char> {
    match p {
        Platform::Windows => "bin/java.exe"@,
        Platform::MacX64 => "Contents/Home/bin/java"@,
        Platform::MacArm => "Contents/Home/bin/java"@,
        Platform::LinuxX64 => "bin/java"@,
    }
}

/// Computes the path of the Java binary of a family.
pub fn java_binary(base: &str, version: JavaVersion, platform: Platform) -> (r: String)
    ensures
        r@ == java_install_dir_of(base@, version) + "/"@ + java_bin_rel(platform),
{
    let dir = java_install_dir(base, version);
    let rel = match platform {
        Platform::Windows => "bin/java.exe",
        Platform::MacX64 => "Contents/Home/bin/java",
        Platform::MacArm => "Contents/Home/bin/java",
        Platform::LinuxX64 => "bin/java",
    };
    path_join(dir.as_str(), rel)
}

/// The install-in-progress marker of a family.
pub open spec fn java_marker_of(base: Seq<char>, v: JavaVersion) -> Seq<char> {
    java_install_dir_of(base, v) + "/"@ + ".installing"@
}

/// Computes the path of the install-in-progress marker of a family.
pub fn installing_marker(base: &str, version: JavaVersion) -> (r: String)
    ensures
        r@ == java_marker_of(base@, version),
{
    let dir = java_install_dir(base, version);
    path_join(dir.as_str(), ".installing")
}

/// The transient download location of the Java archive beside the
/// version directories: a zip on Windows, a gzipped tar elsewhere.
pub open spec fn java_archive_of(base: Seq<char>, p: Platform) -> Seq<char> {
    if p == Platform::Windows {
        base + "/"@ + "java.zip"@
    } else {
        base + "/"@ + "java.tar.gz"@
    }
}

/// Computes the path the downloaded Java archive is persisted to.
pub fn java_archive_path(base: &str, platform: Platform) -> (r: String)
    ensures
        r@ == java_archive_of(base@, platform),
{
    match platform {
        Platform::Windows => path_join(base, "java.zip"),
        _ => path_join(base, "java.tar.gz"),
    }
}

/// The platform- and family-specific download location of a Java
/// runtime archive.
pub open spec fn java_url_of(v: JavaVersion, p: Platform) -> Seq<char> {
    let major = match v {
        JavaVersion::Java8 => "8"@,
        JavaVersion::Java17 => "17"@,
        JavaVersion::Java21 => "21"@,
    };
    let os_arch = match p {
        Platform::Windows => "windows/x64"@,
        Platform::MacX64 => "mac/x64"@,
        Platform::MacArm => "mac/aarch64"@,
        Platform::LinuxX64 => "linux/x64"@,
    };
    "https://api.adoptium.net/v3/binary/latest/"@ + major + "/ga/"@ + os_arch
        + "/jre/hotspot/normal/eclipse"@
}

/// Computes the download location of a Java runtime archive.
pub fn java_download_url(version: JavaVersion, platform: Platform) -> (r: String)
    ensures
        r@ == java_url_of(version, platform),
{
    let mut s = String::from_str("https://api.adoptium.net/v3/binary/latest/");
    let major = match version {
        JavaVersion::Java8 => "8",
        JavaVersion::Java17 => "17",
        JavaVersion::Java21 => "21",
    };
    s.append(major);
    s.append("/ga/");
    let os_arch = match platform {
        Platform::Windows => "windows/x64",
        Platform::MacX64 => "mac/x64",
        Platform::MacArm => "mac/aarch64",
        Platform::LinuxX64 => "linux/x64",
    };
    s.append(os_arch);
    s.append("/jre/hotspot/normal/eclipse");
    s
}

/// The subpaths, relative to the install directory, that a healthy
/// Java runtime must contain: its binaries, its libraries and its
/// release descriptor, below the platform's home prefix.
pub open spec fn java_required_subpaths(p: Platform) -> Seq<Seq<char>> {
    match p {
        Platform::MacX64 => seq![
            "Contents/Home/bin"@,
            "Contents/Home/lib"@,
            "Contents/Home/release"@,
        ],
        Platform::MacArm => seq![
            "Contents/Home/bin"@,
            "Contents/Home/lib"@,
            "Contents/Home/release"@,
        ],
        _ => seq!["bin"@, "lib"@, "release"@],
    }
}

/// All required subpaths of the platform occur in `present`.
pub open spec fn java_structure_present(p: Platform, present: Seq<Seq<char>>) -> bool {
    forall|k: int|
        0 <= k < java_required_subpaths(p).len() ==> seq_contains_str(
            present,
            #[trigger] java_required_subpaths(p)[k],
        )
}

/// The structural check of a Java install: whether every required
/// subpath is among `present`, the subpaths (relative to the install
/// directory) that actually exist on disk.
pub fn java_structure_ok(platform: Platform, present: &Vec<String>) -> (r: bool)
    ensures
        r == java_structure_present(platform, present.deep_view()),
{
    let (a, b, c) = match platform {
        Platform::MacX64 => ("Contents/Home/bin", "Contents/Home/lib", "Contents/Home/release"),
        Platform::MacArm => ("Contents/Home/bin", "Contents/Home/lib", "Contents/Home/release"),
        _ => ("bin", "lib", "release"),
    };
    let r = contains_string(present, a) && contains_string(present, b) && contains_string(
        present,
        c,
    );
    proof {
        assert(java_required_subpaths(platform)[0] == a@);
        assert(java_required_subpaths(platform)[1] == b@);
        assert(java_required_subpaths(platform)[2] == c@);
        if r {
            assert forall|k: int|
                0 <= k < java_required_subpaths(platform).len() implies seq_contains_str(
                present.deep_view(),
                #[trigger] java_required_subpaths(platform)[k],
            ) by {
                if k == 0 {
                } else if k == 1 {
                } else {
                    assert(k == 2);
                }
            }
        }
    }
    r
}

/// The health verifier of a Java family: reports whether the runtime
/// is installed and destructively purges its store on any failed
/// check, so a later install starts clean.
pub fn java_installed(st: &mut DepState) -> (r: bool)
    ensures
        r == healthy(*old(st)),
        *final(st) == verify_post(*old(st)),
{
    dep_installed(st)
}

} // verus!
