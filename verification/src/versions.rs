//! Which mod loaders support a given Minecraft version: the forge
//! support threshold, and the extraction of supported versions from
//! the forge maven metadata listing.

use vstd::prelude::*;
use crate::text::{
    contains_string, has_prefix, has_suffix, lines_of, parse_u32, parse_u32_spec,
    seq_contains_str, split_lines, split_once_char, split_once_spec, str_eq, str_ends_with,
    str_starts_with, str_trim, trim_spec,
};

verus! {

/// The major and minor number of a version string: the digits before
/// the first dot, and between the first and second dot (or to the end
/// when there is no second dot); nothing where the digits do not parse.
pub open spec fn version_major_minor(v: Seq<char>) -> (Option<u32>, Option<u32>) {
    match split_once_spec(v, '.') {
        None => (parse_u32_spec(v), None),
        Some(p) => (
            parse_u32_spec(p.0),
            match split_once_spec(p.1, '.') {
                None => parse_u32_spec(p.1),
                Some(q) => parse_u32_spec(q.0),
            },
        ),
    }
}

/// Forge automation works from 1.8 on; 1.7.10 is grandfathered in,
/// and any major release above 1 counts as supported.
pub open spec fn forge_supported(v: Seq<char>) -> bool {
    if v == "1.7.10"@ {
        true
    } else {
        let mm = version_major_minor(v);
        match mm.0 {
            Some(ma) => if ma == 1 {
                match mm.1 {
                    Some(mi) => mi >= 8,
                    None => false,
                }
            } else {
                ma > 1
            },
            None => false,
        }
    }
}

/// Whether forge servers can be automated for a Minecraft version:
/// 1.8 and newer, plus 1.7.10.
pub fn is_supported_forge_mc(version: &str) -> (r: bool)
    ensures
        r == forge_supported(version@),
{
    if str_eq(version, "1.7.10") {
        return true;
    }
    let major: Option<u32>;
    let minor: Option<u32>;
    match split_once_char(version, '.') {
        None => {
            major = parse_u32(version);
            minor = None;
        },
        Some((ma, rest)) => {
            major = parse_u32(ma.as_str());
            match split_once_char(rest.as_str(), '.') {
                None => {
                    minor = parse_u32(rest.as_str());
                },
                Some((mi, _)) => {
                    minor = parse_u32(mi.as_str());
                },
            }
        },
    }
    match major {
        Some(ma) => {
            if ma == 1 {
                match minor {
                    Some(mi) => mi >= 8,
                    None => false,
                }
            } else {
                ma > 1
            }
        },
        None => false,
    }
}

/// The supported Minecraft version a metadata line contributes: the
/// part before the first dash inside a trimmed `<version>` element,
/// when forge supports it.
pub open spec fn forge_line_version(line: Seq<char>) -> Option<Seq<char>> {
    let t = trim_spec(line);
    if has_prefix(t, "<version>"@) && has_suffix(t, "</version>"@) && t.len() >= 19 {
        let inner = t.subrange(9, t.len() - 10);
        let mc = match split_once_spec(inner, '-') {
            None => inner,
            Some(p) => p.0,
        };
        if forge_supported(mc) {
            Some(mc)
        } else {
            None
        }
    } else {
        None
    }
}

/// The distinct supported Minecraft versions the metadata lines list,
/// in order of first occurrence.
pub open spec fn forge_versions_of(ls: Seq<Seq<char>>) -> Seq<Seq<char>>
    decreases ls.len(),
{
    if ls.len() == 0 {
        Seq::empty()
    } else {
        let rest = forge_versions_of(ls.drop_last());
        match forge_line_version(ls.last()) {
            None => rest,
            Some(mc) => if seq_contains_str(rest, mc) {
                rest
            } else {
                rest.push(mc)
            },
        }
    }
}

/// Extracts from the forge maven metadata text the distinct Minecraft
/// versions with a forge build that can be automated, in order of
/// first occurrence.
pub fn forge_versions_from_metadata(text: &str) -> (r: Vec<String>)
    ensures
        r.deep_view() == forge_versions_of(lines_of(text@)),
{
    let lines = split_lines(text);
    let ghost ls = lines_of(text@);
    let mut out: Vec<String> = Vec::new();
    let mut i: usize = 0;
    while i < lines.len()
        invariant
            i <= lines@.len(),
            lines@.len() == ls.len(),
            forall|k: int| 0 <= k < ls.len() ==> (#[trigger] lines@[k])@ == ls[k],
            out.deep_view() == forge_versions_of(ls.take(i as int)),
        decreases lines@.len() - i,
    {
        proof {
            assert(ls.take(i + 1).drop_last() =~= ls.take(i as int));
            assert(ls.take(i + 1).last() == ls[i as int]);
        }
        let trimmed = str_trim(lines[i].as_str());
        let t = trimmed.as_str();
        let tlen = t.unicode_len();
        if str_starts_with(t, "<version>") && str_ends_with(t, "</version>") && tlen >= 19 {
            let inner = t.substring_char(9, tlen - 10);
            proof {
                assert(inner@ =~= t@.subrange(9, t@.len() - 10));
            }
            let mc = match split_once_char(inner, '-') {
                None => String::from_str(inner),
                Some((a, _)) => a,
            };
            if is_supported_forge_mc(mc.as_str()) {
                if !contains_string(&out, mc.as_str()) {
                    out.push(mc);
                }
            }
        }
        proof {
            assert(out.deep_view() =~= forge_versions_of(ls.take(i + 1)));
        }
        i = i + 1;
    }
    proof {
        assert(ls.take(ls.len() as int) =~= ls);
    }
    out
}

/// The loader-support sets fetched once at startup: the Minecraft
/// versions fabric publishes loaders for, and those with an
/// automatable forge build.
pub struct LoaderSupportCache {
    pub fabric_versions: Vec<String>,
    pub forge_versions: Vec<String>,
}

/// Which loaders a given Minecraft version supports.
#[derive(Debug, Clone, Copy, PartialEq, Eq, Structural)]
pub struct SupportLoaders {
    pub vanilla: bool,
    pub fabric: bool,
    pub forge: bool,
}

/// Reads the loader support of one Minecraft version off the fetched
/// cache: vanilla always, fabric and forge by membership in their
/// version sets.
pub fn get_supported_loaders(cache: &LoaderSupportCache, version: &str) -> (r: SupportLoaders)
    ensures
        r.vanilla,
        r.fabric == seq_contains_str(cache.fabric_versions.deep_view(), version@),
        r.forge == seq_contains_str(cache.forge_versions.deep_view(), version@),
{
    SupportLoaders {
        vanilla: true,
        fabric: contains_string(&cache.fabric_versions, version),
        forge: contains_string(&cache.forge_versions, version),
    }
}

} // verus!
