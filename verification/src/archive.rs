//! Archive extraction planning. Downloaded runtime archives ship one
//! top-level wrapper folder; every entry's first path component is
//! stripped, and entries that become empty (the wrapper folder itself)
//! are skipped. Listing what an archive holds is delegated to the zip
//! and tar crates; everything decided from the listing is verified.

use vstd::prelude::*;
use crate::store::InstallError;
use crate::text::path_join;

verus! {

/// What one archive entry declares: its relative path inside the
/// archive and whether it is a directory.
#[derive(Debug, Clone)]
pub struct ArchiveEntryMeta {
    pub path: String,
    pub is_dir: bool,
}

/// Everything after the first `/`, or nothing when the path has no
/// `/` at all (a bare wrapper-folder name) or nothing follows it
/// (a wrapper-folder entry like `wrapper/`).
pub open spec fn strip_first_component_spec(p: Seq<char>) -> Option<Seq<char>>
    decreases p.len(),
{
    if p.len() == 0 {
        None
    } else if p[0] == '/' {
        if p.len() == 1 {
            None
        } else {
            Some(p.skip(1))
        }
    } else {
        strip_first_component_spec(p.skip(1))
    }
}

/// Strips the top-level wrapper folder off an archive entry path:
/// everything after the first separator, or nothing when nothing
/// (or only the separator) follows it.
pub fn strip_first_component(p: &str) -> (r: Option<String>)
    ensures
        r is Some <==> strip_first_component_spec(p@) is Some,
        r matches Some(s) ==> strip_first_component_spec(p@) == Some(s@),
    decreases p@.len(),
{
    let len = p.unicode_len();
    if len == 0 {
        None
    } else if p.get_char(0) == '/' {
        if len == 1 {
            None
        } else {
            let rest = p.substring_char(1, len);
            proof {
                assert(rest@ =~= p@.skip(1));
            }
            Some(String::from_str(rest))
        }
    } else {
        let tail = p.substring_char(1, len);
        proof {
            assert(tail@ =~= p@.skip(1));
        }
        strip_first_component(tail)
    }
}

/// Where an entry extracts to under the install directory: its path
/// with the wrapper folder stripped, or nowhere for the wrapper
/// folder itself.
pub open spec fn extract_target_spec(dir: Seq<char>, p: Seq<char>) -> Option<Seq<char>> {
    match strip_first_component_spec(p) {
        None => None,
        Some(s) => Some(dir + "/"@ + s),
    }
}

/// Plans the extraction of a listed archive: for each entry, in
/// order, the on-disk path it extracts to, or nothing for entries
/// that are only the wrapper folder.
pub fn plan_extraction(install_dir: &str, entries: &Vec<ArchiveEntryMeta>) -> (r: Vec<
    Option<String>,
>)
    ensures
        r@.len() == entries@.len(),
        forall|i: int|
            0 <= i < entries@.len() ==> {
                &&& ((#[trigger] r@[i]) is Some <==> extract_target_spec(
                    install_dir@,
                    entries@[i].path@,
                ) is Some)
                &&& (r@[i] matches Some(t) ==> extract_target_spec(install_dir@, entries@[i].path@)
                    == Some(t@))
            },
{
    let mut out: Vec<Option<String>> = Vec::new();
    let mut i: usize = 0;
    while i < entries.len()
        invariant
            i <= entries@.len(),
            out@.len() == i,
            forall|k: int|
                0 <= k < i ==> {
                    &&& ((#[trigger] out@[k]) is Some <==> extract_target_spec(
                        install_dir@,
                        entries@[k].path@,
                    ) is Some)
                    &&& (out@[k] matches Some(t) ==> extract_target_spec(
                        install_dir@,
                        entries@[k].path@,
                    ) == Some(t@))
                },
        decreases entries@.len() - i,
    {
        match strip_first_component(entries[i].path.as_str()) {
            None => out.push(None),
            Some(s) => out.push(Some(path_join(install_dir, s.as_str()))),
        }
        i = i + 1;
    }
    out
}

/// The entry listing a zip archive's bytes parse to: each entry's
/// declared path and directory flag in archive order, or nothing when
/// the bytes are not a readable zip archive. A function of the bytes
/// alone.
pub uninterp spec fn zip_entries_of(bytes: Seq<u8>) -> Option<Seq<(Seq<char>, bool)>>;

/// Relies on zip::ZipArchive (new, len, by_index) and its entry type's
/// name and is_dir: lists each entry's declared path and directory
/// flag, in archive order, from in-memory bytes.
#[verifier::external_body]
fn zip_entry_meta(bytes: &Vec<u8>) -> (r: Result<Vec<ArchiveEntryMeta>, String>)
    ensures
        r matches Ok(v) ==> zip_entries_of(bytes@) matches Some(es) && v@.len() == es.len()
            && forall|i: int|
            0 <= i < v@.len() ==> (#[trigger] v@[i]).path@ == es[i].0 && v@[i].is_dir == es[i].1,
        r is Err ==> zip_entries_of(bytes@) is None,
{
    let cur = std::io::Cursor::new(bytes.as_slice());
    let mut archive = zip::ZipArchive::new(cur).map_err(|e| e.to_string())?;
    let mut out = Vec::new();
    for i in 0..archive.len() {
        let f = archive.by_index(i).map_err(|e| e.to_string())?;
        out.push(ArchiveEntryMeta { path: f.name().to_string(), is_dir: f.is_dir() });
    }
    Ok(out)
}

/// The entry listing a gzipped tar archive's bytes parse to, or
/// nothing when the bytes are not a readable gzipped tar archive. A
/// function of the bytes alone.
pub uninterp spec fn tar_gz_entries_of(bytes: Seq<u8>) -> Option<Seq<(Seq<char>, bool)>>;

/// Relies on flate2::read::GzDecoder and tar::Archive (entries, each
/// entry's path and header().entry_type().is_dir()): lists each
/// entry's declared path and directory flag, in archive order, from
/// in-memory bytes. Entry names that are not valid UTF-8 decode
/// lossily, except on Windows where they are an error, so the listing
/// is a function of the bytes per compiled target; this library only
/// plans gzipped-tar extraction on non-Windows platforms.
#[verifier::external_body]
fn tar_gz_entry_meta(bytes: &Vec<u8>) -> (r: Result<Vec<ArchiveEntryMeta>, String>)
    ensures
        r matches Ok(v) ==> tar_gz_entries_of(bytes@) matches Some(es) && v@.len() == es.len()
            && forall|i: int|
            0 <= i < v@.len() ==> (#[trigger] v@[i]).path@ == es[i].0 && v@[i].is_dir == es[i].1,
        r is Err ==> tar_gz_entries_of(bytes@) is None,
{
    let cur = std::io::Cursor::new(bytes.as_slice());
    let mut archive = tar::Archive::new(flate2::read::GzDecoder::new(cur));
    let mut out = Vec::new();
    for entry in archive.entries().map_err(|e| e.to_string())? {
        let e = entry.map_err(|e| e.to_string())?;
        let path = e.path().map_err(|e| e.to_string())?.to_string_lossy().into_owned();
        out.push(ArchiveEntryMeta { path, is_dir: e.header().entry_type().is_dir() });
    }
    Ok(out)
}

/// Lists a downloaded zip archive and plans its extraction under the
/// install directory; an unreadable archive is an error.
pub fn plan_zip_extraction(install_dir: &str, bytes: &Vec<u8>) -> (r: Result<
    (Vec<ArchiveEntryMeta>, Vec<Option<String>>),
    InstallError,
>)
    ensures
        r is Ok <==> zip_entries_of(bytes@) is Some,
        r matches Ok((es, plan)) ==> zip_entries_of(bytes@) matches Some(zs) && {
            &&& es@.len() == zs.len()
            &&& forall|i: int|
                0 <= i < es@.len() ==> (#[trigger] es@[i]).path@ == zs[i].0 && es@[i].is_dir
                    == zs[i].1
            &&& plan@.len() == zs.len()
            &&& forall|i: int|
                0 <= i < zs.len() ==> {
                    &&& ((#[trigger] plan@[i]) is Some <==> extract_target_spec(
                        install_dir@,
                        zs[i].0,
                    ) is Some)
                    &&& (plan@[i] matches Some(t) ==> extract_target_spec(install_dir@, zs[i].0)
                        == Some(t@))
                }
        },
        r matches Err(e) ==> e matches InstallError::BadArchive(_),
{
    match zip_entry_meta(bytes) {
        Err(m) => Err(InstallError::BadArchive(m)),
        Ok(entries) => {
            let plan = plan_extraction(install_dir, &entries);
            Ok((entries, plan))
        },
    }
}

/// Lists a downloaded gzipped tar archive and plans its extraction
/// under the install directory; an unreadable archive is an error.
pub fn plan_tar_gz_extraction(install_dir: &str, bytes: &Vec<u8>) -> (r: Result<
    (Vec<ArchiveEntryMeta>, Vec<Option<String>>),
    InstallError,
>)
    ensures
        r is Ok <==> tar_gz_entries_of(bytes@) is Some,
        r matches Ok((es, plan)) ==> tar_gz_entries_of(bytes@) matches Some(zs) && {
            &&& es@.len() == zs.len()
            &&& forall|i: int|
                0 <= i < es@.len() ==> (#[trigger] es@[i]).path@ == zs[i].0 && es@[i].is_dir
                    == zs[i].1
            &&& plan@.len() == zs.len()
            &&& forall|i: int|
                0 <= i < zs.len() ==> {
                    &&& ((#[trigger] plan@[i]) is Some <==> extract_target_spec(
                        install_dir@,
                        zs[i].0,
                    ) is Some)
                    &&& (plan@[i] matches Some(t) ==> extract_target_spec(install_dir@, zs[i].0)
                        == Some(t@))
                }
        },
        r matches Err(e) ==> e matches InstallError::BadArchive(_),
{
    match tar_gz_entry_meta(bytes) {
        Err(m) => Err(InstallError::BadArchive(m)),
        Ok(entries) => {
            let plan = plan_extraction(install_dir, &entries);
            Ok((entries, plan))
        },
    }
}

} // verus!
