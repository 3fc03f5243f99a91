//! Model of one dependency family's on-disk store, and the transitions
//! the installer and the health verifier perform on it.
//!
//! The store of a family (a Java runtime, a tunnel agent) is described
//! by which of its artifacts are present and whether its binary works.
//! The verifier is destructive: any failed check purges the whole
//! install so that the next attempt starts clean.

use vstd::prelude::*;

verus! {

/// Every downloaded archive below this many bytes is rejected as a
/// redirected-to-error-page download rather than a real artifact.
pub const MIN_ARCHIVE_BYTES: u64 = 500000;

/// What is on disk for one dependency family, together with the result
/// the liveness probe of its binary would report.
#[derive(Debug, Clone, Copy, PartialEq, Eq, Structural)]
pub struct DepState {
    /// The family's version-scoped install directory exists.
    pub dir_exists: bool,
    /// The install-in-progress marker file is present.
    pub marker: bool,
    /// The required substructure (expected subpaths, or the binary
    /// file itself for single-binary families) is present.
    pub structure_ok: bool,
    /// Executing the installed binary with a version-query flag
    /// succeeds.
    pub binary_runs: bool,
    /// A downloaded archive awaiting (or left over from) extraction is
    /// present beside the install directory.
    pub archive_exists: bool,
}

/// A dependency counts as installed only when no marker is present,
/// its substructure is complete, and its binary actually runs.
pub open spec fn healthy(st: DepState) -> bool {
    !st.marker && st.structure_ok && st.binary_runs
}

/// The store after a destructive cleanup: install directory, marker,
/// contents and any stray archive are all gone.
pub open spec fn purged() -> DepState {
    DepState {
        dir_exists: false,
        marker: false,
        structure_ok: false,
        binary_runs: false,
        archive_exists: false,
    }
}

/// The store after one verification pass: untouched when healthy,
/// fully purged otherwise.
pub open spec fn verify_post(st: DepState) -> DepState {
    if healthy(st) {
        st
    } else {
        purged()
    }
}

/// Removes the family's install directory and any stray archive from
/// the model; the shell mirrors this with the real deletions.
pub fn purge_dep(st: &mut DepState)
    ensures
        *final(st) == purged(),
{
    st.dir_exists = false;
    st.marker = false;
    st.structure_ok = false;
    st.binary_runs = false;
    st.archive_exists = false;
}

/// The health verifier: reports whether the dependency is installed,
/// and destructively purges the store on any failed check. The checks
/// run in order: marker first, then substructure, then the liveness
/// probe; only a store that passes all three is left untouched.
pub fn dep_installed(st: &mut DepState) -> (r: bool)
    ensures
        r == healthy(*old(st)),
        *final(st) == verify_post(*old(st)),
{
    if st.marker {
        purge_dep(st);
        false
    } else if !st.structure_ok {
        purge_dep(st);
        false
    } else if !st.binary_runs {
        purge_dep(st);
        false
    } else {
        true
    }
}

/// Why an install attempt failed.
#[derive(Debug, Clone, PartialEq, Eq)]
pub enum InstallError {
    /// The download request itself failed (connection, transfer).
    Network(String),
    /// The download answered with a non-success HTTP status.
    HttpStatus(u16),
    /// The download was implausibly small for a real artifact.
    TooSmall(u64),
    /// The downloaded archive could not be read.
    BadArchive(String),
    /// Writing an artifact to disk failed.
    Filesystem(String),
    /// The dependency cannot be installed on this platform.
    Unsupported,
}

/// The descriptive text of each install failure.
pub open spec fn install_error_text(e: InstallError) -> Seq<char> {
    match e {
        InstallError::Network(m) => m@,
        InstallError::HttpStatus(s) => "Failed to download: status "@ + crate::text::dec_str(
            s as nat,
        ),
        InstallError::TooSmall(_) => "Downloaded artifact is suspiciously small"@,
        InstallError::BadArchive(m) => "Unreadable archive: "@ + m@,
        InstallError::Filesystem(m) => m@,
        InstallError::Unsupported => "Playit tunnel is not supported on macOS. Consider changing the provider or turn off Tunnel option and try again."@,
    }
}

impl InstallError {
    /// The human-readable description handed to the caller.
    pub fn message(&self) -> (r: String)
        ensures
            r@ == install_error_text(*self),
    {
        match self {
            InstallError::Network(m) => m.clone(),
            InstallError::HttpStatus(s) => {
                let mut t = String::from_str("Failed to download: status ");
                let n = crate::text::u64_to_string(*s as u64);
                t.append(n.as_str());
                t
            },
            InstallError::TooSmall(_) => String::from_str("Downloaded artifact is suspiciously small"),
            InstallError::BadArchive(m) => {
                let mut t = String::from_str("Unreadable archive: ");
                t.append(m.as_str());
                t
            },
            InstallError::Filesystem(m) => m.clone(),
            InstallError::Unsupported => String::from_str(
                "Playit tunnel is not supported on macOS. Consider changing the provider or turn off Tunnel option and try again.",
            ),
        }
    }
}

/// An HTTP status in the success class.
pub open spec fn status_success(status: u16) -> bool {
    200 <= status < 300
}

/// Accepts a download only on a success status with a plausibly large
/// body; anything else is an error naming what was wrong.
pub fn check_download(status: u16, len: u64) -> (r: Result<(), InstallError>)
    ensures
        r is Ok <==> status_success(status) && len >= MIN_ARCHIVE_BYTES,
        !status_success(status) ==> r == Result::<(), InstallError>::Err(
            InstallError::HttpStatus(status),
        ),
        status_success(status) && len < MIN_ARCHIVE_BYTES ==> r == Result::<
            (),
            InstallError,
        >::Err(InstallError::TooSmall(len)),
{
    if status < 200 || status >= 300 {
        Err(InstallError::HttpStatus(status))
    } else if len < MIN_ARCHIVE_BYTES {
        Err(InstallError::TooSmall(len))
    } else {
        Ok(())
    }
}

/// Begins an install: creates the install directory and writes the
/// in-progress marker. From here until `finish_install`, a crash or an
/// abandoned attempt leaves the marker behind, so the next
/// verification purges the partial install.
pub fn begin_install(st: &mut DepState)
    ensures
        *final(st) == (DepState { dir_exists: true, marker: true, ..*old(st) }),
{
    st.dir_exists = true;
    st.marker = true;
}

/// Records that the downloaded archive was persisted to disk, awaiting
/// extraction.
pub fn record_archive(st: &mut DepState)
    requires
        old(st).marker,
    ensures
        *final(st) == (DepState { archive_exists: true, ..*old(st) }),
{
    st.archive_exists = true;
}

/// Completes an install: extraction has run and permissions are set,
/// so the marker and the archive are removed. What the archive
/// actually contained decides the resulting substructure and whether
/// the binary runs; both are reported by the shell that extracted it.
pub fn finish_install(st: &mut DepState, structure_ok: bool, binary_runs: bool)
    requires
        old(st).marker,
        old(st).dir_exists,
    ensures
        *final(st) == (DepState {
            dir_exists: true,
            marker: false,
            structure_ok: structure_ok,
            binary_runs: binary_runs,
            archive_exists: false,
        }),
{
    st.structure_ok = structure_ok;
    st.binary_runs = binary_runs;
    st.marker = false;
    st.archive_exists = false;
}

/// Marker invariant: whenever the marker is present — in particular
/// after an install was interrupted between `begin_install` and
/// `finish_install` — verification reports not installed and leaves no
/// install directory behind.
pub proof fn lemma_marker_invariant(st: DepState)
    requires
        st.marker,
    ensures
        !healthy(st),
        verify_post(st) == purged(),
        !verify_post(st).dir_exists,
{
}

/// Idempotent verification: a healthy store passes verification
/// untouched, and passes it again; the second pass has no effect
/// either.
pub proof fn lemma_verify_idempotent(st: DepState)
    requires
        healthy(st),
    ensures
        verify_post(st) == st,
        healthy(verify_post(st)),
        verify_post(verify_post(st)) == st,
{
}

} // verus!
