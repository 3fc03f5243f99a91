use cubely_core::store::{
    begin_install, check_download, dep_installed, finish_install, record_archive, DepState,
    InstallError, MIN_ARCHIVE_BYTES,
};

fn healthy_state() -> DepState {
    DepState {
        dir_exists: true,
        marker: false,
        structure_ok: true,
        binary_runs: true,
        archive_exists: false,
    }
}

fn purged_state() -> DepState {
    DepState {
        dir_exists: false,
        marker: false,
        structure_ok: false,
        binary_runs: false,
        archive_exists: false,
    }
}

#[test]
fn verify_healthy_is_idempotent() {
    let mut st = healthy_state();
    assert!(dep_installed(&mut st));
    assert_eq!(st, healthy_state());
    assert!(dep_installed(&mut st));
    assert_eq!(st, healthy_state());
}

#[test]
fn marker_forces_purge() {
    let mut st = DepState { marker: true, archive_exists: true, ..healthy_state() };
    assert!(!dep_installed(&mut st));
    assert_eq!(st, purged_state());
    assert!(!st.dir_exists);
}

#[test]
fn missing_structure_forces_purge() {
    let mut st = DepState { structure_ok: false, ..healthy_state() };
    assert!(!dep_installed(&mut st));
    assert_eq!(st, purged_state());
}

#[test]
fn dead_binary_forces_purge() {
    let mut st = DepState { binary_runs: false, ..healthy_state() };
    assert!(!dep_installed(&mut st));
    assert_eq!(st, purged_state());
}

#[test]
fn download_check_accepts_success() {
    assert!(check_download(200, MIN_ARCHIVE_BYTES).is_ok());
    assert!(check_download(299, 10_000_000).is_ok());
}

#[test]
fn download_check_rejects_bad_status() {
    assert_eq!(check_download(404, 10_000_000), Err(InstallError::HttpStatus(404)));
    assert_eq!(check_download(300, 10_000_000), Err(InstallError::HttpStatus(300)));
    assert_eq!(check_download(199, 10_000_000), Err(InstallError::HttpStatus(199)));
}

#[test]
fn download_check_rejects_small_body() {
    assert_eq!(
        check_download(200, MIN_ARCHIVE_BYTES - 1),
        Err(InstallError::TooSmall(MIN_ARCHIVE_BYTES - 1))
    );
}

#[test]
fn install_errors_describe_themselves() {
    assert_eq!(InstallError::HttpStatus(404).message(), "Failed to download: status 404");
    assert_eq!(
        InstallError::TooSmall(12).message(),
        "Downloaded artifact is suspiciously small"
    );
    assert_eq!(
        InstallError::BadArchive("bad magic".to_string()).message(),
        "Unreadable archive: bad magic"
    );
    assert_eq!(InstallError::Network("timed out".to_string()).message(), "timed out");
}

#[test]
fn completed_install_verifies() {
    let mut st = purged_state();
    begin_install(&mut st);
    assert!(st.marker);
    assert!(st.dir_exists);
    assert!(check_download(200, 600_000).is_ok());
    record_archive(&mut st);
    assert!(st.archive_exists);
    finish_install(&mut st, true, true);
    assert!(!st.marker);
    assert!(!st.archive_exists);
    assert!(dep_installed(&mut st));
}

#[test]
fn interrupted_install_is_detected_and_purged() {
    let mut st = purged_state();
    begin_install(&mut st);
    // the process dies here: the marker is still on disk
    assert!(!dep_installed(&mut st));
    assert_eq!(st, purged_state());
}

#[test]
fn install_of_broken_archive_fails_verification() {
    let mut st = purged_state();
    begin_install(&mut st);
    record_archive(&mut st);
    finish_install(&mut st, false, false);
    assert!(!dep_installed(&mut st));
    assert_eq!(st, purged_state());
}
