use cubely_core::java::{
    installing_marker, java_archive_path, java_binary, java_download_url, java_install_dir,
    java_structure_ok, JavaVersion,
};
use cubely_core::paths::servers_dir;
use cubely_core::platform::Platform;
use cubely_core::playit;
use cubely_core::store::{dep_installed, DepState, InstallError};
use cubely_core::text::{
    parse_u32, path_join, split_lines, str_contains, str_ends_with, str_eq, str_starts_with,
    str_trim, u64_to_string,
};

#[test]
fn java_paths_follow_the_platform_table() {
    assert_eq!(java_install_dir("/data/java", JavaVersion::Java17), "/data/java/17");
    assert_eq!(java_binary("/data/java", JavaVersion::Java17, Platform::LinuxX64),
        "/data/java/17/bin/java");
    assert_eq!(java_binary("/data/java", JavaVersion::Java8, Platform::Windows),
        "/data/java/8/bin/java.exe");
    assert_eq!(java_binary("/data/java", JavaVersion::Java21, Platform::MacArm),
        "/data/java/21/Contents/Home/bin/java");
    assert_eq!(installing_marker("/data/java", JavaVersion::Java8), "/data/java/8/.installing");
    assert_eq!(java_archive_path("/data/java", Platform::Windows), "/data/java/java.zip");
    assert_eq!(java_archive_path("/data/java", Platform::LinuxX64), "/data/java/java.tar.gz");
}

#[test]
fn java_download_urls_are_per_family_and_platform() {
    assert_eq!(
        java_download_url(JavaVersion::Java17, Platform::LinuxX64),
        "https://api.adoptium.net/v3/binary/latest/17/ga/linux/x64/jre/hotspot/normal/eclipse"
    );
    assert_eq!(
        java_download_url(JavaVersion::Java8, Platform::Windows),
        "https://api.adoptium.net/v3/binary/latest/8/ga/windows/x64/jre/hotspot/normal/eclipse"
    );
    assert_eq!(
        java_download_url(JavaVersion::Java21, Platform::MacArm),
        "https://api.adoptium.net/v3/binary/latest/21/ga/mac/aarch64/jre/hotspot/normal/eclipse"
    );
}

#[test]
fn java_structure_check_wants_all_subpaths() {
    let all = vec!["bin".to_string(), "lib".to_string(), "release".to_string()];
    assert!(java_structure_ok(Platform::LinuxX64, &all));
    let missing = vec!["bin".to_string(), "lib".to_string()];
    assert!(!java_structure_ok(Platform::LinuxX64, &missing));
    let mac = vec![
        "Contents/Home/bin".to_string(),
        "Contents/Home/lib".to_string(),
        "Contents/Home/release".to_string(),
    ];
    assert!(java_structure_ok(Platform::MacX64, &mac));
    assert!(!java_structure_ok(Platform::MacX64, &all));
}

#[test]
fn playit_paths_and_urls() {
    assert_eq!(playit::playit_binary("/data/playit", Platform::Windows), "/data/playit/playit.exe");
    assert_eq!(playit::playit_binary("/data/playit", Platform::LinuxX64), "/data/playit/playit");
    assert_eq!(playit::installing_marker("/data/playit"), "/data/playit/.installing");
    assert_eq!(playit::zip_path("/data/playit"), "/data/playit/playit.zip");
    assert_eq!(
        playit::playit_download_url(Platform::Windows),
        Some("https://github.com/playit-cloud/playit-agent/releases/latest/download/playit-windows-x86_64.exe")
    );
    assert_eq!(
        playit::playit_download_url(Platform::LinuxX64),
        Some("https://github.com/playit-cloud/playit-agent/releases/latest/download/playit-linux-amd64")
    );
    assert_eq!(playit::playit_download_url(Platform::MacX64), None);
}

#[test]
fn playit_is_unsupported_on_mac() {
    assert_eq!(playit::playit_install_supported(Platform::MacArm), Err(InstallError::Unsupported));
    assert!(playit::playit_install_supported(Platform::LinuxX64).is_ok());
    let healthy = DepState {
        dir_exists: true,
        marker: false,
        structure_ok: true,
        binary_runs: true,
        archive_exists: false,
    };
    // on macOS the check reports not installed without touching anything
    let mut st = healthy;
    assert!(!playit::playit_installed(&mut st, Platform::MacX64));
    assert_eq!(st, healthy);
    // elsewhere it is the destructive verifier
    let mut st = healthy;
    assert!(playit::playit_installed(&mut st, Platform::LinuxX64));
    assert_eq!(st, healthy);
    let mut st = DepState { marker: true, ..healthy };
    assert!(!playit::playit_installed(&mut st, Platform::LinuxX64));
    assert!(!st.dir_exists);
}

#[test]
fn playit_spawn_plans_differ_by_platform() {
    let plan = playit::start_playit("/data/playit", Platform::Windows).unwrap();
    assert_eq!(plan.program, "/data/playit/playit.exe");
    assert!(plan.args.is_empty());
    assert!(plan.new_console);
    let plan = playit::start_playit("/data/playit", Platform::LinuxX64).unwrap();
    assert_eq!(plan.program, "x-terminal-emulator");
    assert_eq!(plan.args, vec!["-e", "/data/playit/playit"]);
    assert!(!plan.new_console);
    assert_eq!(playit::start_playit("/data/playit", Platform::MacX64).err(),
        Some(InstallError::Unsupported));
}

#[test]
fn dep_verifier_reused_by_both_families() {
    let mut st = DepState {
        dir_exists: true,
        marker: false,
        structure_ok: true,
        binary_runs: true,
        archive_exists: true,
    };
    assert!(dep_installed(&mut st));
    assert!(st.archive_exists);
}

#[test]
fn servers_dir_resolves_under_the_data_dir() {
    if let Some(dir) = servers_dir() {
        assert!(dir.ends_with("/Cubely/servers"));
    }
}

#[test]
fn decimal_rendering_and_parsing() {
    assert_eq!(u64_to_string(0), "0");
    assert_eq!(u64_to_string(7), "7");
    assert_eq!(u64_to_string(10), "10");
    assert_eq!(u64_to_string(25565), "25565");
    assert_eq!(parse_u32("0"), Some(0));
    assert_eq!(parse_u32("25565"), Some(25565));
    assert_eq!(parse_u32("4294967295"), Some(u32::MAX));
    assert_eq!(parse_u32("4294967296"), None);
    assert_eq!(parse_u32(""), None);
    assert_eq!(parse_u32("12a"), None);
    assert_eq!(parse_u32("+5"), None);
}

#[test]
fn string_utilities() {
    assert!(str_eq("abc", "abc"));
    assert!(!str_eq("abc", "abd"));
    assert!(str_contains("forge-1.2-universal.jar", "universal.jar"));
    assert!(!str_contains("server.jar", "shim"));
    assert!(str_starts_with("<version>1.8</version>", "<version>"));
    assert!(str_ends_with("<version>1.8</version>", "</version>"));
    assert_eq!(str_trim("  a b \r\n"), "a b");
    assert_eq!(split_lines("a\nb\n"), vec!["a", "b"]);
    assert_eq!(split_lines(""), Vec::<String>::new());
    assert_eq!(split_lines("\n"), vec![""]);
    assert_eq!(split_lines("a\n\nb"), vec!["a", "", "b"]);
    assert_eq!(path_join("/base", "x/y"), "/base/x/y");
}
