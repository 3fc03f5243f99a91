use cubely_core::config::{LoaderType, ServerConfig};
use cubely_core::supervisor::{
    delete_server, entry_jar, find_forge_entry, java_base_dir, launch_args, plan_launch,
    tunnel_address_outcome, tunnel_base_dir, ActiveServer, CommandError, DeleteError,
    ProcessHandle, StartError, StopError, Supervisor,
};
use cubely_core::platform::Platform;

fn record(name: &str, id: &str) -> ActiveServer {
    ActiveServer {
        server_name: name.to_string(),
        server_id: id.to_string(),
        mc_proc: ProcessHandle { pid: 11, stdin_open: true },
        tunnel_proc: Some(ProcessHandle { pid: 12, stdin_open: false }),
        public_url: Some("play.example.net:25565".to_string()),
    }
}

fn config(version: &str, loader: LoaderType, ram_gb: u8) -> ServerConfig {
    ServerConfig {
        id: "id-1".to_string(),
        name: "My Server".to_string(),
        version: version.to_string(),
        loader,
        ram_gb,
        path: "/srv/my-server".to_string(),
        created_at: 1_700_000_000,
        tunnel: None,
    }
}

#[test]
fn fresh_supervisor_has_no_active_server() {
    let sup = Supervisor::new();
    assert!(sup.get_active_server().is_none());
    assert!(sup.guard_start().is_ok());
}

#[test]
fn claim_fills_the_slot_and_snapshot_matches() {
    let mut sup = Supervisor::new();
    let info = sup.claim_active(record("My Server", "id-1")).unwrap();
    assert_eq!(info.server_name, "My Server");
    assert_eq!(info.server_id, "id-1");
    assert_eq!(info.public_url.as_deref(), Some("play.example.net:25565"));
    let snap = sup.get_active_server().unwrap();
    assert_eq!(snap, info);
}

#[test]
fn second_start_is_rejected_and_alters_nothing() {
    let mut sup = Supervisor::new();
    let first = sup.claim_active(record("First", "a")).unwrap();
    assert_eq!(sup.guard_start(), Err(StartError::AlreadyRunning));
    let second = sup.claim_active(record("Second", "b"));
    assert_eq!(second, Err(StartError::AlreadyRunning));
    assert_eq!(sup.get_active_server().unwrap(), first);
}

#[test]
fn stop_without_start_is_rejected() {
    let mut sup = Supervisor::new();
    assert_eq!(sup.stop_server().err(), Some(StopError::NoActiveServer));
    assert!(sup.get_active_server().is_none());
}

#[test]
fn stop_clears_the_slot_and_plans_shutdown() {
    let mut sup = Supervisor::new();
    sup.claim_active(record("My Server", "id-1")).unwrap();
    let plan = sup.stop_server().unwrap();
    assert_eq!(plan.shutdown_line.as_deref(), Some("stop\n"));
    assert_eq!(plan.mc_proc.pid, 11);
    assert_eq!(plan.kill_tunnel.map(|p| p.pid), Some(12));
    assert!(sup.get_active_server().is_none());
    assert_eq!(sup.stop_server().err(), Some(StopError::NoActiveServer));
}

#[test]
fn stop_without_stdin_sends_no_line() {
    let mut sup = Supervisor::new();
    let mut rec = record("x", "y");
    rec.mc_proc.stdin_open = false;
    sup.claim_active(rec).unwrap();
    let plan = sup.stop_server().unwrap();
    assert!(plan.shutdown_line.is_none());
}

#[test]
fn send_command_plans_echo_and_line() {
    let mut sup = Supervisor::new();
    assert_eq!(sup.send_mc_command("say hi").err(), Some(CommandError::NoActiveServer));
    sup.claim_active(record("s", "i")).unwrap();
    let plan = sup.send_mc_command("say hi").unwrap();
    assert_eq!(plan.echo, "> say hi");
    assert_eq!(plan.line, "say hi\n");
}

#[test]
fn send_command_needs_an_open_stdin() {
    let mut sup = Supervisor::new();
    let mut rec = record("s", "i");
    rec.mc_proc.stdin_open = false;
    sup.claim_active(rec).unwrap();
    assert_eq!(sup.send_mc_command("stop").err(), Some(CommandError::StdinUnavailable));
}

#[test]
fn relayed_stderr_lines_are_tagged() {
    assert_eq!(cubely_core::supervisor::tag_log_line(true, "boom"), "[ERR] boom");
    assert_eq!(cubely_core::supervisor::tag_log_line(false, "Done (3.2s)!"), "Done (3.2s)!");
}

#[test]
fn launch_args_carry_heap_flags() {
    let args = launch_args(4, "server.jar");
    assert_eq!(args, vec!["-Xmx4G", "-Xms4G", "-jar", "server.jar", "nogui"]);
    let args = launch_args(12, "forge-shim.jar");
    assert_eq!(args, vec!["-Xmx12G", "-Xms12G", "-jar", "forge-shim.jar", "nogui"]);
}

#[test]
fn forge_entry_is_scanned_from_names() {
    let names = vec![
        "readme.txt".to_string(),
        "forge-1.12.2-14.23.5-universal.jar".to_string(),
    ];
    assert_eq!(find_forge_entry(&names).unwrap(), "forge-1.12.2-14.23.5-universal.jar");
    // the first recognizable jar wins
    let names = vec!["a-shim.jar".to_string(), "forge-x-universal.jar".to_string()];
    assert_eq!(find_forge_entry(&names).unwrap(), "a-shim.jar");
    assert_eq!(find_forge_entry(&Vec::new()), Err(StartError::NoForgeJar));
    let names = vec!["forge-1.2.jar".to_string()];
    assert_eq!(find_forge_entry(&names), Err(StartError::NoForgeJar));
}

#[test]
fn entry_jar_by_loader() {
    let none: Vec<String> = Vec::new();
    assert_eq!(entry_jar(LoaderType::Vanilla, &none).unwrap(), "server.jar");
    assert_eq!(entry_jar(LoaderType::Fabric, &none).unwrap(), "server.jar");
    assert_eq!(entry_jar(LoaderType::Forge, &none), Err(StartError::NoForgeJar));
}

#[test]
fn launch_plan_for_new_version_uses_latest_family() {
    let cfg = config("1.20.6", LoaderType::Vanilla, 4);
    let files: Vec<String> = Vec::new();
    let plan = plan_launch(&cfg, "/data/java", Platform::LinuxX64, &files).unwrap();
    assert_eq!(plan.program, "/data/java/21/bin/java");
    assert_eq!(plan.args, vec!["-Xmx4G", "-Xms4G", "-jar", "server.jar", "nogui"]);
    assert_eq!(plan.cwd, "/srv/my-server");
}

#[test]
fn launch_plan_forge_uses_the_first_recognizable_jar() {
    let cfg = config("1.12.2", LoaderType::Forge, 2);
    let files = vec![
        "mods".to_string(),
        "forge-1.12.2-14.23.5-universal.jar".to_string(),
        "other-universal.jar-forge-".to_string(),
    ];
    let plan = plan_launch(&cfg, "/data/java", Platform::LinuxX64, &files).unwrap();
    assert_eq!(plan.args[3], "forge-1.12.2-14.23.5-universal.jar");
}

#[test]
fn launch_plan_forge_without_jar_fails() {
    let cfg = config("1.12.2", LoaderType::Forge, 2);
    let files = vec!["whatever.txt".to_string()];
    assert_eq!(plan_launch(&cfg, "/data/java", Platform::Windows, &files).err(),
        Some(StartError::NoForgeJar));
}

#[test]
fn uninitialized_base_directories_are_rejected() {
    assert_eq!(java_base_dir(&None), Err(StartError::JavaBaseUninit));
    assert_eq!(java_base_dir(&Some("/data/java".to_string())).unwrap(), "/data/java");
    assert_eq!(tunnel_base_dir(&None), Err(StartError::TunnelBaseUninit));
    assert_eq!(tunnel_base_dir(&Some("/data/playit".to_string())).unwrap(), "/data/playit");
    assert_eq!(
        StartError::JavaBaseUninit.message(),
        "Java base directory not initialized"
    );
    assert_eq!(
        StartError::TunnelBaseUninit.message(),
        "Tunnel base directory not initialized"
    );
}

#[test]
fn tunnel_outcome_follows_the_resolved_address() {
    assert_eq!(
        tunnel_address_outcome(&Some("play.example.net:25565".to_string())).unwrap(),
        "play.example.net:25565"
    );
    assert_eq!(tunnel_address_outcome(&None), Err(StartError::TunnelUnresolved));
    assert_eq!(
        StartError::TunnelUnresolved.message(),
        "Failed to obtain tunnel public address"
    );
}

#[test]
fn errors_describe_themselves() {
    assert_eq!(StartError::AlreadyRunning.message(), "A server is already running");
    assert_eq!(
        StartError::JavaMissing("/data/java/8/bin/java".to_string()).message(),
        "Java not found at /data/java/8/bin/java"
    );
    assert_eq!(
        StartError::ServerDirMissing("/srv/x".to_string()).message(),
        "Server directory not found: /srv/x"
    );
    assert_eq!(StartError::NoForgeJar.message(), "Could not find Forge launch jar");
    assert_eq!(StopError::NoActiveServer.message(), "No active server");
    assert_eq!(CommandError::NoActiveServer.message(), "No active server running");
    assert_eq!(CommandError::StdinUnavailable.message(), "Minecraft stdin not available");
    assert_eq!(DeleteError::ServerRunning.message(), "Cannot delete a running server");
    assert_eq!(DeleteError::NotFound.message(), "Server not found");
    assert_eq!(DeleteError::OutsideBase.message(), "Invalid server path");
}

#[test]
fn delete_rules() {
    let mut sup = Supervisor::new();
    sup.claim_active(record("Running", "run-1")).unwrap();
    let servers = vec![
        ServerConfig { id: "run-1".to_string(), path: "/base/1.20/Running".to_string(), ..config("1.20.6", LoaderType::Vanilla, 2) },
        ServerConfig { id: "old-2".to_string(), path: "/base/1.12/Old".to_string(), ..config("1.12.2", LoaderType::Vanilla, 2) },
        ServerConfig { id: "bad-3".to_string(), path: "/elsewhere/Bad".to_string(), ..config("1.12.2", LoaderType::Vanilla, 2) },
        ServerConfig { id: "sib-4".to_string(), path: "/base-old/Sib".to_string(), ..config("1.12.2", LoaderType::Vanilla, 2) },
    ];
    assert_eq!(delete_server(&sup, &servers, "run-1", "/base"), Err(DeleteError::ServerRunning));
    assert_eq!(delete_server(&sup, &servers, "old-2", "/base").unwrap(), "/base/1.12/Old");
    assert_eq!(delete_server(&sup, &servers, "bad-3", "/base"), Err(DeleteError::OutsideBase));
    // a sibling directory whose name merely extends the base's
    // characters is outside the servers directory
    assert_eq!(delete_server(&sup, &servers, "sib-4", "/base"), Err(DeleteError::OutsideBase));
    assert_eq!(delete_server(&sup, &servers, "nope", "/base"), Err(DeleteError::NotFound));
}
