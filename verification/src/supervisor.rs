//! The server process supervisor: one active-server slot, claimed at
//! the end of a successful start, cleared by stop, and guarded against
//! a second start while occupied. The supervisor decides; the shell
//! that owns the real processes carries its plans out.

use vstd::prelude::*;
use crate::config::{LoaderType, ServerConfig};
use crate::java::{java_bin_rel, java_install_dir_of, java_binary, require_java, required_java};
use crate::platform::Platform;
use crate::text::{dec_str, has_prefix, has_sub, str_contains, str_eq, str_starts_with, u64_to_string};

verus! {

/// A spawned OS process as the supervisor sees it: an identifier the
/// shell can map back to the real handle, and whether its input pipe
/// is still open for writing.
#[derive(Debug, Clone, Copy, PartialEq, Eq, Structural)]
pub struct ProcessHandle {
    pub pid: u64,
    pub stdin_open: bool,
}

/// The single record of the one server allowed to run.
#[derive(Debug, Clone)]
pub struct ActiveServer {
    /// Display name.
    pub server_name: String,
    /// Stable identifier.
    pub server_id: String,
    /// The Minecraft process.
    pub mc_proc: ProcessHandle,
    /// The tunnel agent process, when a tunnel was requested.
    pub tunnel_proc: Option<ProcessHandle>,
    /// The resolved public address, when a tunnel was requested.
    pub public_url: Option<String>,
}

/// The public-facing snapshot of the active server: never the process
/// handles themselves.
#[derive(Debug, Clone, PartialEq, Eq)]
pub struct ActiveServerInfo {
    pub server_name: String,
    pub server_id: String,
    pub public_url: Option<String>,
}

/// The snapshot a record maps to.
pub open spec fn active_info(s: ActiveServer) -> ActiveServerInfo {
    ActiveServerInfo {
        server_name: s.server_name,
        server_id: s.server_id,
        public_url: s.public_url,
    }
}

/// Why a start request was rejected.
#[derive(Debug, Clone, PartialEq, Eq)]
pub enum StartError {
    /// The active-server slot is already occupied.
    AlreadyRunning,
    /// The Java base directory was never initialized.
    JavaBaseUninit,
    /// A tunnel base directory was never initialized.
    TunnelBaseUninit,
    /// The Java binary is absent even though the runtime was supposed
    /// to be installed; carries the expected path.
    JavaMissing(String),
    /// The server's own directory does not exist; carries the path.
    ServerDirMissing(String),
    /// No recognizable launch jar in a Forge server's directory.
    NoForgeJar,
    /// A tunnel was requested but no public address could be obtained
    /// from the agent within the shell's polling budget.
    TunnelUnresolved,
}

/// Why a stop request was rejected.
#[derive(Debug, Clone, Copy, PartialEq, Eq, Structural)]
pub enum StopError {
    /// There is no active server to stop.
    NoActiveServer,
}

/// Why a command could not be sent to the server process.
#[derive(Debug, Clone, Copy, PartialEq, Eq, Structural)]
pub enum CommandError {
    /// There is no active server to talk to.
    NoActiveServer,
    /// The server process's input pipe is not available.
    StdinUnavailable,
}

/// The descriptive text of each start failure.
pub open spec fn start_error_text(e: StartError) -> Seq<char> {
    match e {
        StartError::AlreadyRunning => "A server is already running"@,
        StartError::JavaBaseUninit => "Java base directory not initialized"@,
        StartError::TunnelBaseUninit => "Tunnel base directory not initialized"@,
        StartError::JavaMissing(p) => "Java not found at "@ + p@,
        StartError::ServerDirMissing(p) => "Server directory not found: "@ + p@,
        StartError::NoForgeJar => "Could not find Forge launch jar"@,
        StartError::TunnelUnresolved => "Failed to obtain tunnel public address"@,
    }
}

impl StartError {
    /// The human-readable description handed to the caller.
    pub fn message(&self) -> (r: String)
        ensures
            r@ == start_error_text(*self),
    {
        match self {
            StartError::AlreadyRunning => String::from_str("A server is already running"),
            StartError::JavaBaseUninit => String::from_str("Java base directory not initialized"),
            StartError::TunnelBaseUninit => String::from_str(
                "Tunnel base directory not initialized",
            ),
            StartError::JavaMissing(p) => {
                let mut t = String::from_str("Java not found at ");
                t.append(p.as_str());
                t
            },
            StartError::ServerDirMissing(p) => {
                let mut t = String::from_str("Server directory not found: ");
                t.append(p.as_str());
                t
            },
            StartError::NoForgeJar => String::from_str("Could not find Forge launch jar"),
            StartError::TunnelUnresolved => String::from_str(
                "Failed to obtain tunnel public address",
            ),
        }
    }
}

impl StopError {
    /// The human-readable description handed to the caller.
    pub fn message(&self) -> (r: String)
        ensures
            r@ == "No active server"@,
    {
        String::from_str("No active server")
    }
}

/// The descriptive text of each command failure.
pub open spec fn command_error_text(e: CommandError) -> Seq<char> {
    match e {
        CommandError::NoActiveServer => "No active server running"@,
        CommandError::StdinUnavailable => "Minecraft stdin not available"@,
    }
}

impl CommandError {
    /// The human-readable description handed to the caller.
    pub fn message(&self) -> (r: String)
        ensures
            r@ == command_error_text(*self),
    {
        match self {
            CommandError::NoActiveServer => String::from_str("No active server running"),
            CommandError::StdinUnavailable => String::from_str("Minecraft stdin not available"),
        }
    }
}

/// The descriptive text of each delete failure.
pub open spec fn delete_error_text(e: DeleteError) -> Seq<char> {
    match e {
        DeleteError::ServerRunning => "Cannot delete a running server"@,
        DeleteError::NotFound => "Server not found"@,
        DeleteError::OutsideBase => "Invalid server path"@,
    }
}

impl DeleteError {
    /// The human-readable description handed to the caller.
    pub fn message(&self) -> (r: String)
        ensures
            r@ == delete_error_text(*self),
    {
        match self {
            DeleteError::ServerRunning => String::from_str("Cannot delete a running server"),
            DeleteError::NotFound => String::from_str("Server not found"),
            DeleteError::OutsideBase => String::from_str("Invalid server path"),
        }
    }
}

/// The orchestrator's shared state: the one active-server slot. The
/// shell keeps a value of this type behind its mutual-exclusion lock.
pub struct Supervisor {
    pub active: Option<ActiveServer>,
}

/// The slot is free, so a start may proceed.
pub open spec fn guard_ok(sup: Supervisor) -> bool {
    sup.active is None
}

/// The state after a claim: unchanged when the slot was occupied,
/// holding the new record when it was free.
pub open spec fn claim_post(sup: Supervisor, rec: ActiveServer) -> Supervisor {
    if guard_ok(sup) {
        Supervisor { active: Some(rec) }
    } else {
        sup
    }
}

impl Supervisor {
    /// A supervisor with nothing running.
    pub fn new() -> (r: Supervisor)
        ensures
            r.active is None,
    {
        Supervisor { active: None }
    }

    /// A read-only snapshot of the active server, without its process
    /// handles.
    pub fn get_active_server(&self) -> (r: Option<ActiveServerInfo>)
        ensures
            r is Some <==> self.active is Some,
            r matches Some(i) ==> i == active_info(self.active.unwrap()),
    {
        match &self.active {
            None => None,
            Some(s) => Some(
                ActiveServerInfo {
                    server_name: s.server_name.clone(),
                    server_id: s.server_id.clone(),
                    public_url: match &s.public_url {
                        Some(u) => Some(u.clone()),
                        None => None,
                    },
                },
            ),
        }
    }

    /// The fast synchronous guard at the head of a start request:
    /// rejects immediately when a server is already running, before
    /// any slow work is attempted.
    pub fn guard_start(&self) -> (r: Result<(), StartError>)
        ensures
            r is Ok <==> guard_ok(*self),
            !guard_ok(*self) ==> r == Result::<(), StartError>::Err(StartError::AlreadyRunning),
    {
        if self.active.is_some() {
            Err(StartError::AlreadyRunning)
        } else {
            Ok(())
        }
    }

    /// The final claim of the slot after all slow work succeeded:
    /// installs the new record when the slot is still free, and
    /// rejects — leaving the existing record untouched — when a
    /// concurrent start won the race.
    pub fn claim_active(&mut self, rec: ActiveServer) -> (r: Result<ActiveServerInfo, StartError>)
        ensures
            *final(self) == claim_post(*old(self), rec),
            r is Ok <==> guard_ok(*old(self)),
            !guard_ok(*old(self)) ==> r == Result::<ActiveServerInfo, StartError>::Err(
                StartError::AlreadyRunning,
            ),
            r matches Ok(i) ==> i == active_info(rec),
    {
        if self.active.is_some() {
            return Err(StartError::AlreadyRunning);
        }
        let info = ActiveServerInfo {
            server_name: rec.server_name.clone(),
            server_id: rec.server_id.clone(),
            public_url: match &rec.public_url {
                Some(u) => Some(u.clone()),
                None => None,
            },
        };
        self.active = Some(rec);
        Ok(info)
    }

    /// Clears the slot and plans the shutdown: write the graceful stop
    /// line to the server's input (when its pipe is open), wait for
    /// the server process, then kill the tunnel process outright.
    /// With nothing running it rejects and performs no operation.
    pub fn stop_server(&mut self) -> (r: Result<StopPlan, StopError>)
        ensures
            old(self).active is None ==> r == Result::<StopPlan, StopError>::Err(
                StopError::NoActiveServer,
            ) && *final(self) == *old(self),
            old(self).active matches Some(s) ==> final(self).active is None && (r matches Ok(p)
                && p.mc_proc == s.mc_proc && p.kill_tunnel == s.tunnel_proc && (p.shutdown_line
                is Some <==> s.mc_proc.stdin_open) && (p.shutdown_line matches Some(l) ==> l@
                == "stop\n"@)),
    {
        match self.active.take() {
            None => Err(StopError::NoActiveServer),
            Some(s) => {
                let shutdown_line = if s.mc_proc.stdin_open {
                    Some(String::from_str("stop\n"))
                } else {
                    None
                };
                Ok(StopPlan { mc_proc: s.mc_proc, shutdown_line, kill_tunnel: s.tunnel_proc })
            },
        }
    }

    /// Plans the injection of one command line into the server
    /// process: the echoed entry observers see, and the line written
    /// to the process's input.
    pub fn send_mc_command(&self, command: &str) -> (r: Result<CommandPlan, CommandError>)
        ensures
            self.active is None ==> r == Result::<CommandPlan, CommandError>::Err(
                CommandError::NoActiveServer,
            ),
            self.active matches Some(s) && !s.mc_proc.stdin_open ==> r == Result::<
                CommandPlan,
                CommandError,
            >::Err(CommandError::StdinUnavailable),
            self.active matches Some(s) && s.mc_proc.stdin_open ==> (r matches Ok(p) && p.echo@
                == "> "@ + command@ && p.line@ == command@ + "\n"@),
    {
        match &self.active {
            None => Err(CommandError::NoActiveServer),
            Some(s) => {
                if !s.mc_proc.stdin_open {
                    return Err(CommandError::StdinUnavailable);
                }
                let mut echo = String::from_str("> ");
                echo.append(command);
                let mut line = String::from_str(command);
                line.append("\n");
                Ok(CommandPlan { echo, line })
            },
        }
    }
}

/// What the shell must do to stop the active server, in order.
pub struct StopPlan {
    /// The server process to wait on.
    pub mc_proc: ProcessHandle,
    /// The graceful shutdown line to write first, when the input pipe
    /// is open.
    pub shutdown_line: Option<String>,
    /// The tunnel process to kill after the server has exited.
    pub kill_tunnel: Option<ProcessHandle>,
}

/// Formats one relayed output line for the log relay's event stream:
/// lines read off a process's error stream are prefixed distinctly,
/// so observers can tell the two streams apart.
pub fn tag_log_line(from_stderr: bool, line: &str) -> (r: String)
    ensures
        from_stderr ==> r@ == "[ERR] "@ + line@,
        !from_stderr ==> r@ == line@,
{
    if from_stderr {
        let mut t = String::from_str("[ERR] ");
        t.append(line);
        t
    } else {
        String::from_str(line)
    }
}

/// What the shell must do to inject one command.
pub struct CommandPlan {
    /// The echoed entry shown to observers before the write.
    pub echo: String,
    /// The line written to the server process's input.
    pub line: String,
}

/// Single-active-server: after a successful start has claimed the
/// slot, a second start before a stop always fails the guard, and a
/// second claim alters nothing.
pub proof fn lemma_single_active_server(first: ActiveServer, second: ActiveServer)
    ensures
        ({
            let sup = claim_post(Supervisor { active: None }, first);
            &&& sup.active == Some(first)
            &&& !guard_ok(sup)
            &&& claim_post(sup, second) == sup
        }),
{
}

/// Reads the Java base directory out of the shared state's optional
/// slot: an error when startup never initialized it, before any
/// process is spawned.
pub fn java_base_dir(dir: &Option<String>) -> (r: Result<String, StartError>)
    ensures
        r is Ok <==> dir is Some,
        dir matches Some(d) ==> (r matches Ok(s) && s == d),
        dir is None ==> r == Result::<String, StartError>::Err(StartError::JavaBaseUninit),
{
    match dir {
        Some(d) => Ok(d.clone()),
        None => Err(StartError::JavaBaseUninit),
    }
}

/// Reads a tunnel provider's base directory out of the shared state's
/// optional slot: an error when startup never initialized it, before
/// any process is spawned.
pub fn tunnel_base_dir(dir: &Option<String>) -> (r: Result<String, StartError>)
    ensures
        r is Ok <==> dir is Some,
        dir matches Some(d) ==> (r matches Ok(s) && s == d),
        dir is None ==> r == Result::<String, StartError>::Err(StartError::TunnelBaseUninit),
{
    match dir {
        Some(d) => Ok(d.clone()),
        None => Err(StartError::TunnelBaseUninit),
    }
}

/// Decides the tunnel half of a start from the optionally resolved
/// public address: the address on success; failing to obtain one is a
/// start failure, though the already-spawned server process is left
/// running.
pub fn tunnel_address_outcome(addr: &Option<String>) -> (r: Result<String, StartError>)
    ensures
        addr matches Some(u) ==> (r matches Ok(s) && s == u),
        addr is None ==> r == Result::<String, StartError>::Err(StartError::TunnelUnresolved),
{
    match addr {
        Some(u) => Ok(u.clone()),
        None => Err(StartError::TunnelUnresolved),
    }
}

/// Why a delete request was rejected.
#[derive(Debug, Clone, Copy, PartialEq, Eq, Structural)]
pub enum DeleteError {
    /// The server is the one currently running.
    ServerRunning,
    /// No known server has the given identifier.
    NotFound,
    /// The server's recorded path lies outside the servers directory.
    OutsideBase,
}

/// The requested server is the active one.
pub open spec fn deleting_active(sup: Supervisor, server_id: Seq<char>) -> bool {
    sup.active matches Some(a) && a.server_id@ == server_id
}

/// The path lies inside the base directory as a path: it is the base
/// itself, or extends it past a separator. A mere character prefix
/// (a sibling like the base's name with a suffix) does not count.
pub open spec fn path_within(p: Seq<char>, base: Seq<char>) -> bool {
    p == base || has_prefix(p, base + "/"@)
}

/// Plans the deletion of a server: rejected while that server runs;
/// otherwise the first known server with the identifier names the
/// directory to remove, which must lie under the servers base
/// directory. Returns the path to delete; the deletion itself is the
/// shell's.
pub fn delete_server(
    sup: &Supervisor,
    servers: &Vec<ServerConfig>,
    server_id: &str,
    base: &str,
) -> (r: Result<String, DeleteError>)
    ensures
        deleting_active(*sup, server_id@) ==> r == Result::<String, DeleteError>::Err(
            DeleteError::ServerRunning,
        ),
        !deleting_active(*sup, server_id@) ==> {
            &&& (r == Result::<String, DeleteError>::Err(DeleteError::NotFound) <==> forall|i: int|
                0 <= i < servers@.len() ==> (#[trigger] servers@[i].id)@ != server_id@)
            &&& (r matches Ok(s) ==> exists|i: int|
                0 <= i < servers@.len() && (#[trigger] servers@[i].id)@ == server_id@ && (forall|
                    j: int,
                |
                    0 <= j < i ==> (#[trigger] servers@[j].id)@ != server_id@) && path_within(
                    servers@[i].path@,
                    base@,
                ) && s@ == servers@[i].path@)
            &&& (r == Result::<String, DeleteError>::Err(DeleteError::OutsideBase) ==> exists|
                i: int,
            |
                0 <= i < servers@.len() && (#[trigger] servers@[i].id)@ == server_id@ && (forall|
                    j: int,
                |
                    0 <= j < i ==> (#[trigger] servers@[j].id)@ != server_id@) && !path_within(
                    servers@[i].path@,
                    base@,
                ))
            &&& (r is Ok || r == Result::<String, DeleteError>::Err(DeleteError::NotFound) || r
                == Result::<String, DeleteError>::Err(DeleteError::OutsideBase))
        },
{
    let running_same = match &sup.active {
        Some(a) => str_eq(a.server_id.as_str(), server_id),
        None => false,
    };
    proof {
        assert(running_same == deleting_active(*sup, server_id@));
    }
    if running_same {
        return Err(DeleteError::ServerRunning);
    }
    let mut i: usize = 0;
    while i < servers.len()
        invariant
            !deleting_active(*sup, server_id@),
            i <= servers@.len(),
            forall|j: int| 0 <= j < i ==> (#[trigger] servers@[j].id)@ != server_id@,
        decreases servers@.len() - i,
    {
        if str_eq(servers[i].id.as_str(), server_id) {
            let same = str_eq(servers[i].path.as_str(), base);
            let mut boundary = String::from_str(base);
            boundary.append("/");
            let extends = str_starts_with(servers[i].path.as_str(), boundary.as_str());
            let within = same || extends;
            proof {
                assert(boundary@ =~= base@ + "/"@);
                assert(within == path_within(servers@[i as int].path@, base@));
                assert((servers@[i as int].id)@ == server_id@);
            }
            if within {
                return Ok(servers[i].path.clone());
            } else {
                return Err(DeleteError::OutsideBase);
            }
        }
        i = i + 1;
    }
    Err(DeleteError::NotFound)
}

/// A file name recognizable as the launch jar of a Forge server:
/// either the shim jar of newer Forge layouts or the universal jar of
/// older ones.
pub open spec fn is_forge_entry(n: Seq<char>) -> bool {
    has_sub(n, "shim.jar"@) || (has_sub(n, "forge-"@) && has_sub(n, "universal.jar"@))
}

/// Scans a server directory's file names for the Forge launch jar,
/// returning the first recognizable one.
pub fn find_forge_entry(names: &Vec<String>) -> (r: Result<String, StartError>)
    ensures
        r is Ok <==> exists|i: int| 0 <= i < names@.len() && is_forge_entry(#[trigger] names@[i]@),
        r matches Ok(s) ==> exists|i: int|
            0 <= i < names@.len() && s@ == #[trigger] names@[i]@ && is_forge_entry(names@[i]@)
                && forall|j: int| 0 <= j < i ==> !is_forge_entry(#[trigger] names@[j]@),
        r is Err ==> r == Result::<String, StartError>::Err(StartError::NoForgeJar),
{
    let mut i: usize = 0;
    while i < names.len()
        invariant
            i <= names@.len(),
            forall|j: int| 0 <= j < i ==> !is_forge_entry(#[trigger] names@[j]@),
        decreases names@.len() - i,
    {
        let name = &names[i];
        if str_contains(name.as_str(), "shim.jar") {
            return Ok(name.clone());
        }
        if str_contains(name.as_str(), "forge-") && str_contains(name.as_str(), "universal.jar") {
            return Ok(name.clone());
        }
        i = i + 1;
    }
    Err(StartError::NoForgeJar)
}

/// The jar the Java process is launched with: the fixed server jar for
/// vanilla and Fabric servers, the scanned launch jar for Forge.
pub fn entry_jar(loader: LoaderType, dir_files: &Vec<String>) -> (r: Result<String, StartError>)
    ensures
        loader != LoaderType::Forge ==> (r matches Ok(s) && s@ == "server.jar"@),
        loader == LoaderType::Forge ==> {
            &&& r is Ok <==> exists|i: int|
                0 <= i < dir_files@.len() && is_forge_entry(#[trigger] dir_files@[i]@)
            &&& (r matches Ok(s) ==> exists|i: int|
                0 <= i < dir_files@.len() && s@ == #[trigger] dir_files@[i]@ && is_forge_entry(
                    dir_files@[i]@,
                ) && forall|j: int| 0 <= j < i ==> !is_forge_entry(#[trigger] dir_files@[j]@))
            &&& (r is Err ==> r == Result::<String, StartError>::Err(StartError::NoForgeJar))
        },
{
    match loader {
        LoaderType::Vanilla => Ok(String::from_str("server.jar")),
        LoaderType::Fabric => Ok(String::from_str("server.jar")),
        LoaderType::Forge => find_forge_entry(dir_files),
    }
}

/// The argument vector of the server's Java process: equal minimum and
/// maximum heap flags from the configured allocation, then the entry
/// jar, headless.
pub fn launch_args(ram_gb: u8, entry: &str) -> (r: Vec<String>)
    ensures
        r@.len() == 5,
        r@[0]@ == "-Xmx"@ + dec_str(ram_gb as nat) + "G"@,
        r@[1]@ == "-Xms"@ + dec_str(ram_gb as nat) + "G"@,
        r@[2]@ == "-jar"@,
        r@[3]@ == entry@,
        r@[4]@ == "nogui"@,
{
    let ram = u64_to_string(ram_gb as u64);
    let mut xmx = String::from_str("-Xmx");
    xmx.append(ram.as_str());
    xmx.append("G");
    let mut xms = String::from_str("-Xms");
    xms.append(ram.as_str());
    xms.append("G");
    let mut v: Vec<String> = Vec::new();
    v.push(xmx);
    v.push(xms);
    v.push(String::from_str("-jar"));
    v.push(String::from_str(entry));
    v.push(String::from_str("nogui"));
    v
}

/// How the server process is spawned: program, arguments and working
/// directory, with all three stdio streams captured as pipes.
pub struct LaunchPlan {
    pub program: String,
    pub args: Vec<String>,
    pub cwd: String,
}

/// Plans the spawn of a server's Java process: the binary of the Java
/// family its Minecraft version requires, the heap flags from its
/// memory allocation, and its loader's entry jar, run inside the
/// server's own directory.
pub fn plan_launch(
    config: &ServerConfig,
    java_base: &str,
    platform: Platform,
    server_dir_files: &Vec<String>,
) -> (r: Result<LaunchPlan, StartError>)
    ensures
        r is Ok <==> (config.loader != LoaderType::Forge || exists|i: int|
            0 <= i < server_dir_files@.len() && is_forge_entry(#[trigger] server_dir_files@[i]@)),
        r matches Ok(p) ==> {
            &&& p.program@ == java_install_dir_of(java_base@, required_java(config.version@))
                + "/"@ + java_bin_rel(platform)
            &&& p.cwd@ == config.path@
            &&& p.args@.len() == 5
            &&& p.args@[0]@ == "-Xmx"@ + dec_str(config.ram_gb as nat) + "G"@
            &&& p.args@[1]@ == "-Xms"@ + dec_str(config.ram_gb as nat) + "G"@
            &&& p.args@[2]@ == "-jar"@
            &&& p.args@[4]@ == "nogui"@
            &&& (config.loader != LoaderType::Forge ==> p.args@[3]@ == "server.jar"@)
            &&& (config.loader == LoaderType::Forge ==> exists|i: int|
                0 <= i < server_dir_files@.len() && p.args@[3]@ == #[trigger] server_dir_files@[i]@
                    && is_forge_entry(server_dir_files@[i]@) && forall|j: int|
                    0 <= j < i ==> !is_forge_entry(#[trigger] server_dir_files@[j]@))
        },
        r is Err ==> r == Result::<LaunchPlan, StartError>::Err(StartError::NoForgeJar),
{
    let version = require_java(config.version.as_str());
    let program = java_binary(java_base, version, platform);
    let entry = match entry_jar(config.loader, server_dir_files) {
        Ok(e) => e,
        Err(e) => {
            return Err(e);
        },
    };
    let args = launch_args(config.ram_gb, entry.as_str());
    Ok(LaunchPlan { program, args, cwd: config.path.clone() })
}

} // verus!
