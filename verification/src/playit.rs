//! The playit tunnel agent dependency: its on-disk layout, download
//! locations, health verification, and the command that launches it.
//! The agent is not available on macOS.

use vstd::prelude::*;
use crate::text::path_join;
use crate::platform::{Platform, is_mac, platform_is_mac};
use crate::store::{DepState, InstallError, dep_installed, healthy, verify_post};

verus! {

/// The file name of the agent binary on a platform.
pub open spec fn playit_binary_name_of(p: Platform) -> Seq<char> {
    if p == Platform::Windows {
        "playit.exe"@
    } else {
        "playit"@
    }
}

/// The platform-specific file name of the agent binary.
pub fn playit_binary_name(platform: Platform) -> (r: &'static str)
    ensures
        r@ == playit_binary_name_of(platform),
{
    match platform {
        Platform::Windows => "playit.exe",
        _ => "playit",
    }
}

/// The path of the agent binary under its base directory.
pub open spec fn playit_binary_of(base: Seq<char>, p: Platform) -> Seq<char> {
    base + "/"@ + playit_binary_name_of(p)
}

/// Computes the path of the agent binary.
pub fn playit_binary(base: &str, platform: Platform) -> (r: String)
    ensures
        r@ == playit_binary_of(base@, platform),
{
    path_join(base, playit_binary_name(platform))
}

/// Computes the path of the agent's install-in-progress marker.
pub fn installing_marker(base: &str) -> (r: String)
    ensures
        r@ == base@ + "/"@ + ".installing"@,
{
    path_join(base, ".installing")
}

/// Computes the path of the agent's transient download beside its
/// binary.
pub fn zip_path(base: &str) -> (r: String)
    ensures
        r@ == base@ + "/"@ + "playit.zip"@,
{
    path_join(base, "playit.zip")
}

/// The download location of the agent binary: one prebuilt binary per
/// supported platform, none on macOS.
pub open spec fn playit_url_of(p: Platform) -> Option<Seq<char>> {
    match p {
        Platform::Windows => Some(
            "https://github.com/playit-cloud/playit-agent/releases/latest/download/playit-windows-x86_64.exe"@,
        ),
        Platform::LinuxX64 => Some(
            "https://github.com/playit-cloud/playit-agent/releases/latest/download/playit-linux-amd64"@,
        ),
        Platform::MacX64 => None,
        Platform::MacArm => None,
    }
}

/// The platform-specific download location of the agent binary; none
/// on macOS, where the agent is unsupported.
pub fn playit_download_url(platform: Platform) -> (r: Option<&'static str>)
    ensures
        r is Some <==> playit_url_of(platform) is Some,
        r matches Some(u) ==> playit_url_of(platform) == Some(u@),
{
    match platform {
        Platform::Windows => Some(
            "https://github.com/playit-cloud/playit-agent/releases/latest/download/playit-windows-x86_64.exe",
        ),
        Platform::LinuxX64 => Some(
            "https://github.com/playit-cloud/playit-agent/releases/latest/download/playit-linux-amd64",
        ),
        Platform::MacX64 => None,
        Platform::MacArm => None,
    }
}

/// Whether an install of the agent can be attempted at all: it cannot
/// on macOS, where no agent binary is published.
pub fn playit_install_supported(platform: Platform) -> (r: Result<(), InstallError>)
    ensures
        r is Ok <==> !is_mac(platform),
        is_mac(platform) ==> r == Result::<(), InstallError>::Err(InstallError::Unsupported),
{
    if platform_is_mac(platform) {
        Err(InstallError::Unsupported)
    } else {
        Ok(())
    }
}

/// The health verifier of the agent: on macOS always "not installed"
/// with no side effect; elsewhere it checks the marker, the binary's
/// presence and its liveness, and destructively purges the agent's
/// directory on any failure.
pub fn playit_installed(st: &mut DepState, platform: Platform) -> (r: bool)
    ensures
        is_mac(platform) ==> !r && *final(st) == *old(st),
        !is_mac(platform) ==> r == healthy(*old(st)) && *final(st) == verify_post(*old(st)),
{
    if platform_is_mac(platform) {
        false
    } else {
        dep_installed(st)
    }
}

/// How the agent process is launched on a platform: the program, its
/// arguments, and whether it must get a console of its own.
pub struct SpawnPlan {
    pub program: String,
    pub args: Vec<String>,
    pub new_console: bool,
}

/// Plans the launch of the agent process. On Windows the agent binary
/// runs directly in a fresh console; on Linux it runs inside the
/// standard terminal emulator; on macOS starting it is an error.
pub fn start_playit(base: &str, platform: Platform) -> (r: Result<SpawnPlan, InstallError>)
    ensures
        r is Ok <==> !is_mac(platform),
        is_mac(platform) ==> r == Result::<SpawnPlan, InstallError>::Err(InstallError::Unsupported),
        r matches Ok(plan) ==> match platform {
            Platform::Windows => plan.program@ == playit_binary_of(base@, platform)
                && plan.args@.len() == 0 && plan.new_console,
            Platform::LinuxX64 => plan.program@ == "x-terminal-emulator"@ && plan.args@.len() == 2
                && plan.args@[0]@ == "-e"@ && plan.args@[1]@ == playit_binary_of(base@, platform)
                && !plan.new_console,
            _ => false,
        },
{
    match platform {
        Platform::Windows => {
            let bin = playit_binary(base, platform);
            Ok(SpawnPlan { program: bin, args: Vec::new(), new_console: true })
        },
        Platform::LinuxX64 => {
            let bin = playit_binary(base, platform);
            let mut args: Vec<String> = Vec::new();
            args.push(String::from_str("-e"));
            args.push(bin);
            Ok(SpawnPlan { program: String::from_str("x-terminal-emulator"), args, new_console: false })
        },
        _ => Err(InstallError::Unsupported),
    }
}

} // verus!
