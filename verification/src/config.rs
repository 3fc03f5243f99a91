//! Static descriptions of a provisionable server and the editable
//! subset of its persisted configuration.

use vstd::prelude::*;

verus! {

/// The mod-loader kind a server was created with.
#[derive(Debug, Clone, Copy, PartialEq, Eq, Structural)]
pub enum LoaderType {
    Vanilla,
    Fabric,
    Forge,
}

/// The available tunnel providers.
#[derive(Debug, Clone, Copy, PartialEq, Eq, Structural)]
pub enum TunnelProvider {
    Playit,
    Ngrok,
}

/// Whether a server wants a public tunnel, and through which provider.
#[derive(Debug, Clone, Copy, PartialEq, Eq, Structural)]
pub struct TunnelConfig {
    pub enabled: bool,
    pub provider: TunnelProvider,
}

impl Default for TunnelConfig {
    /// A fresh tunnel configuration: disabled, with the playit
    /// provider preselected.
    fn default() -> (r: Self)
        ensures
            r == (TunnelConfig { enabled: false, provider: TunnelProvider::Playit }),
    {
        TunnelConfig { enabled: false, provider: TunnelProvider::Playit }
    }
}

/// The static description of one provisionable server, read at start
/// time and never mutated by the core.
#[derive(Debug, Clone)]
pub struct ServerConfig {
    /// Stable identifier.
    pub id: String,
    /// Display name.
    pub name: String,
    /// Minecraft version the server runs.
    pub version: String,
    /// Mod-loader kind.
    pub loader: LoaderType,
    /// Memory allocation handed to the Java process, in gigabytes.
    pub ram_gb: u8,
    /// Filesystem path of the server directory.
    pub path: String,
    /// Creation timestamp (seconds since the epoch).
    pub created_at: i64,
    /// Optional tunnel request.
    pub tunnel: Option<TunnelConfig>,
}

/// The fields of a server's persisted configuration that may be edited
/// after creation.
#[derive(Debug, Clone)]
pub struct EditableServerConfig {
    pub name: String,
    pub ram_gb: u8,
    pub tunnel: TunnelConfig,
}

impl Default for EditableServerConfig {
    /// A fresh editable configuration: no name yet, two gigabytes of
    /// memory, tunnel disabled.
    fn default() -> (r: Self)
        ensures
            r.name@ == Seq::<char>::empty(),
            r.ram_gb == 2,
            r.tunnel == (TunnelConfig { enabled: false, provider: TunnelProvider::Playit }),
    {
        EditableServerConfig {
            name: String::new(),
            ram_gb: 2,
            tunnel: TunnelConfig { enabled: false, provider: TunnelProvider::Playit },
        }
    }
}

/// Projects the editable fields out of a full configuration; an absent
/// tunnel section reads as the default.
pub fn read_server_config(full: &ServerConfig) -> (r: EditableServerConfig)
    ensures
        r.name == full.name,
        r.ram_gb == full.ram_gb,
        full.tunnel matches Some(t) ==> r.tunnel == t,
        full.tunnel is None ==> r.tunnel == (TunnelConfig {
            enabled: false,
            provider: TunnelProvider::Playit,
        }),
{
    let tunnel = match &full.tunnel {
        Some(t) => *t,
        None => TunnelConfig { enabled: false, provider: TunnelProvider::Playit },
    };
    EditableServerConfig { name: full.name.clone(), ram_gb: full.ram_gb, tunnel }
}

/// Writes the editable fields back into a full configuration, leaving
/// every other field as it was.
pub fn update_server_config(full: &mut ServerConfig, props: EditableServerConfig)
    ensures
        final(full).name == props.name,
        final(full).ram_gb == props.ram_gb,
        final(full).tunnel == Some(props.tunnel),
        final(full).id == old(full).id,
        final(full).version == old(full).version,
        final(full).loader == old(full).loader,
        final(full).path == old(full).path,
        final(full).created_at == old(full).created_at,
{
    full.name = props.name;
    full.ram_gb = props.ram_gb;
    full.tunnel = Some(props.tunnel);
}

} // verus!
