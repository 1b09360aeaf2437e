//! Configuration and shared application state.

use vstd::prelude::*;
use vstd::string::StringExecFns;

verus! {

/// Application configuration, as persisted by the shell.
#[derive(Debug, Clone)]
pub struct AppConfig {
    /// Path of the game installation, when known.
    pub osu_path: Option<String>,
    /// Start the application at boot.
    pub start_at_boot: bool,
    /// Keep running in the tray when the window closes.
    pub minimize_to_tray: bool,
    /// Start with the window hidden.
    pub start_minimized: bool,
    /// Verbose logging.
    pub debug_logging: bool,
    /// The proxy's own settings.
    pub proxy: ProxyConfig,
}

impl Default for AppConfig {
    fn default() -> (r: Self)
        ensures
            r.osu_path is None,
            !r.start_at_boot,
            r.minimize_to_tray,
            !r.start_minimized,
            !r.debug_logging,
            r.proxy.http_port == 80,
            !r.proxy.inject_supporter,
            r.proxy.api_base_url@ == "https://api.rai.moe"@,
            r.proxy.direct_base_url@ == "https://direct.rai.moe"@,
    {
        AppConfig {
            osu_path: None,
            start_at_boot: false,
            minimize_to_tray: true,
            start_minimized: false,
            debug_logging: false,
            proxy: ProxyConfig::default(),
        }
    }
}

/// Settings of the proxy listeners; immutable once the proxy starts.
#[derive(Debug, Clone)]
pub struct ProxyConfig {
    /// Port of the HTTP listener.
    pub http_port: u16,
    /// Rewrite `UserPrivileges` packets in chat-host responses so the
    /// client unlocks its beatmap-search UI.
    pub inject_supporter: bool,
    /// Base URL of the mirror API.
    pub api_base_url: String,
    /// Base URL for mirror downloads and search.
    pub direct_base_url: String,
}

impl Default for ProxyConfig {
    fn default() -> (r: Self)
        ensures
            r.http_port == 80,
            !r.inject_supporter,
            r.api_base_url@ == "https://api.rai.moe"@,
            r.direct_base_url@ == "https://direct.rai.moe"@,
    {
        ProxyConfig {
            http_port: 80,
            inject_supporter: false,
            api_base_url: String::from_str("https://api.rai.moe"),
            direct_base_url: String::from_str("https://direct.rai.moe"),
        }
    }
}

/// Connection state of the proxy.
#[derive(Debug, Clone, Copy, PartialEq, Eq, Structural)]
pub enum ConnectionStatus {
    /// No listener is running.
    Disconnected,
    /// Listeners are starting.
    Connecting,
    /// Listeners are up.
    Connected,
    /// The last start failed.
    Error,
}

impl Default for ConnectionStatus {
    fn default() -> (r: Self)
        ensures
            r == ConnectionStatus::Disconnected,
    {
        ConnectionStatus::Disconnected
    }
}

/// Shared application state: status, statistics and the last error.
#[derive(Debug, Clone)]
pub struct AppState {
    /// Connection state of the proxy.
    pub status: ConnectionStatus,
    /// Whether the game process is running.
    pub osu_running: bool,
    /// Requests forwarded so far; never decreases.
    pub requests_proxied: u64,
    /// Beatmap downloads served so far; never decreases.
    pub beatmaps_downloaded: u64,
    /// The most recent error, if any.
    pub last_error: Option<String>,
}

impl Default for AppState {
    fn default() -> (r: Self)
        ensures
            r.status == ConnectionStatus::Disconnected,
            !r.osu_running,
            r.requests_proxied == 0,
            r.beatmaps_downloaded == 0,
            r.last_error is None,
    {
        AppState {
            status: ConnectionStatus::Disconnected,
            osu_running: false,
            requests_proxied: 0,
            beatmaps_downloaded: 0,
            last_error: None,
        }
    }
}

} // verus!
