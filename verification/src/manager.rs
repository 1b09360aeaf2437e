//! Proxy lifecycle: the state machine over `AppState.status` and the
//! shared statistics counters.
//!
//! The listeners themselves are asynchronous; the decisions they need
//! are pure transitions on this type.  `start` splits into
//! [`ProxyManager::start_begin`], called before the listeners are
//! spawned, and [`ProxyManager::start_complete`], called once readiness
//! is known (or its timeout has passed).

use vstd::prelude::*;
use vstd::string::StringExecFns;
use crate::config::{AppState, ConnectionStatus, ProxyConfig};

verus! {

/// Owns the proxy's shared state and its configuration.
pub struct ProxyManager {
    /// The shared application state.
    pub state: AppState,
    /// The proxy configuration, fixed at construction.
    pub config: ProxyConfig,
}

impl ProxyManager {
    /// A manager in the initial state: disconnected, zero counters.
    pub fn new(config: ProxyConfig) -> (r: Self)
        ensures
            r.state.status == ConnectionStatus::Disconnected,
            !r.state.osu_running,
            r.state.requests_proxied == 0,
            r.state.beatmaps_downloaded == 0,
            r.state.last_error is None,
            r.config == config,
    {
        ProxyManager { state: AppState::default(), config }
    }

    /// The current connection status.
    pub fn status(&self) -> (r: ConnectionStatus)
        ensures
            r == self.state.status,
    {
        self.state.status
    }

    /// First half of `start`: a no-op when already connected (the result
    /// is `true`); otherwise moves to `Connecting` and clears the last
    /// error.  Counters never decrease.
    pub fn start_begin(&mut self) -> (already_connected: bool)
        ensures
            already_connected == (old(self).state.status == ConnectionStatus::Connected),
            already_connected ==> *final(self) == *old(self),
            !already_connected ==> final(self).state.status == ConnectionStatus::Connecting,
            !already_connected ==> final(self).state.last_error is None,
            final(self).config == old(self).config,
            final(self).state.requests_proxied == old(self).state.requests_proxied,
            final(self).state.beatmaps_downloaded == old(self).state.beatmaps_downloaded,
            final(self).state.osu_running == old(self).state.osu_running,
            final(self).state.requests_proxied >= old(self).state.requests_proxied,
            final(self).state.beatmaps_downloaded >= old(self).state.beatmaps_downloaded,
    {
        if self.status() == ConnectionStatus::Connected {
            return true;
        }
        self.state.status = ConnectionStatus::Connecting;
        self.state.last_error = None;
        false
    }

    /// Second half of `start`: with both listeners ready in time the
    /// proxy is `Connected`; otherwise it is in `Error` with the timeout
    /// message as the last error, and the same message is returned.
    /// Counters never decrease.
    pub fn start_complete(&mut self, ready: bool) -> (r: Result<(), String>)
        ensures
            ready ==> r is Ok && final(self).state.status == ConnectionStatus::Connected
                && final(self).state.last_error == old(self).state.last_error,
            !ready ==> final(self).state.status == ConnectionStatus::Error,
            !ready ==> (final(self).state.last_error matches Some(e) && e@
                == "Failed to start proxy: port binding timeout"@),
            !ready ==> (r matches Err(e) && e@ == "Failed to start proxy: port binding timeout"@),
            final(self).config == old(self).config,
            final(self).state.requests_proxied == old(self).state.requests_proxied,
            final(self).state.beatmaps_downloaded == old(self).state.beatmaps_downloaded,
            final(self).state.osu_running == old(self).state.osu_running,
            final(self).state.requests_proxied >= old(self).state.requests_proxied,
            final(self).state.beatmaps_downloaded >= old(self).state.beatmaps_downloaded,
    {
        if ready {
            self.state.status = ConnectionStatus::Connected;
            Ok(())
        } else {
            self.state.status = ConnectionStatus::Error;
            self.state.last_error = Some(String::from_str("Failed to start proxy: port binding timeout"));
            Err(String::from_str("Failed to start proxy: port binding timeout"))
        }
    }

    /// Stops the proxy: the status returns to `Disconnected`.  Counters
    /// never decrease.
    pub fn stop(&mut self)
        ensures
            final(self).state.status == ConnectionStatus::Disconnected,
            final(self).state.last_error == old(self).state.last_error,
            final(self).config == old(self).config,
            final(self).state.requests_proxied == old(self).state.requests_proxied,
            final(self).state.beatmaps_downloaded == old(self).state.beatmaps_downloaded,
            final(self).state.osu_running == old(self).state.osu_running,
            final(self).state.requests_proxied >= old(self).state.requests_proxied,
            final(self).state.beatmaps_downloaded >= old(self).state.beatmaps_downloaded,
    {
        self.state.status = ConnectionStatus::Disconnected;
    }

    /// Counts one forwarded request.  The counter grows by exactly one
    /// and never decreases.
    pub fn increment_requests(&mut self)
        requires
            old(self).state.requests_proxied < u64::MAX,
        ensures
            final(self).state.requests_proxied == old(self).state.requests_proxied + 1,
            final(self).state.requests_proxied >= old(self).state.requests_proxied,
            final(self).state.beatmaps_downloaded == old(self).state.beatmaps_downloaded,
            final(self).state.status == old(self).state.status,
            final(self).state.last_error == old(self).state.last_error,
            final(self).state.osu_running == old(self).state.osu_running,
            final(self).config == old(self).config,
    {
        self.state.requests_proxied = self.state.requests_proxied + 1;
    }

    /// Counts one served beatmap download.  The counter grows by exactly
    /// one and never decreases.
    pub fn increment_downloads(&mut self)
        requires
            old(self).state.beatmaps_downloaded < u64::MAX,
        ensures
            final(self).state.beatmaps_downloaded == old(self).state.beatmaps_downloaded + 1,
            final(self).state.beatmaps_downloaded >= old(self).state.beatmaps_downloaded,
            final(self).state.requests_proxied == old(self).state.requests_proxied,
            final(self).state.status == old(self).state.status,
            final(self).state.last_error == old(self).state.last_error,
            final(self).state.osu_running == old(self).state.osu_running,
            final(self).config == old(self).config,
    {
        self.state.beatmaps_downloaded = self.state.beatmaps_downloaded + 1;
    }

    /// Records an error: the status becomes `Error` and the message is
    /// kept as the last error.  Counters never decrease.
    pub fn set_error(&mut self, error: String)
        ensures
            final(self).state.status == ConnectionStatus::Error,
            final(self).state.last_error == Some(error),
            final(self).config == old(self).config,
            final(self).state.requests_proxied == old(self).state.requests_proxied,
            final(self).state.beatmaps_downloaded == old(self).state.beatmaps_downloaded,
            final(self).state.osu_running == old(self).state.osu_running,
            final(self).state.requests_proxied >= old(self).state.requests_proxied,
            final(self).state.beatmaps_downloaded >= old(self).state.beatmaps_downloaded,
    {
        self.state.status = ConnectionStatus::Error;
        self.state.last_error = Some(error);
    }
}

} // verus!
