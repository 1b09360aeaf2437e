//! Core logic of a local intercepting proxy for the osu! client.
//!
//! The library covers the Bancho packet codec, the request routing rules,
//! the supporter-injection transform, the TCP relay step, the proxy
//! lifecycle state machine, hosts-file editing, certificate handling and
//! the small pure helpers around them.  All executable code in this crate
//! is verified against the contracts written on it.

pub mod config;
pub mod hosts;
pub mod http_proxy;
pub mod logging;
pub mod manager;
pub mod osu;
pub mod packet;
pub mod routing;
pub mod strings;
pub mod tcp_proxy;
pub mod tls;
