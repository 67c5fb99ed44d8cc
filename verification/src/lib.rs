//! A local proxy gateway core: a SOCKS5 inbound handshake machine, outbound
//! handler construction (direct TCP, Trojan over TLS, VMess over WebSocket),
//! the byte-stream adapter for message-framed transports, and the routing
//! runtime that maps a group name to its currently selected outbound.
pub mod assoc;
pub mod bytesfmt;
pub mod config;
pub mod direct;
pub mod fake;
pub mod proxy_group;
pub mod proxy_manager;
pub mod runtime;
pub mod socks5;
pub mod trojan;
pub mod vmess;
pub mod ws_wrapper;
