//! Update lifecycle for proxy-tool profiles.
//!
//! A profile is a named configuration bundle, either stored locally or
//! sourced from a remote subscription URL. Refreshing a remote profile may
//! fail when no direct network route exists; the library then drives a
//! second, fallback fetch routed through the proxy core's own outbound
//! path, restores the caller's original routing intent on success, and
//! decides when the running core must reload its configuration.
//!
//! The fetch itself, the core reload, and every other outward effect are
//! performed by the caller: the library supplies the verified decision
//! logic — which request to issue next, what to persist, which
//! notification to emit, and whether to reload.

pub mod fallback;
pub mod notify;
pub mod options;
pub mod profile;
pub mod update;
