//! Core logic of a minimal graphical login/session manager: allocation of
//! virtual terminals, session lifecycle and crash classification, selection of
//! a display output and rendering configuration, device-discovery policy, and
//! desktop-session descriptor handling.
//!
//! The process-facing plumbing (device nodes, ioctls, process spawning, EGL and
//! GBM calls) lives outside this crate; this crate holds the decisions those
//! layers carry out, each with a verified contract.

pub mod desktop;
pub mod drm;
pub mod session_manager;
pub mod tty;
