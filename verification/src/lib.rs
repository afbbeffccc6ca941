//! A single-binary application host: the verified core of a server that
//! embeds a web frontend, materialises it at startup, supervises the child
//! process, and dispatches requests between an embedded static-asset layer
//! and a reverse proxy.
//!
//! This crate holds the decision logic: build-mode classification and
//! delivery-strategy selection, the static-asset tree and media types,
//! ANSI stripping of child log lines, readiness detection, port selection,
//! proxy configuration values, and launch plans for the frontend child.
//! Process spawning, filesystem extraction and the HTTP stack live outside,
//! driven by the plans and decisions computed here.

pub mod ansi;
pub mod assets;
pub mod environment;
pub mod host;
pub mod ports;
pub mod proxy;
pub mod supervisor;
pub mod text;

pub use environment::Environment;
