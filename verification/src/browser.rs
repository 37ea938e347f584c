//! The browser shell's logic: URLs, internal pages, connectors,
//! fingerprint presets, the product graph.
pub mod url;
pub mod connector;
pub mod internal;
pub mod products;
pub mod html;
pub mod engine;
pub mod shell;
pub mod fingerprint;
pub mod input;
pub mod text;
