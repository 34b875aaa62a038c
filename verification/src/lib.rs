//! Verified core of a Rust client for the Playwright browser-automation
//! protocol: selector and option builders, URL globs, assertion and event
//! bookkeeping, and the driver download coordinates. The parts that talk to
//! the Playwright server live outside this crate and hand plain values in.

pub mod text;
pub mod assertions;
pub mod context;
pub mod context_events;
pub mod credentials;
pub mod bindings;
pub mod browser;
pub mod emulation;
pub mod error;
pub mod event_registry;
pub mod locator;
pub mod locator_handler;
pub mod navigation;
pub mod network;
pub mod page_state;
pub mod response;
pub mod driver_urls;
pub mod node_archive;
pub mod glob;
