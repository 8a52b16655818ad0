//! A verified menu registry for a desktop GUI shell.
//!
//! The library declares a static hierarchy of named, identifiable commands
//! grouped into submenus, each command optionally carrying a keyboard
//! accelerator.  It validates the hierarchy (unique command ids, well-formed
//! accelerator strings), resolves platform-dependent accelerator modifiers,
//! maps command ids to abstract actions, and decides when a debug logging
//! plugin is to be registered.  Rendering the menu and running the event loop
//! belong to the host windowing framework, outside this crate.

pub mod accel;
pub mod menu;
pub mod plugin;
pub mod registry;
