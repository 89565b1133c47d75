//! Interactive runtime for a terminal browser of geospatial layer metadata.
//!
//! The crate holds the event-driven core of the application: the action
//! vocabulary, multi-key keybinding resolution, a focus ring over a set of
//! stateful panels, the action queue, and the application loop's state
//! machine.  Terminal I/O, rendering, and the geospatial data extraction are
//! collaborators that live outside this crate and talk to it through plain
//! values.
pub mod action;
pub mod app;
pub mod channel;
pub mod components;
pub mod data;
pub mod key;
pub mod keymap;
pub mod text;
