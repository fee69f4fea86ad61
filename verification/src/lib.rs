//! Presentation-state synchronizer for a WYSIWYG editor's object inspector.
//!
//! The inspector keeps three views consistent with an externally owned
//! project model: a struct selector, a list of controls belonging to the
//! selected struct, and a list of properties for the selected control.
//! This crate holds the synchronization core as an explicit state object:
//! which rows exist, in which order, which entry is selected, and which
//! interactive state (enabled or disabled) the views are in. The widget
//! substrate that renders the state lives outside the library and is driven
//! by the primitive view operations the core hands out.

pub mod project;

pub mod model;

pub mod inspector;

pub mod laws;
