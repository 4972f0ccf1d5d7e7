//! Configuration aggregation for an editor: immutable, versioned snapshots of
//! the settings of every domain (core, editor, UI, theme, terminal, plugins),
//! read-only capability interfaces over them, resolved views for hot paths,
//! theme color and icon resolution, and write-through of user overrides with
//! all-or-nothing reloads.

pub mod color;
pub mod config;
pub mod font;
pub mod interfaces;
pub mod management;
pub mod manager;
pub mod services;
pub mod settings;
pub mod store;
pub mod text;
pub mod theme;
pub mod traits;
pub mod ui;
pub mod utils;
pub mod views;
