//! The decisions behind the Zrush panel: which rows it shows, what a click on
//! a row does, which agent runs where, and what the panel reports.
//!
//! Everything here works on plain values. Opening workspaces, shelling out to
//! git, prompting and painting happen in the application, which hands each
//! outcome back as the next event.

pub mod activation;
pub mod host;
pub mod menu;
pub mod model;
pub mod node_map;
pub mod node_set;
pub mod panel;
pub mod path;
pub mod path_map;
pub mod pending;
pub mod row;
pub mod settings;
pub mod status;
pub mod terminal;
pub mod text;
pub mod view;
