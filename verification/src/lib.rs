//! Verified core of a terrain editor: the object registry, the asset store,
//! input state, render-target sizing and the terrain mesh topology.
pub mod inject;
pub mod assets;
pub mod input;
pub mod targets;
pub mod camera;
pub mod events;
pub mod gui;
pub mod hot_reload;
pub mod brush;
pub mod driver;
