//! Refresh orchestration for an electronic-paper badge: shared state written
//! by producers, a catalog of screen regions, and the per-tick decision of
//! what to redraw and how.

pub mod geometry;
pub mod display_image;
pub mod screen;
pub mod surface;
pub mod region;
pub mod scheduler;
pub mod text;
pub mod save;
pub mod settings;
pub mod datetime;
