//! GUI: canvas parameters, drawing on the canvas, layers, view port orientations and
//! scene events.

pub mod canvas;
pub mod graphics;
pub mod layers;
pub mod scene_manager;
