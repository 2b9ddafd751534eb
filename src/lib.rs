//! A pixel-art editor's core: snapping pointer positions to grid cells, the
//! paint history with undo and redo, and the lists of grid lines and filled
//! cells that a drawing surface renders.

pub mod app;
pub mod position;
pub mod pixel;
pub mod history;
pub mod editor;
