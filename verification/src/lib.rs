//! Renders an animated crafting-recipe image: a fixed 3x3 input grid plus
//! one output slot on an upscaled base canvas, an icon alpha-blended into
//! each occupied slot per frame, and the frames collected in strict
//! ordinal order for the animation writer.
//!
//! The geometry of the ten grid cells, the per-pixel compositing, the
//! per-frame recipe resolution and the run's ordering discipline are all
//! verified; decoding, resizing and the animation container come from
//! outside libraries behind narrow trusted declarations.

pub mod canvas;
pub mod config;
pub mod frame;
pub mod geometry;
pub mod run;
pub mod select;
