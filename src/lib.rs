//! A box that bounces inside a fixed-size surface, and the raster routine that
//! paints it into an RGBA frame buffer.

mod event;
mod raster;
mod world;

pub use world::{
    advance, lemma_stays_bounded, reflect, steps, within_track, BoxState, World, BOX_SIZE,
    HEIGHT, WIDTH,
};
pub use raster::{
    background_rgba, box_rgba, frame_for, inside_box, lemma_redraw_identical, lemma_two_colours,
    pixel_of, pixel_rgba,
};
pub use event::{reaction, Action, Event};
