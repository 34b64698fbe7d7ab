pub mod geometry;
pub mod gfx;
pub mod events;
pub mod frame;
pub mod game;
pub mod fonts;
