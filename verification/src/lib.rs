//! The rules of a renderer that draws sprites and guide lines in passes and
//! composites them: which passes there are and in what order a frame walks
//! them, which target backs each pass, what each drawable draws in a pass,
//! and the geometry that is the same for every draw. The arithmetic on
//! transforms and the calls into the graphics card are the caller's.

pub mod drawable;
pub mod grid;
pub mod line;
pub mod quad;
pub mod render_steps;
pub mod rendering;
pub mod sprite;
pub mod step_map;
