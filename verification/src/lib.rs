//! A small library behind a procedural-shader viewer: render parameters with
//! the bounds the settings panel enforces, the fixed draw inputs handed to the
//! GPU for one offscreen pass, handle allocation in the GUI's texture table,
//! and the decisions of the application shell's event loop.

pub mod params;
pub mod pipeline;
pub mod shader;
pub mod shell;
pub mod textures;
