//! What the encoder is given.

pub mod model;

pub use model::HandbrakeInfo;
pub use model::HandbrakeInputFile;
