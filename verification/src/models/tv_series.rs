//! Sessions of a TV series and the directories they are encoded to.

pub mod encode_dir;
pub mod session;

pub use encode_dir::TVSeriesToEncodeDir;
pub use session::TVSeriesSession;
