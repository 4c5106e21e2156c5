//! Sessions of a movie and the directories they are encoded to.

pub mod encode_dir;
pub mod session;

pub use encode_dir::MovieToEncodeDir;
pub use session::MovieSession;
