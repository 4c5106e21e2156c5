//! The domain model: identifiers, classified entries, sessions and mappings.

pub mod encode_dir_type;
pub mod entry_type;
pub mod input_file;
pub mod movie;
pub mod movie_name;
pub mod rename_types;
pub mod session;
pub mod session_id;
pub mod session_map;
pub mod session_to_encode_dir;
pub mod tv_series;

pub use encode_dir_type::EncodeDirError;
pub use encode_dir_type::EncodeDirType;
pub use encode_dir_type::EncodeDirView;
pub use encode_dir_type::Locator;
pub use encode_dir_type::MovieEncodeDir;
pub use encode_dir_type::TVSeriesEncodeDir;
pub use entry_type::EntryType;
pub use entry_type::EntryView;
pub use input_file::InputFile;
pub use movie::MovieSession;
pub use movie::MovieToEncodeDir;
pub use movie_name::MovieName;
pub use rename_types::EpisodeName;
pub use rename_types::FileView;
pub use rename_types::MKVTypeAware;
pub use rename_types::MovieRenameFile;
pub use rename_types::RenameError;
pub use rename_types::RenameTypes;
pub use rename_types::SessionFilesAware;
pub use rename_types::SessionTypeAware;
pub use rename_types::TVSeriesRenameFile;
pub use session::Session;
pub use session::SessionView;
pub use session_id::SessionId;
pub use session_map::SessionMap;
pub use session_to_encode_dir::MappingView;
pub use session_to_encode_dir::SessionToEncodeDir;
pub use tv_series::TVSeriesSession;
pub use tv_series::TVSeriesToEncodeDir;
