use super::MovieName;
use super::SessionId;
use vstd::prelude::*;

verus! {

/// What one entry of the source tree was recognised as.
#[derive(Debug, PartialEq, Eq)]
pub enum EntryType {
    /// A renamed episode of a TV series.
    TVSeriesRename {
        /// Full path to the mkv file.
        path: String,
        /// Session that the file belongs to.
        session: SessionId,
        /// Episode label, such as `S01E02`.
        episode: String,
        /// File name with its extension.
        file: String,
    },
    /// A renamed movie.
    MovieRename {
        /// Full path to the mkv file.
        path: String,
        /// Session that the file belongs to.
        session: SessionId,
        /// File name with its extension.
        file: String,
    },
    /// The encode directory that a session of a TV series declares.
    TVSeriesEncode {
        /// Session whose files go to this directory.
        session: SessionId,
        /// Full path to the encode directory.
        path: String,
        /// Series and season, such as `ThunderCats {tvdb-70355}/Season 01`.
        season: String,
    },
    /// The encode directory that a session of a movie declares.
    MovieEncode {
        /// Session whose files go to this directory.
        session: SessionId,
        /// Full path to the encode directory.
        path: String,
        /// Name of the movie.
        movie_name: MovieName,
    },
    /// An entry that fits none of the known shapes.
    UnknownFileType {
        /// Full path to the entry.
        path: String,
    },
    /// A marker file whose declared directory is missing or misshapen.
    InvalidEncodeDirPath {
        /// The directory that the marker declares.
        defined_path: String,
    },
}

/// The mathematical value of an [`EntryType`].
pub enum EntryView {
    TVSeriesRename { path: Seq<char>, session: Seq<char>, episode: Seq<char>, file: Seq<char> },
    MovieRename { path: Seq<char>, session: Seq<char>, file: Seq<char> },
    TVSeriesEncode { session: Seq<char>, path: Seq<char>, season: Seq<char> },
    MovieEncode { session: Seq<char>, path: Seq<char>, movie_name: Seq<char> },
    UnknownFileType { path: Seq<char> },
    InvalidEncodeDirPath { defined_path: Seq<char> },
}

impl EntryView {
    /// Whether the entry is a rename or an encode directory.
    pub open spec fn is_matched(self) -> bool {
        !(self is UnknownFileType) && !(self is InvalidEncodeDirPath)
    }
}

impl View for EntryType {
    type V = EntryView;

    open spec fn view(&self) -> EntryView {
        match *self {
            EntryType::TVSeriesRename { path, session, episode, file } => EntryView::TVSeriesRename {
                path: path@,
                session: session@,
                episode: episode@,
                file: file@,
            },
            EntryType::MovieRename { path, session, file } => EntryView::MovieRename {
                path: path@,
                session: session@,
                file: file@,
            },
            EntryType::TVSeriesEncode { session, path, season } => EntryView::TVSeriesEncode {
                session: session@,
                path: path@,
                season: season@,
            },
            EntryType::MovieEncode { session, path, movie_name } => EntryView::MovieEncode {
                session: session@,
                path: path@,
                movie_name: movie_name@,
            },
            EntryType::UnknownFileType { path } => EntryView::UnknownFileType { path: path@ },
            EntryType::InvalidEncodeDirPath { defined_path } => EntryView::InvalidEncodeDirPath {
                defined_path: defined_path@,
            },
        }
    }
}

impl Clone for EntryType {
    fn clone(&self) -> (r: Self)
        ensures
            r == *self,
    {
        match self {
            EntryType::TVSeriesRename { path, session, episode, file } => EntryType::TVSeriesRename {
                path: path.clone(),
                session: session.clone(),
                episode: episode.clone(),
                file: file.clone(),
            },
            EntryType::MovieRename { path, session, file } => EntryType::MovieRename {
                path: path.clone(),
                session: session.clone(),
                file: file.clone(),
            },
            EntryType::TVSeriesEncode { session, path, season } => EntryType::TVSeriesEncode {
                session: session.clone(),
                path: path.clone(),
                season: season.clone(),
            },
            EntryType::MovieEncode { session, path, movie_name } => EntryType::MovieEncode {
                session: session.clone(),
                path: path.clone(),
                movie_name: movie_name.clone(),
            },
            EntryType::UnknownFileType { path } => EntryType::UnknownFileType { path: path.clone() },
            EntryType::InvalidEncodeDirPath { defined_path } => EntryType::InvalidEncodeDirPath {
                defined_path: defined_path.clone(),
            },
        }
    }
}

impl EntryType {
    /// A renamed episode found at `path`.
    pub fn new_tv_series_rename(path: &str, session: &str, episode: &str, file: &str) -> (r: Self)
        ensures
            r@ == (EntryView::TVSeriesRename {
                path: path@,
                session: session@,
                episode: episode@,
                file: file@,
            }),
    {
        EntryType::TVSeriesRename {
            path: path.to_owned(),
            session: SessionId::new(session),
            episode: episode.to_owned(),
            file: file.to_owned(),
        }
    }

    /// A renamed movie found at `path`.
    pub fn new_movie_rename(path: &str, session: &str, file: &str) -> (r: Self)
        ensures
            r@ == (EntryView::MovieRename { path: path@, session: session@, file: file@ }),
    {
        EntryType::MovieRename {
            path: path.to_owned(),
            session: SessionId::new(session),
            file: file.to_owned(),
        }
    }

    /// The encode directory `path` of a TV series, declared by `session`.
    pub fn new_tv_series_encodes(path: &str, season: &str, session: &str) -> (r: Self)
        ensures
            r@ == (EntryView::TVSeriesEncode { session: session@, path: path@, season: season@ }),
    {
        EntryType::TVSeriesEncode {
            path: path.to_owned(),
            season: season.to_owned(),
            session: SessionId::new(session),
        }
    }

    /// The encode directory `path` of a movie, declared by `session`.
    pub fn new_movie_encodes(path: &str, movie_name: &str, session: &str) -> (r: Self)
        ensures
            r@ == (EntryView::MovieEncode {
                session: session@,
                path: path@,
                movie_name: movie_name@,
            }),
    {
        EntryType::MovieEncode {
            path: path.to_owned(),
            movie_name: MovieName::new(movie_name),
            session: SessionId::new(session),
        }
    }

    /// A marker whose contents name no usable encode directory.
    pub fn could_not_match_defined_encode_dir(encode_file_contents: &str) -> (r: EntryType)
        ensures
            r@ == (EntryView::InvalidEncodeDirPath { defined_path: encode_file_contents@ }),
    {
        EntryType::InvalidEncodeDirPath { defined_path: encode_file_contents.to_owned() }
    }

    /// An entry at `path` that fits no known shape.
    pub fn unknown_file_type(path: &str) -> (r: EntryType)
        ensures
            r@ == (EntryView::UnknownFileType { path: path@ }),
    {
        EntryType::UnknownFileType { path: path.to_owned() }
    }

    /// Whether the entry is a rename or an encode directory.
    pub fn is_matched(&self) -> (r: bool)
        ensures
            r == self@.is_matched(),
    {
        match self {
            EntryType::UnknownFileType { .. } => false,
            EntryType::InvalidEncodeDirPath { .. } => false,
            _ => true,
        }
    }
}

} // verus!
