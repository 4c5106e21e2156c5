use super::EntryType;
use super::EntryView;
use super::MovieName;
use super::SessionId;
use super::SessionTypeAware;
use vstd::prelude::*;

verus! {

/// What tells an encode directory apart: the season of a TV series, or the
/// name of a movie.
pub enum Locator {
    Season(Seq<char>),
    Movie(Seq<char>),
}

impl Locator {
    /// The characters of the season or of the movie name.
    pub open spec fn text(self) -> Seq<char> {
        match self {
            Locator::Season(s) => s,
            Locator::Movie(s) => s,
        }
    }
}

/// The mathematical value of an encode directory.
pub struct EncodeDirView {
    pub session: Seq<char>,
    pub path: Seq<char>,
    pub locator: Locator,
}

impl EncodeDirView {
    /// Whether the directory takes the episodes of a TV series.
    pub open spec fn is_tv(self) -> bool {
        self.locator is Season
    }
}

/// The directory that takes the encoded episodes of one session.
#[derive(Debug, PartialEq, Eq)]
pub struct TVSeriesEncodeDir {
    /// Full path to the directory.
    pub path: String,
    /// Series and season.
    pub season: String,
    /// Session whose files go there.
    pub session_id: SessionId,
}

/// The directory that takes the encoded movie of one session.
#[derive(Debug, PartialEq, Eq)]
pub struct MovieEncodeDir {
    /// Full path to the directory.
    pub path: String,
    /// Session whose files go there.
    pub session_id: SessionId,
    /// Name of the movie.
    pub movie_name: MovieName,
}

/// An encode directory of either kind.
#[derive(Debug, PartialEq, Eq)]
pub enum EncodeDirType {
    TVSeries(TVSeriesEncodeDir),
    Movie(MovieEncodeDir),
}

impl View for TVSeriesEncodeDir {
    type V = EncodeDirView;

    open spec fn view(&self) -> EncodeDirView {
        EncodeDirView {
            session: self.session_id@,
            path: self.path@,
            locator: Locator::Season(self.season@),
        }
    }
}

impl View for MovieEncodeDir {
    type V = EncodeDirView;

    open spec fn view(&self) -> EncodeDirView {
        EncodeDirView {
            session: self.session_id@,
            path: self.path@,
            locator: Locator::Movie(self.movie_name@),
        }
    }
}

impl View for EncodeDirType {
    type V = EncodeDirView;

    open spec fn view(&self) -> EncodeDirView {
        match *self {
            EncodeDirType::TVSeries(d) => d@,
            EncodeDirType::Movie(d) => d@,
        }
    }
}

impl Clone for TVSeriesEncodeDir {
    fn clone(&self) -> (r: Self)
        ensures
            r == *self,
    {
        TVSeriesEncodeDir {
            path: self.path.clone(),
            season: self.season.clone(),
            session_id: self.session_id.clone(),
        }
    }
}

impl Clone for MovieEncodeDir {
    fn clone(&self) -> (r: Self)
        ensures
            r == *self,
    {
        MovieEncodeDir {
            path: self.path.clone(),
            session_id: self.session_id.clone(),
            movie_name: self.movie_name.clone(),
        }
    }
}

impl Clone for EncodeDirType {
    fn clone(&self) -> (r: Self)
        ensures
            r == *self,
    {
        match self {
            EncodeDirType::TVSeries(d) => EncodeDirType::TVSeries(d.clone()),
            EncodeDirType::Movie(d) => EncodeDirType::Movie(d.clone()),
        }
    }
}

impl SessionTypeAware for TVSeriesEncodeDir {
    open spec fn session_text(&self) -> Seq<char> {
        self@.session
    }

    fn session_id(&self) -> (r: SessionId) {
        self.session_id.clone()
    }
}

impl SessionTypeAware for MovieEncodeDir {
    open spec fn session_text(&self) -> Seq<char> {
        self@.session
    }

    fn session_id(&self) -> (r: SessionId) {
        self.session_id.clone()
    }
}

impl SessionTypeAware for EncodeDirType {
    open spec fn session_text(&self) -> Seq<char> {
        self@.session
    }

    fn session_id(&self) -> (r: SessionId) {
        match self {
            EncodeDirType::TVSeries(d) => d.session_id.clone(),
            EncodeDirType::Movie(d) => d.session_id.clone(),
        }
    }
}

/// Why an entry gives no encode directory.
#[derive(Debug, PartialEq, Eq, Clone, Copy)]
pub enum EncodeDirError {
    /// The entry declares no encode directory.
    NotAnEncodeDir,
}

/// The encode directory that an entry declares, if it declares one.
pub open spec fn encode_dir_of(entry: EntryView) -> Result<EncodeDirView, EncodeDirError> {
    match entry {
        EntryView::TVSeriesEncode { session, path, season } => Ok(
            EncodeDirView { session, path, locator: Locator::Season(season) },
        ),
        EntryView::MovieEncode { session, path, movie_name } => Ok(
            EncodeDirView { session, path, locator: Locator::Movie(movie_name) },
        ),
        _ => Err(EncodeDirError::NotAnEncodeDir),
    }
}

/// The value of the outcome of a conversion to an encode directory.
pub open spec fn encode_dir_result_view(r: Result<EncodeDirType, EncodeDirError>) -> Result<
    EncodeDirView,
    EncodeDirError,
> {
    match r {
        Ok(d) => Ok(d@),
        Err(e) => Err(e),
    }
}

impl EncodeDirType {
    /// Whether the directory takes the episodes of a TV series.
    pub fn is_tv_series(&self) -> (r: bool)
        ensures
            r == self@.is_tv(),
            r == (*self is TVSeries),
    {
        match self {
            EncodeDirType::TVSeries(_) => true,
            EncodeDirType::Movie(_) => false,
        }
    }

    /// Turns an entry that declares an encode directory into that directory.
    /// An entry of another kind is refused.
    pub fn try_from(value: EntryType) -> (r: Result<EncodeDirType, EncodeDirError>)
        ensures
            encode_dir_result_view(r) == encode_dir_of(value@),
            r matches Ok(d) ==> (d is TVSeries <==> value is TVSeriesEncode),
    {
        match value {
            EntryType::TVSeriesEncode { path, season, session } => Ok(
                EncodeDirType::TVSeries(TVSeriesEncodeDir { path, season, session_id: session }),
            ),
            EntryType::MovieEncode { path, session, movie_name } => Ok(
                EncodeDirType::Movie(MovieEncodeDir { path, session_id: session, movie_name }),
            ),
            _ => Err(EncodeDirError::NotAnEncodeDir),
        }
    }
}

} // verus!
