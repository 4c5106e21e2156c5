use super::EntryType;
use super::EntryView;
use super::SessionId;
use crate::text::file_stem;
use crate::text::path_file_stem;
use vstd::prelude::*;
use vstd::string::StringExecFns;

verus! {

/// The mathematical value of a renamed file: an episode carries its label, a
/// movie carries none.
pub struct FileView {
    pub path: Seq<char>,
    pub session: Seq<char>,
    pub episode: Option<Seq<char>>,
    pub mkv_file: Seq<char>,
    pub mp4_file: Seq<char>,
}

impl FileView {
    /// Whether the file is an episode of a TV series.
    pub open spec fn is_tv(self) -> bool {
        self.episode is Some
    }
}

/// A renamed episode, with the name of the file it will be encoded to.
#[derive(Debug, PartialEq, Eq)]
pub struct TVSeriesRenameFile {
    /// Full path to the mkv file.
    pub path: String,
    /// Session that the file belongs to.
    pub session: SessionId,
    /// Episode label.
    pub episode: String,
    /// Name of the file to encode.
    pub mkv_file: String,
    /// Name of the encoded file.
    pub mp4_file: String,
}

/// A renamed movie, with the name of the file it will be encoded to.
#[derive(Debug, PartialEq, Eq)]
pub struct MovieRenameFile {
    /// Full path to the mkv file.
    pub path: String,
    /// Session that the file belongs to.
    pub session: SessionId,
    /// Name of the file to encode.
    pub mkv_file: String,
    /// Name of the encoded file.
    pub mp4_file: String,
}

/// A renamed file of either kind.
#[derive(Debug, PartialEq, Eq)]
pub enum RenameTypes {
    TVSeries(TVSeriesRenameFile),
    Movie(MovieRenameFile),
}

impl View for TVSeriesRenameFile {
    type V = FileView;

    open spec fn view(&self) -> FileView {
        FileView {
            path: self.path@,
            session: self.session@,
            episode: Some(self.episode@),
            mkv_file: self.mkv_file@,
            mp4_file: self.mp4_file@,
        }
    }
}

impl View for MovieRenameFile {
    type V = FileView;

    open spec fn view(&self) -> FileView {
        FileView {
            path: self.path@,
            session: self.session@,
            episode: None,
            mkv_file: self.mkv_file@,
            mp4_file: self.mp4_file@,
        }
    }
}

impl View for RenameTypes {
    type V = FileView;

    open spec fn view(&self) -> FileView {
        match *self {
            RenameTypes::TVSeries(f) => f@,
            RenameTypes::Movie(f) => f@,
        }
    }
}

impl Clone for TVSeriesRenameFile {
    fn clone(&self) -> (r: Self)
        ensures
            r == *self,
    {
        TVSeriesRenameFile {
            path: self.path.clone(),
            session: self.session.clone(),
            episode: self.episode.clone(),
            mkv_file: self.mkv_file.clone(),
            mp4_file: self.mp4_file.clone(),
        }
    }
}

impl Clone for MovieRenameFile {
    fn clone(&self) -> (r: Self)
        ensures
            r == *self,
    {
        MovieRenameFile {
            path: self.path.clone(),
            session: self.session.clone(),
            mkv_file: self.mkv_file.clone(),
            mp4_file: self.mp4_file.clone(),
        }
    }
}

impl Clone for RenameTypes {
    fn clone(&self) -> (r: Self)
        ensures
            r == *self,
    {
        match self {
            RenameTypes::TVSeries(f) => RenameTypes::TVSeries(f.clone()),
            RenameTypes::Movie(f) => RenameTypes::Movie(f.clone()),
        }
    }
}

/// A value that belongs to a session.
pub trait SessionTypeAware {
    /// The characters of the session id.
    spec fn session_text(&self) -> Seq<char>;

    /// The id of the session that the value belongs to.
    fn session_id(&self) -> (r: SessionId)
        ensures
            r@ == self.session_text(),
    ;
}

/// A value that holds the files of a session.
pub trait SessionFilesAware {
    /// The files, in the order in which they are held.
    spec fn file_views(&self) -> Seq<FileView>;

    /// The files of the session, each as a rename of its kind.
    fn files(&self) -> (r: Vec<RenameTypes>)
        ensures
            r@.map_values(|f: RenameTypes| f@) == self.file_views(),
    ;
}

/// A value that may carry an episode label.
pub trait EpisodeName {
    /// The label, where there is one.
    spec fn episode_text(&self) -> Option<Seq<char>>;

    /// A copy of the episode label: `None` for a movie.
    fn episode(&self) -> (r: Option<String>)
        ensures
            crate::text::opt_text(r) == self.episode_text(),
    ;
}

/// A value that names an mkv file and the mp4 file it is encoded to.
pub trait MKVTypeAware: View<V = FileView> {
    /// A copy of the name of the file to encode.
    fn mkv_file(&self) -> (r: String)
        ensures
            r@ == self@.mkv_file,
    ;

    /// A copy of the name of the encoded file.
    fn mp4_file(&self) -> (r: String)
        ensures
            r@ == self@.mp4_file,
    ;

    /// A copy of the full path to the file to encode.
    fn mkv_path(&self) -> (r: String)
        ensures
            r@ == self@.path,
    ;
}

impl SessionTypeAware for RenameTypes {
    open spec fn session_text(&self) -> Seq<char> {
        self@.session
    }

    fn session_id(&self) -> (r: SessionId) {
        match self {
            RenameTypes::TVSeries(f) => f.session.clone(),
            RenameTypes::Movie(f) => f.session.clone(),
        }
    }
}

impl MKVTypeAware for RenameTypes {
    fn mkv_file(&self) -> (r: String) {
        match self {
            RenameTypes::TVSeries(f) => f.mkv_file.clone(),
            RenameTypes::Movie(f) => f.mkv_file.clone(),
        }
    }

    fn mp4_file(&self) -> (r: String) {
        match self {
            RenameTypes::TVSeries(f) => f.mp4_file.clone(),
            RenameTypes::Movie(f) => f.mp4_file.clone(),
        }
    }

    fn mkv_path(&self) -> (r: String) {
        match self {
            RenameTypes::TVSeries(f) => f.path.clone(),
            RenameTypes::Movie(f) => f.path.clone(),
        }
    }
}

impl MKVTypeAware for TVSeriesRenameFile {
    fn mkv_file(&self) -> (r: String) {
        self.mkv_file.clone()
    }

    fn mp4_file(&self) -> (r: String) {
        self.mp4_file.clone()
    }

    fn mkv_path(&self) -> (r: String) {
        self.path.clone()
    }
}

impl MKVTypeAware for MovieRenameFile {
    fn mkv_file(&self) -> (r: String) {
        self.mkv_file.clone()
    }

    fn mp4_file(&self) -> (r: String) {
        self.mp4_file.clone()
    }

    fn mkv_path(&self) -> (r: String) {
        self.path.clone()
    }
}

impl EpisodeName for RenameTypes {
    open spec fn episode_text(&self) -> Option<Seq<char>> {
        self@.episode
    }

    fn episode(&self) -> (r: Option<String>) {
        match self {
            RenameTypes::TVSeries(f) => Some(f.episode.clone()),
            RenameTypes::Movie(_) => None,
        }
    }
}

/// The extension of the encoded file.
pub open spec fn mp4_extension() -> Seq<char> {
    seq!['.', 'm', 'p', '4']
}

/// The name of the encoded file for the input file `input`: the stem of the
/// input name followed by `.mp4`, where the name has a stem.
pub open spec fn output_name(input: Seq<char>) -> Option<Seq<char>> {
    match file_stem(input) {
        Some(stem) => Some(stem + mp4_extension()),
        None => None,
    }
}

/// Derives the name of the encoded file from the name of the file to encode.
/// The result depends on `input` alone; it is `None` exactly where the name
/// has no stem.
pub fn output_file_name(input: &str) -> (r: Option<String>)
    ensures
        crate::text::opt_text(r) == output_name(input@),
{
    match path_file_stem(input) {
        Some(stem) => {
            proof {
                reveal_strlit(".mp4");
                assert(".mp4"@ =~= mp4_extension());
            }
            Some(stem.concat(".mp4"))
        },
        None => None,
    }
}

/// A file whose name is `base`, a `.` and an extension is encoded to the file
/// named `base` with the extension `mp4`: the name of the encoded file depends
/// on the name of the input file alone, and is had for every such name.
pub proof fn lemma_output_name(input: Seq<char>, base: Seq<char>, extension: Seq<char>)
    requires
        crate::text::file_name(input) == Some(base + seq!['.'] + extension),
        base.len() > 0,
        !extension.contains('.'),
    ensures
        output_name(input) == Some(base + mp4_extension()),
{
    crate::text::lemma_stem_drops_extension(base, extension);
}

/// Why an entry gives no renamed file.
#[derive(Debug, PartialEq, Eq, Clone, Copy)]
pub enum RenameError {
    /// The entry is no rename.
    NotARename,
    /// The file name of the rename has no stem to name the encoded file by.
    MissingStem,
}

/// The renamed file that an entry stands for, or why it stands for none.
pub open spec fn rename_of(entry: EntryView) -> Result<FileView, RenameError> {
    match entry {
        EntryView::TVSeriesRename { path, session, episode, file } => match output_name(file) {
            Some(mp4_file) => Ok(
                FileView { path, session, episode: Some(episode), mkv_file: file, mp4_file },
            ),
            None => Err(RenameError::MissingStem),
        },
        EntryView::MovieRename { path, session, file } => match output_name(file) {
            Some(mp4_file) => Ok(
                FileView { path, session, episode: None, mkv_file: file, mp4_file },
            ),
            None => Err(RenameError::MissingStem),
        },
        _ => Err(RenameError::NotARename),
    }
}

/// The value of the outcome of a conversion to a renamed file.
pub open spec fn rename_result_view(r: Result<RenameTypes, RenameError>) -> Result<
    FileView,
    RenameError,
> {
    match r {
        Ok(f) => Ok(f@),
        Err(e) => Err(e),
    }
}

impl RenameTypes {
    /// Whether the file is an episode of a TV series.
    pub fn is_tv_series(&self) -> (r: bool)
        ensures
            r == self@.is_tv(),
            r == (*self is TVSeries),
    {
        match self {
            RenameTypes::TVSeries(_) => true,
            RenameTypes::Movie(_) => false,
        }
    }

    /// Turns a rename entry into a renamed file that carries the name of its
    /// encoded file. An entry of another kind is refused, and so is a rename
    /// whose file name has no stem.
    pub fn try_from(value: EntryType) -> (r: Result<RenameTypes, RenameError>)
        ensures
            rename_result_view(r) == rename_of(value@),
            r matches Ok(f) ==> (f is TVSeries <==> value is TVSeriesRename),
    {
        match value {
            EntryType::TVSeriesRename { path, session, episode, file } => {
                match output_file_name(file.as_str()) {
                    Some(mp4_file) => Ok(
                        RenameTypes::TVSeries(
                            TVSeriesRenameFile { path, session, episode, mkv_file: file, mp4_file },
                        ),
                    ),
                    None => Err(RenameError::MissingStem),
                }
            },
            EntryType::MovieRename { path, session, file } => {
                match output_file_name(file.as_str()) {
                    Some(mp4_file) => Ok(
                        RenameTypes::Movie(
                            MovieRenameFile { path, session, mkv_file: file, mp4_file },
                        ),
                    ),
                    None => Err(RenameError::MissingStem),
                }
            },
            _ => Err(RenameError::NotARename),
        }
    }
}

} // verus!
