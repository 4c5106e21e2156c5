//! Classification of the entries of a source tree.

use crate::models::EntryType;
use crate::models::EntryView;
use crate::models::SessionId;
use crate::patterns::captures;
use crate::patterns::captures_view;
use crate::patterns::compile;
use crate::patterns::compiles;
use crate::patterns::group;
use crate::patterns::group_text;
use crate::patterns::compiled;
use crate::patterns::found;
use crate::text::trim;
use crate::text::trimmed;
use regex::Regex;
use vstd::prelude::*;

verus! {

/// A renamed episode: `session<N>/renames/<episode> - <name>.mkv`.
pub const RENAME_TV_SERIES_FILE: &'static str =
    r"(session\d{1,})/renames/((S\d{2,}E\d{2,}(?:-E\d{2,})?)\s-\s(.+.mkv))$";

/// A renamed movie: `session<N>/renames/<name>.mkv`.
pub const RENAME_MOVIE_FILE: &'static str = r"(session\d{1,})/renames/(.+.mkv)$";

/// The marker file of a session: `session<N>/renames/encode_dir.txt`.
pub const ENCODE_FILE: &'static str = r"(session\d{1,})/renames/encode_dir\.txt$";

/// The encode directory of a season: `<title> {tvdb-<id>}/Season <NN>`.
pub const ENCODE_TV_SERIES_DIR: &'static str = r".+/(.+\s\{tvdb\-\d{1,}\}/Season\s\d{2,})$";

/// The encode directory of a movie: `<title> {tvdb-<id>}`.
pub const ENCODE_MOVIE_DIR: &'static str = r".+/(.+\s\{tvdb\-\d{1,}\})$";

/// The renamed episode that a match of the episode pattern on `path` stands
/// for: the first group is the session, the second the file name, the third
/// the episode label.
pub open spec fn tv_rename_entry(path: Seq<char>, found: Option<Seq<Option<Seq<char>>>>) -> Option<
    EntryView,
> {
    match found {
        Some(groups) => match (group(groups, 1), group(groups, 2), group(groups, 3)) {
            (Some(session), Some(file), Some(episode)) => Some(
                EntryView::TVSeriesRename { path, session, episode, file },
            ),
            _ => None,
        },
        None => None,
    }
}

/// The renamed movie that a match of the movie pattern on `path` stands for:
/// the first group is the session, the second the file name.
pub open spec fn movie_rename_entry(
    path: Seq<char>,
    found: Option<Seq<Option<Seq<char>>>>,
) -> Option<EntryView> {
    match found {
        Some(groups) => match (group(groups, 1), group(groups, 2)) {
            (Some(session), Some(file)) => Some(EntryView::MovieRename { path, session, file }),
            _ => None,
        },
        None => None,
    }
}

/// The first group of a match.
pub open spec fn first_group(found: Option<Seq<Option<Seq<char>>>>) -> Option<Seq<char>> {
    match found {
        Some(groups) => group(groups, 1),
        None => None,
    }
}

/// The encode directory of a season that `contents` declares for `session`.
pub open spec fn tv_encode_entry(
    contents: Seq<char>,
    session: Seq<char>,
    found: Option<Seq<Option<Seq<char>>>>,
) -> Option<EntryView> {
    match first_group(found) {
        Some(season) => Some(EntryView::TVSeriesEncode { session, path: contents, season }),
        None => None,
    }
}

/// The encode directory of a movie that `contents` declares for `session`.
pub open spec fn movie_encode_entry(
    contents: Seq<char>,
    session: Seq<char>,
    found: Option<Seq<Option<Seq<char>>>>,
) -> Option<EntryView> {
    match first_group(found) {
        Some(movie_name) => Some(EntryView::MovieEncode { session, path: contents, movie_name }),
        None => None,
    }
}

/// What a path was recognised as, before any file is read.
#[derive(Debug, PartialEq, Eq)]
pub enum Scanned {
    /// The path alone tells what the entry is.
    Entry(EntryType),
    /// The entry is the marker file of `session`: what it declares is in its
    /// contents.
    Marker { session: SessionId },
}

/// The mathematical value of a [`Scanned`].
pub enum ScannedView {
    Entry(EntryView),
    Marker { session: Seq<char> },
}

impl View for Scanned {
    type V = ScannedView;

    open spec fn view(&self) -> ScannedView {
        match *self {
            Scanned::Entry(e) => ScannedView::Entry(e@),
            Scanned::Marker { session } => ScannedView::Marker { session: session@ },
        }
    }
}

/// What the entry at `path` is, given what each of the three path patterns
/// finds in it. The patterns are tried in turn and the first that fits
/// decides: an episode, then a movie, then a marker file. Only a file can fit.
pub open spec fn scanned(
    path: Seq<char>,
    is_file: bool,
    tv_found: Option<Seq<Option<Seq<char>>>>,
    movie_found: Option<Seq<Option<Seq<char>>>>,
    marker_found: Option<Seq<Option<Seq<char>>>>,
) -> ScannedView {
    if !is_file {
        ScannedView::Entry(EntryView::UnknownFileType { path })
    } else if let Some(entry) = tv_rename_entry(path, tv_found) {
        ScannedView::Entry(entry)
    } else if let Some(entry) = movie_rename_entry(path, movie_found) {
        ScannedView::Entry(entry)
    } else if let Some(session) = first_group(marker_found) {
        ScannedView::Marker { session }
    } else {
        ScannedView::Entry(EntryView::UnknownFileType { path })
    }
}

/// What the marker of `session` declares, given the directory `declared` that
/// its contents name, whether that directory exists, and what the two
/// directory patterns find in the name. A season is tried before a movie; a
/// directory that is missing, or whose name fits neither, is invalid.
pub open spec fn marker_entry(
    session: Seq<char>,
    declared: Seq<char>,
    is_dir: bool,
    tv_found: Option<Seq<Option<Seq<char>>>>,
    movie_found: Option<Seq<Option<Seq<char>>>>,
) -> EntryView {
    if !is_dir {
        EntryView::InvalidEncodeDirPath { defined_path: declared }
    } else if let Some(entry) = tv_encode_entry(declared, session, tv_found) {
        entry
    } else if let Some(entry) = movie_encode_entry(declared, session, movie_found) {
        entry
    } else {
        EntryView::InvalidEncodeDirPath { defined_path: declared }
    }
}

/// A file in which the episode pattern captures a session, a file name and an
/// episode label is a renamed episode that holds exactly those, whatever the
/// other patterns find.
pub proof fn lemma_episode_as_captured(
    path: Seq<char>,
    groups: Seq<Option<Seq<char>>>,
    movie_found: Option<Seq<Option<Seq<char>>>>,
    marker_found: Option<Seq<Option<Seq<char>>>>,
)
    requires
        groups.len() >= 4,
        groups[1] is Some,
        groups[2] is Some,
        groups[3] is Some,
    ensures
        scanned(path, true, Some(groups), movie_found, marker_found) == ScannedView::Entry(
            EntryView::TVSeriesRename {
                path,
                session: groups[1]->0,
                episode: groups[3]->0,
                file: groups[2]->0,
            },
        ),
{
}

/// A file that is no episode, and in which the movie pattern captures a
/// session and a file name, is a renamed movie that holds exactly those.
pub proof fn lemma_movie_as_captured(
    path: Seq<char>,
    tv_found: Option<Seq<Option<Seq<char>>>>,
    groups: Seq<Option<Seq<char>>>,
    marker_found: Option<Seq<Option<Seq<char>>>>,
)
    requires
        tv_rename_entry(path, tv_found) is None,
        groups.len() >= 3,
        groups[1] is Some,
        groups[2] is Some,
    ensures
        scanned(path, true, tv_found, Some(groups), marker_found) == ScannedView::Entry(
            EntryView::MovieRename { path, session: groups[1]->0, file: groups[2]->0 },
        ),
{
}

/// The entry of an optional entry.
pub open spec fn opt_entry(e: Option<EntryType>) -> Option<EntryView> {
    match e {
        Some(x) => Some(x@),
        None => None,
    }
}

/// The renamed episode at `path`, from what the episode pattern found there.
pub fn tv_rename_from(path: &str, found: &Option<Vec<Option<String>>>) -> (r: Option<EntryType>)
    ensures
        opt_entry(r) == tv_rename_entry(path@, captures_view(*found)),
{
    match found {
        Some(groups) => match (group_text(groups, 1), group_text(groups, 2), group_text(groups, 3)) {
            (Some(session), Some(file), Some(episode)) => Some(
                EntryType::new_tv_series_rename(path, session, episode, file),
            ),
            _ => None,
        },
        None => None,
    }
}

/// The renamed movie at `path`, from what the movie pattern found there.
pub fn movie_rename_from(path: &str, found: &Option<Vec<Option<String>>>) -> (r: Option<EntryType>)
    ensures
        opt_entry(r) == movie_rename_entry(path@, captures_view(*found)),
{
    match found {
        Some(groups) => match (group_text(groups, 1), group_text(groups, 2)) {
            (Some(session), Some(file)) => Some(EntryType::new_movie_rename(path, session, file)),
            _ => None,
        },
        None => None,
    }
}

/// The session of a marker file, from what the marker pattern found in its
/// path.
pub fn marker_session_from(found: &Option<Vec<Option<String>>>) -> (r: Option<SessionId>)
    ensures
        match r {
            Some(id) => first_group(captures_view(*found)) == Some(id@),
            None => first_group(captures_view(*found)) is None,
        },
{
    match found {
        Some(groups) => match group_text(groups, 1) {
            Some(session) => Some(SessionId::new(session)),
            None => None,
        },
        None => None,
    }
}

/// The encode directory of a season that `contents` names, from what the
/// season pattern found in it.
pub fn tv_encode_from(contents: &str, session: &str, found: &Option<Vec<Option<String>>>) -> (r:
    Option<EntryType>)
    ensures
        opt_entry(r) == tv_encode_entry(contents@, session@, captures_view(*found)),
{
    match found {
        Some(groups) => match group_text(groups, 1) {
            Some(season) => Some(EntryType::new_tv_series_encodes(contents, season, session)),
            None => None,
        },
        None => None,
    }
}

/// The encode directory of a movie that `contents` names, from what the movie
/// directory pattern found in it.
pub fn movie_encode_from(contents: &str, session: &str, found: &Option<Vec<Option<String>>>) -> (r:
    Option<EntryType>)
    ensures
        opt_entry(r) == movie_encode_entry(contents@, session@, captures_view(*found)),
{
    match found {
        Some(groups) => match group_text(groups, 1) {
            Some(movie_name) => Some(EntryType::new_movie_encodes(contents, movie_name, session)),
            None => None,
        },
        None => None,
    }
}

/// The directory that the contents of a marker file declare: the contents
/// without the white space around them.
pub fn declared_encode_dir(contents: &str) -> (r: String)
    ensures
        r@ == trimmed(contents@),
{
    trim(contents)
}

/// The five patterns by which entries are recognised.
#[derive(Debug, PartialEq, Eq, Clone, Copy)]
pub enum Pattern {
    RenameTvSeriesFile,
    RenameMovieFile,
    EncodeFile,
    EncodeTvSeriesDir,
    EncodeMovieDir,
}

impl Pattern {
    /// The text of the pattern.
    pub open spec fn text(self) -> Seq<char> {
        match self {
            Pattern::RenameTvSeriesFile => RENAME_TV_SERIES_FILE@,
            Pattern::RenameMovieFile => RENAME_MOVIE_FILE@,
            Pattern::EncodeFile => ENCODE_FILE@,
            Pattern::EncodeTvSeriesDir => ENCODE_TV_SERIES_DIR@,
            Pattern::EncodeMovieDir => ENCODE_MOVIE_DIR@,
        }
    }

    /// The place of the pattern in the order in which the patterns are
    /// compiled.
    pub open spec fn rank(self) -> int {
        match self {
            Pattern::RenameTvSeriesFile => 0,
            Pattern::RenameMovieFile => 1,
            Pattern::EncodeFile => 2,
            Pattern::EncodeTvSeriesDir => 3,
            Pattern::EncodeMovieDir => 4,
        }
    }

    /// The text of the pattern.
    pub fn source(&self) -> (r: &'static str)
        ensures
            r@ == self.text(),
    {
        match self {
            Pattern::RenameTvSeriesFile => RENAME_TV_SERIES_FILE,
            Pattern::RenameMovieFile => RENAME_MOVIE_FILE,
            Pattern::EncodeFile => ENCODE_FILE,
            Pattern::EncodeTvSeriesDir => ENCODE_TV_SERIES_DIR,
            Pattern::EncodeMovieDir => ENCODE_MOVIE_DIR,
        }
    }
}

/// A pattern that the expression compiler refused.
#[derive(Debug, PartialEq, Eq, Clone, Copy)]
pub struct PatternError {
    pub pattern: Pattern,
}

/// The five compiled patterns.
pub struct FileMapper {
    rename_tv_series_file: Regex,
    rename_movie_file: Regex,
    encode_file: Regex,
    encode_tv_series_dir: Regex,
    encode_movie_dir: Regex,
}

impl FileMapper {
    #[verifier::type_invariant]
    spec fn holds_the_patterns(self) -> bool {
        &&& compiled(RENAME_TV_SERIES_FILE@) == Some(self.rename_tv_series_file)
        &&& compiled(RENAME_MOVIE_FILE@) == Some(self.rename_movie_file)
        &&& compiled(ENCODE_FILE@) == Some(self.encode_file)
        &&& compiled(ENCODE_TV_SERIES_DIR@) == Some(self.encode_tv_series_dir)
        &&& compiled(ENCODE_MOVIE_DIR@) == Some(self.encode_movie_dir)
    }

    /// Compiles the five patterns, in their order. The error names the first
    /// pattern that the expression compiler refuses.
    pub fn new() -> (r: Result<FileMapper, PatternError>)
        ensures
            match r {
                Ok(_) => forall|p: Pattern| compiles(#[trigger] p.text()),
                Err(e) => !compiles(e.pattern.text()) && forall|p: Pattern|
                    p.rank() < e.pattern.rank() ==> compiles(#[trigger] p.text()),
            },
    {
        let rename_tv_series_file = match compile(RENAME_TV_SERIES_FILE) {
            Ok(re) => re,
            Err(_) => { return Err(PatternError { pattern: Pattern::RenameTvSeriesFile }); },
        };
        let rename_movie_file = match compile(RENAME_MOVIE_FILE) {
            Ok(re) => re,
            Err(_) => { return Err(PatternError { pattern: Pattern::RenameMovieFile }); },
        };
        let encode_file = match compile(ENCODE_FILE) {
            Ok(re) => re,
            Err(_) => { return Err(PatternError { pattern: Pattern::EncodeFile }); },
        };
        let encode_tv_series_dir = match compile(ENCODE_TV_SERIES_DIR) {
            Ok(re) => re,
            Err(_) => { return Err(PatternError { pattern: Pattern::EncodeTvSeriesDir }); },
        };
        let encode_movie_dir = match compile(ENCODE_MOVIE_DIR) {
            Ok(re) => re,
            Err(_) => { return Err(PatternError { pattern: Pattern::EncodeMovieDir }); },
        };
        Ok(
            FileMapper {
                rename_tv_series_file,
                rename_movie_file,
                encode_file,
                encode_tv_series_dir,
                encode_movie_dir,
            },
        )
    }

    /// What `pattern` finds in `text`: the text of each capture group of the
    /// first match, the whole match first, or `None` where nothing matches.
    pub fn captures(&self, pattern: Pattern, text: &str) -> (r: Option<Vec<Option<String>>>)
        ensures
            captures_view(r) == found(pattern.text(), text@),
    {
        proof {
            use_type_invariant(self);
        }
        match pattern {
            Pattern::RenameTvSeriesFile => captures(&self.rename_tv_series_file, text),
            Pattern::RenameMovieFile => captures(&self.rename_movie_file, text),
            Pattern::EncodeFile => captures(&self.encode_file, text),
            Pattern::EncodeTvSeriesDir => captures(&self.encode_tv_series_dir, text),
            Pattern::EncodeMovieDir => captures(&self.encode_movie_dir, text),
        }
    }

    /// The renamed episode at `path`, where the path has the shape of one:
    /// session, file name and episode label are what the pattern captures.
    pub fn handle_tv_series_rename(&self, path: &str) -> (r: Option<EntryType>)
        ensures
            opt_entry(r) == tv_rename_entry(path@, found(RENAME_TV_SERIES_FILE@, path@)),
    {
        let found = self.captures(Pattern::RenameTvSeriesFile, path);
        tv_rename_from(path, &found)
    }

    /// The renamed movie at `path`, where the path has the shape of one:
    /// session and file name are what the pattern captures.
    pub fn handle_movie_rename(&self, path: &str) -> (r: Option<EntryType>)
        ensures
            opt_entry(r) == movie_rename_entry(path@, found(RENAME_MOVIE_FILE@, path@)),
    {
        let found = self.captures(Pattern::RenameMovieFile, path);
        movie_rename_from(path, &found)
    }

    /// The session whose marker file `path` is, where it is one.
    pub fn handle_encode_file(&self, path: &str) -> (r: Option<SessionId>)
        ensures
            match r {
                Some(id) => first_group(found(ENCODE_FILE@, path@)) == Some(id@),
                None => first_group(found(ENCODE_FILE@, path@)) is None,
            },
    {
        let found = self.captures(Pattern::EncodeFile, path);
        marker_session_from(&found)
    }

    /// The encode directory of a season that `contents` names for `session`,
    /// where the name has the shape of one.
    pub fn handle_tv_series_encode_file(&self, contents: &str, session: &str) -> (r: Option<
        EntryType,
    >)
        ensures
            opt_entry(r) == tv_encode_entry(
                contents@,
                session@,
                found(ENCODE_TV_SERIES_DIR@, contents@),
            ),
    {
        let found = self.captures(Pattern::EncodeTvSeriesDir, contents);
        tv_encode_from(contents, session, &found)
    }

    /// The encode directory of a movie that `contents` names for `session`,
    /// where the name has the shape of one.
    pub fn handle_movie_encode_file(&self, contents: &str, session: &str) -> (r: Option<EntryType>)
        ensures
            opt_entry(r) == movie_encode_entry(
                contents@,
                session@,
                found(ENCODE_MOVIE_DIR@, contents@),
            ),
    {
        let found = self.captures(Pattern::EncodeMovieDir, contents);
        movie_encode_from(contents, session, &found)
    }

    /// Classifies the entry at `path` by its path alone. An episode is
    /// recognised before a movie, a movie before a marker file; a directory,
    /// and a file that fits no pattern, is unknown.
    pub fn classify_path(&self, path: &str, is_file: bool) -> (r: Scanned)
        ensures
            r@ == scanned(
                path@,
                is_file,
                found(RENAME_TV_SERIES_FILE@, path@),
                found(RENAME_MOVIE_FILE@, path@),
                found(ENCODE_FILE@, path@),
            ),
    {
        if !is_file {
            return Scanned::Entry(EntryType::unknown_file_type(path));
        }
        if let Some(entry) = self.handle_tv_series_rename(path) {
            return Scanned::Entry(entry);
        }
        if let Some(entry) = self.handle_movie_rename(path) {
            return Scanned::Entry(entry);
        }
        if let Some(session) = self.handle_encode_file(path) {
            return Scanned::Marker { session };
        }
        Scanned::Entry(EntryType::unknown_file_type(path))
    }

    /// Classifies the marker file of `session`, which declares the directory
    /// `declared`; `is_dir` tells whether that directory exists. The result is
    /// the encode directory of a season, else that of a movie, where the
    /// directory exists and its name has that shape, and an invalid marker
    /// otherwise.
    pub fn classify_marker(&self, session: &SessionId, declared: &str, is_dir: bool) -> (r:
        EntryType)
        ensures
            r@ == marker_entry(
                session@,
                declared@,
                is_dir,
                found(ENCODE_TV_SERIES_DIR@, declared@),
                found(ENCODE_MOVIE_DIR@, declared@),
            ),
    {
        if !is_dir {
            return EntryType::could_not_match_defined_encode_dir(declared);
        }
        if let Some(entry) = self.handle_tv_series_encode_file(declared, session.id()) {
            return entry;
        }
        if let Some(entry) = self.handle_movie_encode_file(declared, session.id()) {
            return entry;
        }
        EntryType::could_not_match_defined_encode_dir(declared)
    }
}

} // verus!
