use super::EncodeDirView;
use super::FileView;
use super::MovieEncodeDir;
use super::MovieSession;
use super::SessionId;
use super::SessionMap;
use super::SessionView;
use super::TVSeriesEncodeDir;
use super::TVSeriesSession;
use super::input_file::InputFile;
use super::input_file::episode_inputs;
use super::input_file::input_of;
use super::input_file::movie_inputs;
use super::movie::MovieToEncodeDir;
use super::session_map::keys_of;
use super::session_map::lookup;
use super::tv_series::TVSeriesToEncodeDir;
use crate::seqs::views;
use crate::sorting::sort_files;
use vstd::prelude::*;

verus! {

/// The mathematical value of a mapping: a session and the directory that its
/// files are encoded to.
pub struct MappingView {
    pub session_id: Seq<char>,
    pub session: SessionView,
    pub encode_dir: EncodeDirView,
}

impl MappingView {
    /// The mapping with the files of its session sorted by file name, the
    /// session named by the id of the mapping.
    pub open spec fn sorted(self) -> MappingView {
        MappingView {
            session_id: self.session_id,
            session: SessionView { id: self.session_id, files: sort_files(self.session.files) },
            encode_dir: self.encode_dir,
        }
    }
}

/// The sessions of `sessions` for which `dirs` holds an encode directory, each
/// joined with that directory, in the order of `sessions`.
pub open spec fn joined(
    sessions: Seq<(Seq<char>, SessionView)>,
    dirs: Seq<(Seq<char>, EncodeDirView)>,
) -> Seq<MappingView>
    decreases sessions.len(),
{
    if sessions.len() == 0 {
        Seq::empty()
    } else {
        let before = joined(sessions.drop_last(), dirs);
        let (id, session) = sessions.last();
        match lookup(dirs, id) {
            Some(encode_dir) => before.push(MappingView { session_id: id, session, encode_dir }),
            None => before,
        }
    }
}

/// The session id of each mapping, in order.
pub open spec fn mapped_ids(m: Seq<MappingView>) -> Seq<Seq<char>> {
    m.map_values(|x: MappingView| x.session_id)
}

/// A session is joined exactly where it has an encode directory: the ids of
/// the mappings are the ids of the sessions for which a directory is held, and
/// each mapping holds a session of `sessions` and the directory held for it.
pub proof fn lemma_joined(
    sessions: Seq<(Seq<char>, SessionView)>,
    dirs: Seq<(Seq<char>, EncodeDirView)>,
)
    ensures
        forall|id: Seq<char>|
            (#[trigger] mapped_ids(joined(sessions, dirs)).contains(id)) <==> (keys_of(
                sessions,
            ).contains(id) && lookup(dirs, id) is Some),
        forall|j: int|
            0 <= j < joined(sessions, dirs).len() ==> {
                let m = #[trigger] joined(sessions, dirs)[j];
                &&& sessions.contains((m.session_id, m.session))
                &&& lookup(dirs, m.session_id) == Some(m.encode_dir)
            },
        joined(sessions, dirs).len() <= sessions.len(),
    decreases sessions.len(),
{
    if sessions.len() > 0 {
        let init = sessions.drop_last();
        lemma_joined(init, dirs);
        let now = joined(sessions, dirs);
        let before = joined(init, dirs);
        let last = sessions.last();
        assert(keys_of(init) =~= keys_of(sessions).drop_last());
        assert forall|id: Seq<char>|
            (#[trigger] mapped_ids(now).contains(id)) <==> (keys_of(sessions).contains(id)
                && lookup(dirs, id) is Some) by {
            if mapped_ids(now).contains(id) {
                let j = choose|j: int| 0 <= j < mapped_ids(now).len() && mapped_ids(now)[j] == id;
                if j < before.len() {
                    assert(mapped_ids(before)[j] == id);
                    assert(mapped_ids(before).contains(id));
                    let i = choose|i: int| 0 <= i < keys_of(init).len() && keys_of(init)[i] == id;
                    assert(keys_of(sessions)[i] == id);
                } else {
                    assert(keys_of(sessions)[sessions.len() - 1] == id);
                }
            }
            if keys_of(sessions).contains(id) && lookup(dirs, id) is Some {
                let i = choose|i: int| 0 <= i < keys_of(sessions).len() && keys_of(sessions)[i] == id;
                if i < init.len() {
                    assert(keys_of(init)[i] == id);
                    assert(keys_of(init).contains(id));
                    assert(mapped_ids(before).contains(id));
                    let j = choose|j: int|
                        0 <= j < mapped_ids(before).len() && mapped_ids(before)[j] == id;
                    assert(mapped_ids(now)[j] == id);
                } else {
                    assert(last.0 == id);
                    assert(mapped_ids(now)[before.len() as int] == id);
                }
            }
        }
        assert forall|j: int| 0 <= j < now.len() implies {
            let m = #[trigger] now[j];
            &&& sessions.contains((m.session_id, m.session))
            &&& lookup(dirs, m.session_id) == Some(m.encode_dir)
        } by {
            if j < before.len() {
                let m = before[j];
                let i = choose|i: int| 0 <= i < init.len() && init[i] == (m.session_id, m.session);
                assert(sessions[i] == (m.session_id, m.session));
            } else {
                assert(sessions[sessions.len() - 1] == last);
            }
        }
    }
}

/// A session joined with the directory that its files are encoded to.
#[derive(Debug, PartialEq, Eq)]
pub enum SessionToEncodeDir {
    TVSeriesMapping(TVSeriesToEncodeDir),
    MovieMapping(MovieToEncodeDir),
}

impl View for SessionToEncodeDir {
    type V = MappingView;

    open spec fn view(&self) -> MappingView {
        match *self {
            SessionToEncodeDir::TVSeriesMapping(m) => MappingView {
                session_id: m@.session_id,
                session: m@.session,
                encode_dir: m@.encode_dir,
            },
            SessionToEncodeDir::MovieMapping(m) => MappingView {
                session_id: m@.session_id,
                session: m@.session,
                encode_dir: m@.encode_dir,
            },
        }
    }
}

impl Clone for SessionToEncodeDir {
    fn clone(&self) -> (r: Self)
        ensures
            r@ == self@,
            r is TVSeriesMapping <==> *self is TVSeriesMapping,
    {
        match self {
            SessionToEncodeDir::TVSeriesMapping(m) => SessionToEncodeDir::TVSeriesMapping(m.clone()),
            SessionToEncodeDir::MovieMapping(m) => SessionToEncodeDir::MovieMapping(m.clone()),
        }
    }
}

impl SessionToEncodeDir {
    /// A session of a TV series joined with its encode directory.
    pub fn new_tv_series_encode_dir(
        session_id: SessionId,
        session: TVSeriesSession,
        encode_dir: TVSeriesEncodeDir,
    ) -> (r: Self)
        ensures
            r is TVSeriesMapping,
            r@ == (MappingView {
                session_id: session_id@,
                session: session@,
                encode_dir: encode_dir@,
            }),
    {
        SessionToEncodeDir::TVSeriesMapping(TVSeriesToEncodeDir::new(session_id, session, encode_dir))
    }

    /// A session of a movie joined with its encode directory.
    pub fn new_movie_encode_dir(
        session_id: SessionId,
        session: MovieSession,
        encode_dir: MovieEncodeDir,
    ) -> (r: Self)
        ensures
            r is MovieMapping,
            r@ == (MappingView {
                session_id: session_id@,
                session: session@,
                encode_dir: encode_dir@,
            }),
    {
        SessionToEncodeDir::MovieMapping(MovieToEncodeDir::new(session_id, session, encode_dir))
    }

    /// Joins each session of a TV series with the encode directory stored
    /// under its id. A session without a directory gives no mapping, and
    /// neither does a directory without a session.
    pub fn from_tvseries_elements(
        tv_series_session: &SessionMap<TVSeriesSession>,
        tv_series_encode_dir: &SessionMap<TVSeriesEncodeDir>,
    ) -> (r: Vec<SessionToEncodeDir>)
        ensures
            views(r@) == joined(tv_series_session@, tv_series_encode_dir@),
            forall|k: int| 0 <= k < r@.len() ==> #[trigger] r@[k] is TVSeriesMapping,
    {
        let mut out: Vec<SessionToEncodeDir> = Vec::new();
        let mut i: usize = 0;
        while i < tv_series_session.len()
            invariant
                i <= tv_series_session@.len(),
                views(out@) == joined(
                    tv_series_session@.subrange(0, i as int),
                    tv_series_encode_dir@,
                ),
                forall|k: int| 0 <= k < out@.len() ==> #[trigger] out@[k] is TVSeriesMapping,
            decreases tv_series_session@.len() - i,
        {
            let ghost before = out@;
            let session_id = tv_series_session.key_at(i);
            let session = tv_series_session.value_at(i);
            proof {
                assert(tv_series_session@.subrange(0, i + 1).drop_last()
                    =~= tv_series_session@.subrange(0, i as int));
            }
            match tv_series_encode_dir.get(session_id) {
                Some(encode_dir) => {
                    let mapping = Self::new_tv_series_encode_dir(
                        session_id.clone(),
                        session.clone(),
                        encode_dir.clone(),
                    );
                    out.push(mapping);
                    proof {
                        assert(views(out@) =~= views(before).push(mapping@));
                    }
                },
                None => {},
            }
            i = i + 1;
        }
        proof {
            assert(tv_series_session@.subrange(0, i as int) =~= tv_series_session@);
        }
        out
    }

    /// Joins each session of a movie with the encode directory stored under
    /// its id. A session without a directory gives no mapping, and neither
    /// does a directory without a session.
    pub fn from_movie_elements(
        movie_session: &SessionMap<MovieSession>,
        movie_encode_dir: &SessionMap<MovieEncodeDir>,
    ) -> (r: Vec<SessionToEncodeDir>)
        ensures
            views(r@) == joined(movie_session@, movie_encode_dir@),
            forall|k: int| 0 <= k < r@.len() ==> #[trigger] r@[k] is MovieMapping,
    {
        let mut out: Vec<SessionToEncodeDir> = Vec::new();
        let mut i: usize = 0;
        while i < movie_session.len()
            invariant
                i <= movie_session@.len(),
                views(out@) == joined(movie_session@.subrange(0, i as int), movie_encode_dir@),
                forall|k: int| 0 <= k < out@.len() ==> #[trigger] out@[k] is MovieMapping,
            decreases movie_session@.len() - i,
        {
            let ghost before = out@;
            let session_id = movie_session.key_at(i);
            let session = movie_session.value_at(i);
            proof {
                assert(movie_session@.subrange(0, i + 1).drop_last() =~= movie_session@.subrange(
                    0,
                    i as int,
                ));
            }
            match movie_encode_dir.get(session_id) {
                Some(encode_dir) => {
                    let mapping = Self::new_movie_encode_dir(
                        session_id.clone(),
                        session.clone(),
                        encode_dir.clone(),
                    );
                    out.push(mapping);
                    proof {
                        assert(views(out@) =~= views(before).push(mapping@));
                    }
                },
                None => {},
            }
            i = i + 1;
        }
        proof {
            assert(movie_session@.subrange(0, i as int) =~= movie_session@);
        }
        out
    }

    /// The value of a mapping tells its kind: the encode directory of a
    /// mapping of a TV series is that of a season, and that of a mapping of a
    /// movie is that of a movie.
    pub proof fn lemma_kind(&self)
        ensures
            (*self is TVSeriesMapping) == self@.encode_dir.is_tv(),
    {
        match *self {
            SessionToEncodeDir::TVSeriesMapping(m) => {
                m.lemma_kind();
            },
            SessionToEncodeDir::MovieMapping(m) => {
                m.lemma_kind();
            },
        }
    }

    /// Whether the mapping is that of a TV series.
    pub fn is_tv_series(&self) -> (r: bool)
        ensures
            r == (*self is TVSeriesMapping),
            r == self@.encode_dir.is_tv(),
    {
        proof {
            self.lemma_kind();
        }
        match self {
            SessionToEncodeDir::TVSeriesMapping(_) => true,
            SessionToEncodeDir::MovieMapping(_) => false,
        }
    }

    /// The files to encode, in the order in which the session holds them.
    pub fn rename_files(&self) -> (r: Vec<InputFile>)
        ensures
            views(r@) == self@.session.files.map_values(|f: FileView| input_of(f)),
    {
        match self {
            SessionToEncodeDir::TVSeriesMapping(m) => episode_inputs(m.session().files()),
            SessionToEncodeDir::MovieMapping(m) => movie_inputs(m.session().files()),
        }
    }

    /// The number of files to encode.
    pub fn file_count(&self) -> (r: u64)
        ensures
            r == self@.session.files.len(),
    {
        match self {
            SessionToEncodeDir::TVSeriesMapping(m) => {
                let files = m.session().files();
                assert(views(files@).len() == files@.len());
                files.len() as u64
            },
            SessionToEncodeDir::MovieMapping(m) => {
                let files = m.session().files();
                assert(views(files@).len() == files@.len());
                files.len() as u64
            },
        }
    }

    /// The id of the session.
    pub fn session_id(&self) -> (r: SessionId)
        ensures
            r@ == self@.session_id,
    {
        match self {
            SessionToEncodeDir::TVSeriesMapping(m) => m.session_id(),
            SessionToEncodeDir::MovieMapping(m) => m.session_id(),
        }
    }

    /// The season, or the name of the movie, that the files are encoded for.
    pub fn location(&self) -> (r: String)
        ensures
            r@ == self@.encode_dir.locator.text(),
    {
        match self {
            SessionToEncodeDir::TVSeriesMapping(m) => m.encode_dir().season,
            SessionToEncodeDir::MovieMapping(m) => m.encode_dir().movie_name.name(),
        }
    }

    /// The path of the directory that the files are encoded to.
    pub fn encode_dir_path(&self) -> (r: String)
        ensures
            r@ == self@.encode_dir.path,
    {
        match self {
            SessionToEncodeDir::TVSeriesMapping(m) => m.encode_dir().path,
            SessionToEncodeDir::MovieMapping(m) => m.encode_dir().path,
        }
    }

    /// The mapping with the files of its session sorted by file name.
    pub fn sorted_files(&self) -> (r: Self)
        ensures
            r@ == self@.sorted(),
            r is TVSeriesMapping <==> *self is TVSeriesMapping,
    {
        match self {
            SessionToEncodeDir::TVSeriesMapping(m) => SessionToEncodeDir::TVSeriesMapping(
                TVSeriesToEncodeDir::new(m.session_id(), m.sorted_session(), m.encode_dir()),
            ),
            SessionToEncodeDir::MovieMapping(m) => SessionToEncodeDir::MovieMapping(
                MovieToEncodeDir::new(m.session_id(), m.sorted_session(), m.encode_dir()),
            ),
        }
    }
}

} // verus!
