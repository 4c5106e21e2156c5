use crate::models::EncodeDirView;
use crate::models::SessionId;
use crate::models::SessionView;
use crate::models::MovieSession;
use crate::models::MovieEncodeDir;
use crate::sorting::sort_files;
use vstd::prelude::*;

verus! {

/// The mathematical value of a session joined with its encode directory.
pub struct MovieToEncodeDirView {
    pub session_id: Seq<char>,
    pub session: SessionView,
    pub encode_dir: EncodeDirView,
}

/// A session of a movie together with the directory it is encoded to.
#[derive(Debug, PartialEq, Eq)]
pub struct MovieToEncodeDir {
    session_id: SessionId,
    session: MovieSession,
    encode_dir: MovieEncodeDir,
}

impl View for MovieToEncodeDir {
    type V = MovieToEncodeDirView;

    closed spec fn view(&self) -> MovieToEncodeDirView {
        MovieToEncodeDirView {
            session_id: self.session_id@,
            session: self.session@,
            encode_dir: self.encode_dir@,
        }
    }
}

impl Clone for MovieToEncodeDir {
    fn clone(&self) -> (r: Self)
        ensures
            r@ == self@,
    {
        MovieToEncodeDir {
            session_id: self.session_id.clone(),
            session: self.session.clone(),
            encode_dir: self.encode_dir.clone(),
        }
    }
}

impl MovieToEncodeDir {
    /// Joins `session` with `encode_dir` under `session_id`.
    pub fn new(session_id: SessionId, session: MovieSession, encode_dir: MovieEncodeDir) -> (r: Self)
        ensures
            r@ == (MovieToEncodeDirView {
                session_id: session_id@,
                session: session@,
                encode_dir: encode_dir@,
            }),
    {
        MovieToEncodeDir { session_id, session, encode_dir }
    }

    /// The encode directory of the mapping is that of a movie, and so is every
    /// file of its session.
    pub proof fn lemma_kind(&self)
        ensures
            !self@.encode_dir.is_tv(),
            forall|i: int|
                0 <= i < self@.session.files.len() ==> !(#[trigger] self@.session.files[i]).is_tv(),
    {
        self.session.lemma_kind();
    }

    /// A copy of the session.
    pub fn session(&self) -> (r: MovieSession)
        ensures
            r@ == self@.session,
    {
        self.session.clone()
    }

    /// The session under the id of the mapping, with its files sorted by file
    /// name.
    pub fn sorted_session(&self) -> (r: MovieSession)
        ensures
            r@ == (SessionView {
                id: self@.session_id,
                files: sort_files(self@.session.files),
            }),
    {
        MovieSession::new(self.session_id.clone(), self.session.sorted_files())
    }

    /// A copy of the encode directory.
    pub fn encode_dir(&self) -> (r: MovieEncodeDir)
        ensures
            r@ == self@.encode_dir,
    {
        self.encode_dir.clone()
    }

    /// The id of the session.
    pub fn session_id(&self) -> (r: SessionId)
        ensures
            r@ == self@.session_id,
    {
        self.session_id.clone()
    }
}

} // verus!
