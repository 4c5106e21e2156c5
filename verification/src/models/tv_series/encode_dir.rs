use crate::models::EncodeDirView;
use crate::models::SessionId;
use crate::models::SessionView;
use crate::models::TVSeriesSession;
use crate::models::TVSeriesEncodeDir;
use crate::sorting::sort_files;
use vstd::prelude::*;

verus! {

/// The mathematical value of a session joined with its encode directory.
pub struct TVSeriesToEncodeDirView {
    pub session_id: Seq<char>,
    pub session: SessionView,
    pub encode_dir: EncodeDirView,
}

/// A session of a TV series together with the directory it is encoded to.
#[derive(Debug, PartialEq, Eq)]
pub struct TVSeriesToEncodeDir {
    session_id: SessionId,
    session: TVSeriesSession,
    encode_dir: TVSeriesEncodeDir,
}

impl View for TVSeriesToEncodeDir {
    type V = TVSeriesToEncodeDirView;

    closed spec fn view(&self) -> TVSeriesToEncodeDirView {
        TVSeriesToEncodeDirView {
            session_id: self.session_id@,
            session: self.session@,
            encode_dir: self.encode_dir@,
        }
    }
}

impl Clone for TVSeriesToEncodeDir {
    fn clone(&self) -> (r: Self)
        ensures
            r@ == self@,
    {
        TVSeriesToEncodeDir {
            session_id: self.session_id.clone(),
            session: self.session.clone(),
            encode_dir: self.encode_dir.clone(),
        }
    }
}

impl TVSeriesToEncodeDir {
    /// Joins `session` with `encode_dir` under `session_id`.
    pub fn new(session_id: SessionId, session: TVSeriesSession, encode_dir: TVSeriesEncodeDir) -> (r: Self)
        ensures
            r@ == (TVSeriesToEncodeDirView {
                session_id: session_id@,
                session: session@,
                encode_dir: encode_dir@,
            }),
    {
        TVSeriesToEncodeDir { session_id, session, encode_dir }
    }

    /// The encode directory of the mapping is that of a TV series, and so is every
    /// file of its session.
    pub proof fn lemma_kind(&self)
        ensures
            self@.encode_dir.is_tv(),
            forall|i: int|
                0 <= i < self@.session.files.len() ==> (#[trigger] self@.session.files[i]).is_tv(),
    {
        self.session.lemma_kind();
    }

    /// A copy of the session.
    pub fn session(&self) -> (r: TVSeriesSession)
        ensures
            r@ == self@.session,
    {
        self.session.clone()
    }

    /// The session under the id of the mapping, with its files sorted by file
    /// name.
    pub fn sorted_session(&self) -> (r: TVSeriesSession)
        ensures
            r@ == (SessionView {
                id: self@.session_id,
                files: sort_files(self@.session.files),
            }),
    {
        TVSeriesSession::new(self.session_id.clone(), self.session.files_sorted())
    }

    /// A copy of the encode directory.
    pub fn encode_dir(&self) -> (r: TVSeriesEncodeDir)
        ensures
            r@ == self@.encode_dir,
    {
        self.encode_dir.clone()
    }

    /// The id of the session.
    pub fn session_id(&self) -> (r: SessionId)
        ensures
            r@ == self@.session_id,
    {
        self.session_id.clone()
    }
}

} // verus!
