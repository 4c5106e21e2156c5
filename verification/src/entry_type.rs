//! A session of files of either kind, joined with its encode directory.

use crate::models::EncodeDirType;
use crate::models::EncodeDirView;
use crate::models::MovieEncodeDir;
use crate::models::Session;
use crate::models::SessionId;
use crate::models::SessionView;
use crate::models::TVSeriesEncodeDir;
use vstd::prelude::*;

verus! {

/// The mathematical value of a [`SessionToEncodeDir`].
pub struct SessionToEncodeDirView {
    pub session_id: Seq<char>,
    pub session: SessionView,
    pub encode_dir: EncodeDirView,
}

/// A session together with the directory that its files are encoded to.
#[derive(Debug)]
pub struct SessionToEncodeDir {
    session_id: SessionId,
    session: Session,
    encode_dir: EncodeDirType,
}

impl View for SessionToEncodeDir {
    type V = SessionToEncodeDirView;

    closed spec fn view(&self) -> SessionToEncodeDirView {
        SessionToEncodeDirView {
            session_id: self.session_id@,
            session: self.session@,
            encode_dir: self.encode_dir@,
        }
    }
}

impl SessionToEncodeDir {
    /// Joins `session` with the encode directory of a TV series.
    pub fn new_tv_series_encode_dir(
        session_id: SessionId,
        session: Session,
        encode_dir: TVSeriesEncodeDir,
    ) -> (r: Self)
        ensures
            r@ == (SessionToEncodeDirView {
                session_id: session_id@,
                session: session@,
                encode_dir: encode_dir@,
            }),
    {
        SessionToEncodeDir { session_id, session, encode_dir: EncodeDirType::TVSeries(encode_dir) }
    }

    /// Joins `session` with the encode directory of a movie.
    pub fn new_movie_encode_dir(
        session_id: SessionId,
        session: Session,
        encode_dir: MovieEncodeDir,
    ) -> (r: Self)
        ensures
            r@ == (SessionToEncodeDirView {
                session_id: session_id@,
                session: session@,
                encode_dir: encode_dir@,
            }),
    {
        SessionToEncodeDir { session_id, session, encode_dir: EncodeDirType::Movie(encode_dir) }
    }

    /// The id of the session.
    pub fn session_id(&self) -> (r: &SessionId)
        ensures
            r@ == self@.session_id,
    {
        &self.session_id
    }

    /// The session.
    pub fn session(&self) -> (r: &Session)
        ensures
            r@ == self@.session,
    {
        &self.session
    }

    /// The encode directory.
    pub fn encode_dir(&self) -> (r: &EncodeDirType)
        ensures
            r@ == self@.encode_dir,
    {
        &self.encode_dir
    }
}

} // verus!
