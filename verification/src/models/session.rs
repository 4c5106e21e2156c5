use super::FileView;
use super::RenameTypes;
use super::SessionFilesAware;
use super::SessionId;
use super::SessionTypeAware;
use crate::seqs::views;
use crate::sorting::is_sorted;
use crate::sorting::sort_by_file_name;
use crate::sorting::sort_files;
use vstd::prelude::*;

verus! {

/// The mathematical value of a session: its id and its files.
pub struct SessionView {
    pub id: Seq<char>,
    pub files: Seq<FileView>,
}

/// Copies a list of renamed files.
pub fn copy_renames(files: &Vec<RenameTypes>) -> (r: Vec<RenameTypes>)
    ensures
        r@ == files@,
{
    let r = files.clone();
    assert(r@ =~= files@);
    r
}

/// A session whose files may be of either kind.
#[derive(Debug, PartialEq, Eq)]
pub struct Session {
    session_id: SessionId,
    files: Vec<RenameTypes>,
}

impl View for Session {
    type V = SessionView;

    closed spec fn view(&self) -> SessionView {
        SessionView { id: self.session_id@, files: views(self.files@) }
    }
}

impl Clone for Session {
    fn clone(&self) -> (r: Self)
        ensures
            r@ == self@,
    {
        Session { session_id: self.session_id.clone(), files: copy_renames(&self.files) }
    }
}

impl Session {
    /// The session `session_id` with the files `files`, in the order given.
    pub fn new(session_id: SessionId, files: Vec<RenameTypes>) -> (r: Self)
        ensures
            r@ == (SessionView { id: session_id@, files: views(files@) }),
    {
        Session { session_id, files }
    }

    /// The files of the session, sorted by file name.
    pub fn files(&self) -> (r: Vec<RenameTypes>)
        ensures
            views(r@) == sort_files(self@.files),
            is_sorted(views(r@)),
            views(r@).to_multiset() == self@.files.to_multiset(),
    {
        sort_by_file_name(copy_renames(&self.files))
    }

    /// The id of the session.
    pub fn id(&self) -> (r: SessionId)
        ensures
            r@ == self@.id,
    {
        self.session_id.clone()
    }
}

impl SessionTypeAware for Session {
    open spec fn session_text(&self) -> Seq<char> {
        self@.id
    }

    fn session_id(&self) -> (r: SessionId) {
        self.session_id.clone()
    }
}

impl SessionFilesAware for Session {
    open spec fn file_views(&self) -> Seq<FileView> {
        self@.files
    }

    fn files(&self) -> (r: Vec<RenameTypes>) {
        copy_renames(&self.files)
    }
}

} // verus!
