use crate::models::FileView;
use crate::models::RenameTypes;
use crate::models::SessionFilesAware;
use crate::models::SessionId;
use crate::models::SessionTypeAware;
use crate::models::TVSeriesRenameFile;
use crate::models::session::SessionView;
use crate::seqs::views;
use crate::sorting::is_sorted;
use crate::sorting::sort_by_file_name;
use crate::sorting::sort_files;
use vstd::prelude::*;

verus! {

/// Copies a list of renamed episodes.
pub fn copy_episodes(files: &Vec<TVSeriesRenameFile>) -> (r: Vec<TVSeriesRenameFile>)
    ensures
        r@ == files@,
{
    let r = files.clone();
    assert(r@ =~= files@);
    r
}

/// The renamed episodes of one session.
#[derive(Debug, PartialEq, Eq)]
pub struct TVSeriesSession {
    session_id: SessionId,
    files: Vec<TVSeriesRenameFile>,
}

impl View for TVSeriesSession {
    type V = SessionView;

    closed spec fn view(&self) -> SessionView {
        SessionView { id: self.session_id@, files: views(self.files@) }
    }
}

impl Clone for TVSeriesSession {
    fn clone(&self) -> (r: Self)
        ensures
            r@ == self@,
    {
        TVSeriesSession { session_id: self.session_id.clone(), files: copy_episodes(&self.files) }
    }
}

impl TVSeriesSession {
    /// The session `session_id` with the files `files`, in the order given.
    pub fn new(session_id: SessionId, files: Vec<TVSeriesRenameFile>) -> (r: Self)
        ensures
            r@ == (SessionView { id: session_id@, files: views(files@) }),
    {
        TVSeriesSession { session_id, files }
    }

    /// Every file of the session is of the kind of the session.
    pub proof fn lemma_kind(&self)
        ensures
            forall|i: int| 0 <= i < self@.files.len() ==> (#[trigger] self@.files[i]).is_tv(),
    {
        assert forall|i: int| 0 <= i < self@.files.len() implies (#[trigger] self@.files[i]).is_tv() by {
            assert(self@.files[i] == self.files@[i]@);
        }
    }

    /// The files of the session, in the order in which they are held.
    pub fn files(&self) -> (r: Vec<TVSeriesRenameFile>)
        ensures
            views(r@) == self@.files,
    {
        copy_episodes(&self.files)
    }

    /// The files of the session, sorted by file name, and by path where two
    /// names are equal.
    pub fn files_sorted(&self) -> (r: Vec<TVSeriesRenameFile>)
        ensures
            views(r@) == sort_files(self@.files),
            is_sorted(views(r@)),
            views(r@).to_multiset() == self@.files.to_multiset(),
    {
        sort_by_file_name(copy_episodes(&self.files))
    }

    /// The id of the session.
    pub fn session_id(&self) -> (r: SessionId)
        ensures
            r@ == self@.id,
    {
        self.session_id.clone()
    }
}

impl SessionTypeAware for TVSeriesSession {
    open spec fn session_text(&self) -> Seq<char> {
        self@.id
    }

    fn session_id(&self) -> (r: SessionId) {
        self.session_id.clone()
    }
}

impl SessionFilesAware for TVSeriesSession {
    open spec fn file_views(&self) -> Seq<FileView> {
        self@.files
    }

    fn files(&self) -> (r: Vec<RenameTypes>) {
        let mut out: Vec<RenameTypes> = Vec::new();
        let mut i: usize = 0;
        while i < self.files.len()
            invariant
                i <= self.files@.len(),
                views(out@) == views(self.files@).subrange(0, i as int),
            decreases self.files@.len() - i,
        {
            let ghost before = out@;
            let file = self.files[i].clone();
            out.push(RenameTypes::TVSeries(file));
            proof {
                assert(views(out@) =~= views(before).push(self.files@[i as int]@));
                assert(views(self.files@).subrange(0, i + 1) =~= views(self.files@).subrange(
                    0,
                    i as int,
                ).push(self.files@[i as int]@));
            }
            i = i + 1;
        }
        proof {
            assert(views(self.files@).subrange(0, i as int) =~= views(self.files@));
        }
        out
    }
}

} // verus!
