//! Grouping by session: renamed files into sessions, and declared encode
//! directories into one directory for each session.

use crate::models::EncodeDirType;
use crate::models::EncodeDirView;
use crate::models::FileView;
use crate::models::MovieEncodeDir;
use crate::models::MovieRenameFile;
use crate::models::MovieSession;
use crate::models::RenameTypes;
use crate::models::Session;
use crate::models::SessionId;
use crate::models::SessionMap;
use crate::models::SessionTypeAware;
use crate::models::SessionView;
use crate::models::TVSeriesEncodeDir;
use crate::models::TVSeriesRenameFile;
use crate::models::TVSeriesSession;
use crate::models::session_map::inserted;
use crate::models::session_map::keys_of;
use crate::models::session_map::lemma_inserted;
use crate::models::session_map::lemma_position_of;
use crate::models::session_map::position_of;
use crate::seqs::first_occurrences;
use crate::seqs::lemma_first_occurrences;
use crate::seqs::views;
use crate::sorting::sort_by_file_name;
use crate::sorting::sort_files;
use vstd::prelude::*;

verus! {

/// The session of each file of the kind `tv`, in the order of `files`.
pub open spec fn kind_ids(files: Seq<FileView>, tv: bool) -> Seq<Seq<char>>
    decreases files.len(),
{
    if files.len() == 0 {
        Seq::empty()
    } else {
        let before = kind_ids(files.drop_last(), tv);
        if files.last().is_tv() == tv {
            before.push(files.last().session)
        } else {
            before
        }
    }
}

/// The files of the kind `tv` that belong to the session `id`, in the order of
/// `files`.
pub open spec fn files_of(files: Seq<FileView>, id: Seq<char>, tv: bool) -> Seq<FileView>
    decreases files.len(),
{
    if files.len() == 0 {
        Seq::empty()
    } else {
        let before = files_of(files.drop_last(), id, tv);
        if files.last().is_tv() == tv && files.last().session == id {
            before.push(files.last())
        } else {
            before
        }
    }
}

/// The sessions that have a file of the kind `tv`, each once, in the order in
/// which their first file stands in `files`.
pub open spec fn session_ids(files: Seq<FileView>, tv: bool) -> Seq<Seq<char>> {
    first_occurrences(kind_ids(files, tv))
}

/// The session `id` of the kind `tv`: its files out of `files`, sorted by file
/// name.
pub open spec fn session_of(files: Seq<FileView>, id: Seq<char>, tv: bool) -> SessionView {
    SessionView { id, files: sort_files(files_of(files, id, tv)) }
}

/// The sessions of the kind `tv` that `files` make up, by session id.
pub open spec fn sessions_of(files: Seq<FileView>, tv: bool) -> Seq<(Seq<char>, SessionView)> {
    Seq::new(
        session_ids(files, tv).len(),
        |i: int| (session_ids(files, tv)[i], session_of(files, session_ids(files, tv)[i], tv)),
    )
}

/// The directory that each session declares: where a session declares more
/// than one, the last one stands, in the place of the first.
pub open spec fn declared_dirs(dirs: Seq<EncodeDirView>) -> Seq<(Seq<char>, EncodeDirView)>
    decreases dirs.len(),
{
    if dirs.len() == 0 {
        Seq::empty()
    } else {
        inserted(declared_dirs(dirs.drop_last()), dirs.last().session, dirs.last())
    }
}

/// The directories of `m` that are of the kind `tv`, in the order of `m`.
pub open spec fn dirs_of_kind(m: Seq<(Seq<char>, EncodeDirView)>, tv: bool) -> Seq<
    (Seq<char>, EncodeDirView),
>
    decreases m.len(),
{
    if m.len() == 0 {
        Seq::empty()
    } else {
        let before = dirs_of_kind(m.drop_last(), tv);
        if m.last().1.is_tv() == tv {
            before.push(m.last())
        } else {
            before
        }
    }
}

/// The directories of one kind are directories of the whole, and their keys
/// stay distinct.
pub proof fn lemma_dirs_of_kind(m: Seq<(Seq<char>, EncodeDirView)>, tv: bool)
    ensures
        forall|e: (Seq<char>, EncodeDirView)|
            (#[trigger] dirs_of_kind(m, tv).contains(e)) <==> m.contains(e) && e.1.is_tv() == tv,
        forall|k: Seq<char>|
            (#[trigger] keys_of(dirs_of_kind(m, tv)).contains(k)) ==> keys_of(m).contains(k),
        keys_of(m).no_duplicates() ==> keys_of(dirs_of_kind(m, tv)).no_duplicates(),
    decreases m.len(),
{
    if m.len() > 0 {
        let init = m.drop_last();
        let before = dirs_of_kind(init, tv);
        let now = dirs_of_kind(m, tv);
        lemma_dirs_of_kind(init, tv);
        assert forall|e: (Seq<char>, EncodeDirView)|
            (#[trigger] now.contains(e)) <==> m.contains(e) && e.1.is_tv() == tv by {
            if now.contains(e) {
                let j = choose|j: int| 0 <= j < now.len() && now[j] == e;
                if j < before.len() {
                    assert(before[j] == e);
                    assert(before.contains(e));
                    let i = choose|i: int| 0 <= i < init.len() && init[i] == e;
                    assert(m[i] == e);
                } else {
                    assert(m[m.len() - 1] == e);
                }
            }
            if m.contains(e) && e.1.is_tv() == tv {
                let i = choose|i: int| 0 <= i < m.len() && m[i] == e;
                if i < init.len() {
                    assert(init[i] == e);
                    assert(init.contains(e));
                    assert(before.contains(e));
                    let j = choose|j: int| 0 <= j < before.len() && before[j] == e;
                    assert(now[j] == e);
                } else {
                    assert(now[now.len() - 1] == e);
                }
            }
        }
        assert forall|k: Seq<char>| (#[trigger] keys_of(now).contains(k)) implies keys_of(
            m,
        ).contains(k) by {
            let j = choose|j: int| 0 <= j < keys_of(now).len() && keys_of(now)[j] == k;
            if j < before.len() {
                assert(keys_of(before)[j] == k);
                assert(keys_of(before).contains(k));
                let i = choose|i: int| 0 <= i < keys_of(init).len() && keys_of(init)[i] == k;
                assert(keys_of(m)[i] == k);
            } else {
                assert(keys_of(m)[m.len() - 1] == k);
            }
        }
        if keys_of(m).no_duplicates() {
            assert(keys_of(init) =~= keys_of(m).drop_last());
            assert(keys_of(init).no_duplicates());
            if m.last().1.is_tv() == tv {
                assert(keys_of(now) =~= keys_of(before).push(m.last().0));
                if keys_of(before).contains(m.last().0) {
                    let i = choose|i: int|
                        0 <= i < keys_of(init).len() && keys_of(init)[i] == m.last().0;
                    assert(keys_of(m)[i] == keys_of(m)[m.len() - 1]);
                }
            }
        }
    }
}

/// Whether `id` is among `ids`.
pub fn contains_id(ids: &Vec<SessionId>, id: &SessionId) -> (r: bool)
    ensures
        r == views(ids@).contains(id@),
{
    let mut i: usize = 0;
    while i < ids.len()
        invariant
            i <= ids@.len(),
            forall|j: int| 0 <= j < i ==> views(ids@)[j] != id@,
        decreases ids@.len() - i,
    {
        if ids[i].same(id) {
            assert(views(ids@)[i as int] == id@);
            return true;
        }
        i = i + 1;
    }
    false
}

fn session_ids_of(renames: &Vec<RenameTypes>, tv: bool) -> (r: Vec<SessionId>)
    ensures
        views(r@) == session_ids(views(renames@), tv),
{
    let ghost files = views(renames@);
    let mut ids: Vec<SessionId> = Vec::new();
    let mut i: usize = 0;
    assert(views(ids@) =~= session_ids(files.subrange(0, 0), tv));
    while i < renames.len()
        invariant
            i <= renames@.len(),
            files == views(renames@),
            views(ids@) == session_ids(files.subrange(0, i as int), tv),
        decreases renames@.len() - i,
    {
        let ghost before = ids@;
        proof {
            let now = files.subrange(0, i + 1);
            assert(now.drop_last() =~= files.subrange(0, i as int));
            assert(now.last() == renames@[i as int]@);
            if now.last().is_tv() == tv {
                assert(kind_ids(now, tv).drop_last() =~= kind_ids(now.drop_last(), tv));
            }
        }
        if renames[i].is_tv_series() == tv {
            let id = renames[i].session_id();
            if !contains_id(&ids, &id) {
                ids.push(id);
                assert(views(ids@) =~= views(before).push(id@));
            }
        }
        i = i + 1;
    }
    assert(files.subrange(0, i as int) =~= files);
    ids
}

fn episodes_of(renames: &Vec<RenameTypes>, id: &SessionId) -> (r: Vec<TVSeriesRenameFile>)
    ensures
        views(r@) == files_of(views(renames@), id@, true),
{
    let ghost files = views(renames@);
    let mut out: Vec<TVSeriesRenameFile> = Vec::new();
    let mut i: usize = 0;
    assert(views(out@) =~= files_of(files.subrange(0, 0), id@, true));
    while i < renames.len()
        invariant
            i <= renames@.len(),
            files == views(renames@),
            views(out@) == files_of(files.subrange(0, i as int), id@, true),
        decreases renames@.len() - i,
    {
        let ghost before = out@;
        proof {
            let now = files.subrange(0, i + 1);
            assert(now.drop_last() =~= files.subrange(0, i as int));
            assert(now.last() == renames@[i as int]@);
        }
        match &renames[i] {
            RenameTypes::TVSeries(file) => {
                if file.session.same(id) {
                    out.push(file.clone());
                    assert(views(out@) =~= views(before).push(file@));
                }
            },
            RenameTypes::Movie(_) => {},
        }
        i = i + 1;
    }
    assert(files.subrange(0, i as int) =~= files);
    out
}

fn movies_of(renames: &Vec<RenameTypes>, id: &SessionId) -> (r: Vec<MovieRenameFile>)
    ensures
        views(r@) == files_of(views(renames@), id@, false),
{
    let ghost files = views(renames@);
    let mut out: Vec<MovieRenameFile> = Vec::new();
    let mut i: usize = 0;
    assert(views(out@) =~= files_of(files.subrange(0, 0), id@, false));
    while i < renames.len()
        invariant
            i <= renames@.len(),
            files == views(renames@),
            views(out@) == files_of(files.subrange(0, i as int), id@, false),
        decreases renames@.len() - i,
    {
        let ghost before = out@;
        proof {
            let now = files.subrange(0, i + 1);
            assert(now.drop_last() =~= files.subrange(0, i as int));
            assert(now.last() == renames@[i as int]@);
        }
        match &renames[i] {
            RenameTypes::Movie(file) => {
                if file.session.same(id) {
                    out.push(file.clone());
                    assert(views(out@) =~= views(before).push(file@));
                }
            },
            RenameTypes::TVSeries(_) => {},
        }
        i = i + 1;
    }
    assert(files.subrange(0, i as int) =~= files);
    out
}

proof fn lemma_new_key<A>(m: Seq<(Seq<char>, A)>, ids: Seq<Seq<char>>, i: int, value: A)
    requires
        ids.no_duplicates(),
        0 <= i < ids.len(),
        keys_of(m) == ids.subrange(0, i),
    ensures
        inserted(m, ids[i], value) == m.push((ids[i], value)),
        keys_of(m.push((ids[i], value))) == ids.subrange(0, i + 1),
{
    lemma_position_of(keys_of(m), ids[i]);
    if let Some(j) = position_of(keys_of(m), ids[i]) {
        assert(ids.subrange(0, i)[j] == ids[j]);
    }
    assert(keys_of(m.push((ids[i], value))) =~= ids.subrange(0, i + 1));
}

/// Groups renamed files into the sessions of TV series and the sessions of
/// movies. A session holds the files of its kind that carry its id, sorted by
/// file name; the sessions stand in the order in which their first file
/// comes.
pub fn group_sessions(renames: &Vec<RenameTypes>) -> (r: (
    SessionMap<TVSeriesSession>,
    SessionMap<MovieSession>,
))
    ensures
        r.0@ == sessions_of(views(renames@), true),
        r.1@ == sessions_of(views(renames@), false),
        r.0.wf(),
        r.1.wf(),
{
    let ghost files = views(renames@);
    let tv_ids = session_ids_of(renames, true);
    let movie_ids = session_ids_of(renames, false);
    proof {
        lemma_first_occurrences(kind_ids(files, true));
        lemma_first_occurrences(kind_ids(files, false));
    }
    let mut tv_sessions: SessionMap<TVSeriesSession> = SessionMap::new();
    let mut i: usize = 0;
    assert(tv_sessions@ =~= sessions_of(files, true).subrange(0, 0));
    assert(keys_of(tv_sessions@) =~= views(tv_ids@).subrange(0, 0));
    while i < tv_ids.len()
        invariant
            i <= tv_ids@.len(),
            files == views(renames@),
            views(tv_ids@) == session_ids(files, true),
            views(tv_ids@).no_duplicates(),
            tv_sessions@ == sessions_of(files, true).subrange(0, i as int),
            keys_of(tv_sessions@) == views(tv_ids@).subrange(0, i as int),
            tv_sessions.wf(),
        decreases tv_ids@.len() - i,
    {
        let ghost before = tv_sessions@;
        let id = &tv_ids[i];
        assert(id@ == views(tv_ids@)[i as int]);
        let session = TVSeriesSession::new(id.clone(), sort_by_file_name(episodes_of(renames, id)));
        proof {
            lemma_new_key(before, views(tv_ids@), i as int, session@);
        }
        tv_sessions.insert(id.clone(), session);
        assert(tv_sessions@ =~= sessions_of(files, true).subrange(0, i + 1));
        i = i + 1;
    }
    assert(sessions_of(files, true).subrange(0, i as int) =~= sessions_of(files, true));
    let mut movie_sessions: SessionMap<MovieSession> = SessionMap::new();
    let mut k: usize = 0;
    assert(movie_sessions@ =~= sessions_of(files, false).subrange(0, 0));
    assert(keys_of(movie_sessions@) =~= views(movie_ids@).subrange(0, 0));
    while k < movie_ids.len()
        invariant
            k <= movie_ids@.len(),
            files == views(renames@),
            views(movie_ids@) == session_ids(files, false),
            views(movie_ids@).no_duplicates(),
            movie_sessions@ == sessions_of(files, false).subrange(0, k as int),
            keys_of(movie_sessions@) == views(movie_ids@).subrange(0, k as int),
            movie_sessions.wf(),
        decreases movie_ids@.len() - k,
    {
        let ghost before = movie_sessions@;
        let id = &movie_ids[k];
        assert(id@ == views(movie_ids@)[k as int]);
        let session = MovieSession::new(id.clone(), sort_by_file_name(movies_of(renames, id)));
        proof {
            lemma_new_key(before, views(movie_ids@), k as int, session@);
        }
        movie_sessions.insert(id.clone(), session);
        assert(movie_sessions@ =~= sessions_of(files, false).subrange(0, k + 1));
        k = k + 1;
    }
    assert(sessions_of(files, false).subrange(0, k as int) =~= sessions_of(files, false));
    (tv_sessions, movie_sessions)
}

/// The session of each file, in the order of `files`.
pub open spec fn all_ids(files: Seq<FileView>) -> Seq<Seq<char>> {
    files.map_values(|f: FileView| f.session)
}

/// The files of either kind that belong to the session `id`, in the order of
/// `files`.
pub open spec fn files_in(files: Seq<FileView>, id: Seq<char>) -> Seq<FileView>
    decreases files.len(),
{
    if files.len() == 0 {
        Seq::empty()
    } else {
        let before = files_in(files.drop_last(), id);
        if files.last().session == id {
            before.push(files.last())
        } else {
            before
        }
    }
}

/// The sessions that `files` make up when the kinds are not told apart, by
/// session id: each holds its files in the order in which they were given.
pub open spec fn mixed_sessions_of(files: Seq<FileView>) -> Seq<(Seq<char>, SessionView)> {
    Seq::new(
        first_occurrences(all_ids(files)).len(),
        |i: int|
            (
                first_occurrences(all_ids(files))[i],
                SessionView {
                    id: first_occurrences(all_ids(files))[i],
                    files: files_in(files, first_occurrences(all_ids(files))[i]),
                },
            ),
    )
}

fn all_session_ids_of(renames: &Vec<RenameTypes>) -> (r: Vec<SessionId>)
    ensures
        views(r@) == first_occurrences(all_ids(views(renames@))),
{
    let ghost ids = all_ids(views(renames@));
    let mut out: Vec<SessionId> = Vec::new();
    let mut i: usize = 0;
    assert(views(out@) =~= first_occurrences(ids.subrange(0, 0)));
    while i < renames.len()
        invariant
            i <= renames@.len(),
            ids == all_ids(views(renames@)),
            views(out@) == first_occurrences(ids.subrange(0, i as int)),
        decreases renames@.len() - i,
    {
        let ghost before = out@;
        let id = renames[i].session_id();
        proof {
            let now = ids.subrange(0, i + 1);
            assert(now.drop_last() =~= ids.subrange(0, i as int));
            assert(now.last() == id@);
        }
        if !contains_id(&out, &id) {
            out.push(id);
            assert(views(out@) =~= views(before).push(id@));
        }
        i = i + 1;
    }
    assert(ids.subrange(0, i as int) =~= ids);
    out
}

fn renames_in(renames: &Vec<RenameTypes>, id: &SessionId) -> (r: Vec<RenameTypes>)
    ensures
        views(r@) == files_in(views(renames@), id@),
{
    let ghost files = views(renames@);
    let mut out: Vec<RenameTypes> = Vec::new();
    let mut i: usize = 0;
    assert(views(out@) =~= files_in(files.subrange(0, 0), id@));
    while i < renames.len()
        invariant
            i <= renames@.len(),
            files == views(renames@),
            views(out@) == files_in(files.subrange(0, i as int), id@),
        decreases renames@.len() - i,
    {
        let ghost before = out@;
        proof {
            let now = files.subrange(0, i + 1);
            assert(now.drop_last() =~= files.subrange(0, i as int));
            assert(now.last() == renames@[i as int]@);
        }
        if renames[i].session_id().same(id) {
            let file = renames[i].clone();
            out.push(file);
            assert(views(out@) =~= views(before).push(file@));
        }
        i = i + 1;
    }
    assert(files.subrange(0, i as int) =~= files);
    out
}

/// Groups renamed files by session, whatever their kind. A session holds the
/// files that carry its id, in the order given; the sessions stand in the
/// order in which their first file comes.
pub fn group_mixed_sessions(renames: &Vec<RenameTypes>) -> (r: SessionMap<Session>)
    ensures
        r@ == mixed_sessions_of(views(renames@)),
        r.wf(),
{
    let ghost files = views(renames@);
    let ids = all_session_ids_of(renames);
    proof {
        lemma_first_occurrences(all_ids(files));
    }
    let mut sessions: SessionMap<Session> = SessionMap::new();
    let mut i: usize = 0;
    assert(sessions@ =~= mixed_sessions_of(files).subrange(0, 0));
    assert(keys_of(sessions@) =~= views(ids@).subrange(0, 0));
    while i < ids.len()
        invariant
            i <= ids@.len(),
            files == views(renames@),
            views(ids@) == first_occurrences(all_ids(files)),
            views(ids@).no_duplicates(),
            sessions@ == mixed_sessions_of(files).subrange(0, i as int),
            keys_of(sessions@) == views(ids@).subrange(0, i as int),
            sessions.wf(),
        decreases ids@.len() - i,
    {
        let ghost before = sessions@;
        let id = &ids[i];
        assert(id@ == views(ids@)[i as int]);
        let session = Session::new(id.clone(), renames_in(renames, id));
        proof {
            lemma_new_key(before, views(ids@), i as int, session@);
        }
        sessions.insert(id.clone(), session);
        assert(sessions@ =~= mixed_sessions_of(files).subrange(0, i + 1));
        i = i + 1;
    }
    assert(mixed_sessions_of(files).subrange(0, i as int) =~= mixed_sessions_of(files));
    sessions
}

/// Groups declared encode directories by session and by kind. Each session
/// keeps the directory it declared last, whatever the kind of those it
/// declared before, and the sessions stand in the order in which they first
/// declared one.
pub fn group_encode_dirs(dirs: &Vec<EncodeDirType>) -> (r: (
    SessionMap<TVSeriesEncodeDir>,
    SessionMap<MovieEncodeDir>,
))
    ensures
        r.0@ == dirs_of_kind(declared_dirs(views(dirs@)), true),
        r.1@ == dirs_of_kind(declared_dirs(views(dirs@)), false),
        r.0.wf(),
        r.1.wf(),
{
    let ghost all = views(dirs@);
    let mut declared: SessionMap<EncodeDirType> = SessionMap::new();
    let mut i: usize = 0;
    assert(declared@ =~= declared_dirs(all.subrange(0, 0)));
    while i < dirs.len()
        invariant
            i <= dirs@.len(),
            all == views(dirs@),
            declared@ == declared_dirs(all.subrange(0, i as int)),
            declared.wf(),
        decreases dirs@.len() - i,
    {
        proof {
            let now = all.subrange(0, i + 1);
            assert(now.drop_last() =~= all.subrange(0, i as int));
            assert(now.last() == dirs@[i as int]@);
        }
        declared.insert(dirs[i].session_id(), dirs[i].clone());
        i = i + 1;
    }
    assert(all.subrange(0, i as int) =~= all);
    let ghost whole = declared@;
    let mut tv_dirs: SessionMap<TVSeriesEncodeDir> = SessionMap::new();
    let mut movie_dirs: SessionMap<MovieEncodeDir> = SessionMap::new();
    let mut k: usize = 0;
    assert(tv_dirs@ =~= dirs_of_kind(whole.subrange(0, 0), true));
    assert(movie_dirs@ =~= dirs_of_kind(whole.subrange(0, 0), false));
    while k < declared.len()
        invariant
            k <= declared@.len(),
            whole == declared@,
            keys_of(whole).no_duplicates(),
            tv_dirs@ == dirs_of_kind(whole.subrange(0, k as int), true),
            movie_dirs@ == dirs_of_kind(whole.subrange(0, k as int), false),
            tv_dirs.wf(),
            movie_dirs.wf(),
        decreases declared@.len() - k,
    {
        let ghost done = whole.subrange(0, k as int);
        let ghost now = whole.subrange(0, k + 1);
        let id = declared.key_at(k);
        proof {
            assert(now.drop_last() =~= done);
            assert(now.last() == whole[k as int]);
            lemma_dirs_of_kind(done, true);
            lemma_dirs_of_kind(done, false);
            assert(!keys_of(done).contains(id@)) by {
                if keys_of(done).contains(id@) {
                    let j = choose|j: int| 0 <= j < keys_of(done).len() && keys_of(done)[j] == id@;
                    assert(keys_of(whole)[j] == keys_of(whole)[k as int]);
                }
            }
            lemma_position_of(keys_of(tv_dirs@), id@);
            lemma_position_of(keys_of(movie_dirs@), id@);
            if let Some(j) = position_of(keys_of(tv_dirs@), id@) {
                assert(keys_of(tv_dirs@).contains(id@));
            }
            if let Some(j) = position_of(keys_of(movie_dirs@), id@) {
                assert(keys_of(movie_dirs@).contains(id@));
            }
        }
        let ghost tv_before = tv_dirs@;
        let ghost movie_before = movie_dirs@;
        match declared.value_at(k) {
            EncodeDirType::TVSeries(dir) => {
                tv_dirs.insert(id.clone(), dir.clone());
                assert(tv_dirs@ == tv_before.push((id@, dir@)));
                assert(whole[k as int] == (id@, dir@));
            },
            EncodeDirType::Movie(dir) => {
                movie_dirs.insert(id.clone(), dir.clone());
                assert(movie_dirs@ == movie_before.push((id@, dir@)));
                assert(whole[k as int] == (id@, dir@));
            },
        }
        k = k + 1;
    }
    assert(whole.subrange(0, k as int) =~= whole);
    (tv_dirs, movie_dirs)
}

/// The session of each directory, in order.
pub open spec fn dir_sessions(dirs: Seq<EncodeDirView>) -> Seq<Seq<char>> {
    dirs.map_values(|d: EncodeDirView| d.session)
}

/// The ids that stand more than once in `ids`, each once, in the order in
/// which they stand there for the second time.
pub open spec fn repeated(ids: Seq<Seq<char>>) -> Seq<Seq<char>>
    decreases ids.len(),
{
    if ids.len() == 0 {
        Seq::empty()
    } else {
        let before = repeated(ids.drop_last());
        if ids.drop_last().contains(ids.last()) && !before.contains(ids.last()) {
            before.push(ids.last())
        } else {
            before
        }
    }
}

/// An id is repeated exactly if it stands at two places, and no repeated id
/// is listed twice.
pub proof fn lemma_repeated(ids: Seq<Seq<char>>)
    ensures
        repeated(ids).no_duplicates(),
        forall|x: Seq<char>|
            (#[trigger] repeated(ids).contains(x)) <==> (exists|i: int, j: int|
                0 <= i < j < ids.len() && ids[i] == x && ids[j] == x),
    decreases ids.len(),
{
    if ids.len() > 0 {
        let init = ids.drop_last();
        let last = ids.last();
        let before = repeated(init);
        let now = repeated(ids);
        lemma_repeated(init);
        assert forall|x: Seq<char>|
            (#[trigger] now.contains(x)) <==> (exists|i: int, j: int|
                0 <= i < j < ids.len() && ids[i] == x && ids[j] == x) by {
            if now.contains(x) {
                let k = choose|k: int| 0 <= k < now.len() && now[k] == x;
                if k < before.len() {
                    assert(before[k] == x);
                    assert(before.contains(x));
                    let (i, j) = choose|i: int, j: int|
                        0 <= i < j < init.len() && init[i] == x && init[j] == x;
                    assert(ids[i] == x && ids[j] == x);
                } else {
                    assert(x == last);
                    let i = choose|i: int| 0 <= i < init.len() && init[i] == last;
                    assert(ids[i] == x && ids[ids.len() - 1] == x);
                }
            }
            if exists|i: int, j: int| 0 <= i < j < ids.len() && ids[i] == x && ids[j] == x {
                let (i, j) = choose|i: int, j: int|
                    0 <= i < j < ids.len() && ids[i] == x && ids[j] == x;
                if j < init.len() {
                    assert(init[i] == x && init[j] == x);
                    assert(before.contains(x));
                    let k = choose|k: int| 0 <= k < before.len() && before[k] == x;
                    assert(now[k] == x);
                } else {
                    assert(init[i] == x);
                    assert(init.contains(last));
                    if before.contains(last) {
                        let k = choose|k: int| 0 <= k < before.len() && before[k] == x;
                        assert(now[k] == x);
                    } else {
                        assert(now[now.len() - 1] == x);
                    }
                }
            }
        }
    }
}

/// The sessions that declare an encode directory more than once.
pub fn repeated_declarations(dirs: &Vec<EncodeDirType>) -> (r: Vec<SessionId>)
    ensures
        views(r@) == repeated(dir_sessions(views(dirs@))),
{
    let ghost ids = dir_sessions(views(dirs@));
    let mut seen: Vec<SessionId> = Vec::new();
    let mut out: Vec<SessionId> = Vec::new();
    let mut i: usize = 0;
    assert(views(seen@) =~= ids.subrange(0, 0));
    assert(views(out@) =~= repeated(ids.subrange(0, 0)));
    while i < dirs.len()
        invariant
            i <= dirs@.len(),
            ids == dir_sessions(views(dirs@)),
            views(seen@) == ids.subrange(0, i as int),
            views(out@) == repeated(ids.subrange(0, i as int)),
        decreases dirs@.len() - i,
    {
        let ghost seen_before = seen@;
        let ghost out_before = out@;
        let id = dirs[i].session_id();
        proof {
            let now = ids.subrange(0, i + 1);
            assert(now.drop_last() =~= ids.subrange(0, i as int));
            assert(now.last() == id@);
        }
        if contains_id(&seen, &id) && !contains_id(&out, &id) {
            out.push(id.clone());
            assert(views(out@) =~= views(out_before).push(id@));
        }
        seen.push(id);
        assert(views(seen@) =~= ids.subrange(0, i + 1));
        i = i + 1;
    }
    assert(ids.subrange(0, i as int) =~= ids);
    out
}

/// The directory that the session `id` declared last.
pub open spec fn last_declared(dirs: Seq<EncodeDirView>, id: Seq<char>) -> Option<EncodeDirView>
    decreases dirs.len(),
{
    if dirs.len() == 0 {
        None
    } else if dirs.last().session == id {
        Some(dirs.last())
    } else {
        last_declared(dirs.drop_last(), id)
    }
}

/// Of the declared directories each session keeps one: no session stands
/// twice, a session stands there exactly if it declared a directory, and the
/// directory kept for it is the one it declared last.
pub proof fn lemma_declared_dirs(dirs: Seq<EncodeDirView>)
    ensures
        keys_of(declared_dirs(dirs)).no_duplicates(),
        forall|k: Seq<char>|
            (#[trigger] keys_of(declared_dirs(dirs)).contains(k)) <==> dir_sessions(dirs).contains(k),
        forall|k: Seq<char>|
            #[trigger] crate::models::session_map::lookup(declared_dirs(dirs), k) == last_declared(
                dirs,
                k,
            ),
        forall|i: int|
            0 <= i < declared_dirs(dirs).len() ==> (#[trigger] declared_dirs(dirs)[i]).1.session
                == declared_dirs(dirs)[i].0,
    decreases dirs.len(),
{
    if dirs.len() == 0 {
        assert forall|k: Seq<char>|
            #[trigger] crate::models::session_map::lookup(declared_dirs(dirs), k) == last_declared(
                dirs,
                k,
            ) by {
            lemma_position_of(keys_of(declared_dirs(dirs)), k);
        }
    } else {
        let init = dirs.drop_last();
        let d = dirs.last();
        let m = declared_dirs(init);
        let after = declared_dirs(dirs);
        lemma_declared_dirs(init);
        lemma_inserted(m, d.session, d);
        lemma_position_of(keys_of(m), d.session);
        assert(dir_sessions(init) =~= dir_sessions(dirs).drop_last());
        match position_of(keys_of(m), d.session) {
            Some(i) => {
                assert(keys_of(after) =~= keys_of(m));
                assert(keys_of(m).contains(d.session));
            },
            None => {
                assert(keys_of(after) =~= keys_of(m).push(d.session));
            },
        }
        assert forall|k: Seq<char>|
            (#[trigger] keys_of(after).contains(k)) <==> dir_sessions(dirs).contains(k) by {
            if keys_of(after).contains(k) {
                let j = choose|j: int| 0 <= j < keys_of(after).len() && keys_of(after)[j] == k;
                if j < keys_of(m).len() {
                    assert(keys_of(m)[j] == k);
                    assert(keys_of(m).contains(k));
                    let i = choose|i: int|
                        0 <= i < dir_sessions(init).len() && dir_sessions(init)[i] == k;
                    assert(dir_sessions(dirs)[i] == k);
                } else {
                    assert(dir_sessions(dirs)[dirs.len() - 1] == k);
                }
            }
            if dir_sessions(dirs).contains(k) {
                let i = choose|i: int| 0 <= i < dir_sessions(dirs).len() && dir_sessions(dirs)[i] == k;
                if i < init.len() {
                    assert(dir_sessions(init)[i] == k);
                    assert(dir_sessions(init).contains(k));
                    assert(keys_of(m).contains(k));
                    let j = choose|j: int| 0 <= j < keys_of(m).len() && keys_of(m)[j] == k;
                    assert(keys_of(after)[j] == k);
                } else {
                    assert(k == d.session);
                    if position_of(keys_of(m), d.session) is None {
                        assert(keys_of(after)[keys_of(m).len() as int] == k);
                    }
                }
            }
        }
        assert forall|k: Seq<char>|
            #[trigger] crate::models::session_map::lookup(after, k) == last_declared(dirs, k) by {
            if k != d.session {
                assert(crate::models::session_map::lookup(m, k) == last_declared(init, k));
            }
        }
    }
}

/// The files that the session `id` of the kind `tv` holds are the files of
/// that kind that carry its id.
pub proof fn lemma_files_of(files: Seq<FileView>, id: Seq<char>, tv: bool)
    ensures
        forall|f: FileView|
            (#[trigger] files_of(files, id, tv).contains(f)) <==> (files.contains(f) && f.is_tv()
                == tv && f.session == id),
    decreases files.len(),
{
    if files.len() > 0 {
        let init = files.drop_last();
        let before = files_of(init, id, tv);
        let now = files_of(files, id, tv);
        lemma_files_of(init, id, tv);
        assert forall|f: FileView|
            (#[trigger] now.contains(f)) <==> (files.contains(f) && f.is_tv() == tv && f.session
                == id) by {
            if now.contains(f) {
                let j = choose|j: int| 0 <= j < now.len() && now[j] == f;
                if j < before.len() {
                    assert(before[j] == f);
                    assert(before.contains(f));
                    let i = choose|i: int| 0 <= i < init.len() && init[i] == f;
                    assert(files[i] == f);
                } else {
                    assert(files[files.len() - 1] == f);
                }
            }
            if files.contains(f) && f.is_tv() == tv && f.session == id {
                let i = choose|i: int| 0 <= i < files.len() && files[i] == f;
                if i < init.len() {
                    assert(init[i] == f);
                    assert(init.contains(f));
                    assert(before.contains(f));
                    let j = choose|j: int| 0 <= j < before.len() && before[j] == f;
                    assert(now[j] == f);
                } else {
                    assert(now[now.len() - 1] == f);
                }
            }
        }
    }
}

/// A session of a kind stands among the ids of that kind exactly if a file of
/// that kind carries its id.
pub proof fn lemma_kind_ids(files: Seq<FileView>, tv: bool)
    ensures
        forall|id: Seq<char>|
            (#[trigger] kind_ids(files, tv).contains(id)) <==> (exists|i: int|
                0 <= i < files.len() && (#[trigger] files[i]).is_tv() == tv && files[i].session
                    == id),
    decreases files.len(),
{
    if files.len() > 0 {
        let init = files.drop_last();
        let before = kind_ids(init, tv);
        let now = kind_ids(files, tv);
        lemma_kind_ids(init, tv);
        assert forall|id: Seq<char>|
            (#[trigger] now.contains(id)) <==> (exists|i: int|
                0 <= i < files.len() && (#[trigger] files[i]).is_tv() == tv && files[i].session
                    == id) by {
            if now.contains(id) {
                let j = choose|j: int| 0 <= j < now.len() && now[j] == id;
                if j < before.len() {
                    assert(before[j] == id);
                    assert(before.contains(id));
                    let i = choose|i: int|
                        0 <= i < init.len() && (#[trigger] init[i]).is_tv() == tv && init[i].session
                            == id;
                    assert(files[i] == init[i]);
                } else {
                    assert(files[files.len() - 1].session == id);
                }
            }
            if exists|i: int|
                0 <= i < files.len() && (#[trigger] files[i]).is_tv() == tv && files[i].session
                    == id {
                let i = choose|i: int|
                    0 <= i < files.len() && (#[trigger] files[i]).is_tv() == tv && files[i].session
                        == id;
                if i < init.len() {
                    assert(init[i] == files[i]);
                    assert(before.contains(id));
                    let j = choose|j: int| 0 <= j < before.len() && before[j] == id;
                    assert(now[j] == id);
                } else {
                    assert(now[now.len() - 1] == id);
                }
            }
        }
    }
}

/// The sessions of a kind: no session stands twice, a session stands there
/// exactly if a file of that kind carries its id, and each holds, sorted, the
/// files of that kind that carry its id, each as often as it was given.
pub proof fn lemma_sessions_of(files: Seq<FileView>, tv: bool)
    ensures
        keys_of(sessions_of(files, tv)) == session_ids(files, tv),
        keys_of(sessions_of(files, tv)).no_duplicates(),
        forall|id: Seq<char>|
            (#[trigger] keys_of(sessions_of(files, tv)).contains(id)) <==> kind_ids(
                files,
                tv,
            ).contains(id),
        forall|i: int|
            0 <= i < sessions_of(files, tv).len() ==> {
                let s = #[trigger] sessions_of(files, tv)[i];
                &&& s.1.id == s.0
                &&& crate::sorting::is_sorted(s.1.files)
                &&& s.1.files.to_multiset() == files_of(files, s.0, tv).to_multiset()
            },
{
    lemma_first_occurrences(kind_ids(files, tv));
    assert(keys_of(sessions_of(files, tv)) =~= session_ids(files, tv));
    assert forall|i: int| 0 <= i < sessions_of(files, tv).len() implies {
        let s = #[trigger] sessions_of(files, tv)[i];
        &&& s.1.id == s.0
        &&& crate::sorting::is_sorted(s.1.files)
        &&& s.1.files.to_multiset() == files_of(files, s.0, tv).to_multiset()
    } by {
        crate::sorting::lemma_sort_files(files_of(files, session_ids(files, tv)[i], tv));
    }
}

} // verus!
