//! From classified entries to the sessions that can be encoded: each session
//! joined with the encode directory it declares, and what could not be joined.

use crate::grouping::contains_id;
use crate::grouping::declared_dirs;
use crate::grouping::dirs_of_kind;
use crate::grouping::group_encode_dirs;
use crate::grouping::repeated;
use crate::grouping::repeated_declarations;
use crate::grouping::group_sessions;
use crate::grouping::sessions_of;
use crate::models::EncodeDirType;
use crate::models::EncodeDirView;
use crate::models::EntryType;
use crate::models::EntryView;
use crate::models::FileView;
use crate::models::MappingView;
use crate::models::MovieEncodeDir;
use crate::models::MovieSession;
use crate::models::RenameTypes;
use crate::models::SessionId;
use crate::models::SessionMap;
use crate::models::SessionToEncodeDir;
use crate::models::SessionView;
use crate::models::TVSeriesEncodeDir;
use crate::models::TVSeriesSession;
use crate::models::encode_dir_type::encode_dir_of;
use crate::models::rename_types::rename_of;
use crate::models::session_map::keys_of;
use crate::models::session_to_encode_dir::joined;
use crate::models::session_to_encode_dir::lemma_joined;
use crate::models::session_to_encode_dir::mapped_ids;
use crate::grouping::kind_ids;
use crate::grouping::lemma_declared_dirs;
use crate::grouping::lemma_dirs_of_kind;
use crate::grouping::lemma_sessions_of;
use crate::grouping::dir_sessions;
use crate::models::session_map::lemma_position_of;
use crate::models::session_map::position_of;
use crate::seqs::views;
use vstd::prelude::*;

verus! {

/// The entries that are renames or encode directories, in order.
pub open spec fn matched(entries: Seq<EntryView>) -> Seq<EntryView>
    decreases entries.len(),
{
    if entries.len() == 0 {
        Seq::empty()
    } else if entries.last().is_matched() {
        matched(entries.drop_last()).push(entries.last())
    } else {
        matched(entries.drop_last())
    }
}

/// The entries that are unknown or invalid markers, in order.
pub open spec fn unmatched(entries: Seq<EntryView>) -> Seq<EntryView>
    decreases entries.len(),
{
    if entries.len() == 0 {
        Seq::empty()
    } else if !entries.last().is_matched() {
        unmatched(entries.drop_last()).push(entries.last())
    } else {
        unmatched(entries.drop_last())
    }
}

/// The renamed files that the entries give, in order. An entry that is no
/// rename gives none, and neither does a rename whose file name has no stem.
pub open spec fn renames(entries: Seq<EntryView>) -> Seq<FileView>
    decreases entries.len(),
{
    if entries.len() == 0 {
        Seq::empty()
    } else {
        match rename_of(entries.last()) {
            Ok(file) => renames(entries.drop_last()).push(file),
            Err(_) => renames(entries.drop_last()),
        }
    }
}

/// The encode directories that the entries declare, in order.
pub open spec fn encode_dirs(entries: Seq<EntryView>) -> Seq<EncodeDirView>
    decreases entries.len(),
{
    if entries.len() == 0 {
        Seq::empty()
    } else {
        match encode_dir_of(entries.last()) {
            Ok(dir) => encode_dirs(entries.drop_last()).push(dir),
            Err(_) => encode_dirs(entries.drop_last()),
        }
    }
}

/// The sessions of the kind `tv` that the entries make up.
pub open spec fn sessions(entries: Seq<EntryView>, tv: bool) -> Seq<(Seq<char>, SessionView)> {
    sessions_of(renames(entries), tv)
}

/// The encode directories of the kind `tv` that the entries leave declared.
pub open spec fn directories(entries: Seq<EntryView>, tv: bool) -> Seq<(Seq<char>, EncodeDirView)> {
    dirs_of_kind(declared_dirs(encode_dirs(entries)), tv)
}

/// The sessions of the kind `tv` joined with their encode directories.
pub open spec fn kind_mappings(entries: Seq<EntryView>, tv: bool) -> Seq<MappingView> {
    joined(sessions(entries, tv), directories(entries, tv))
}

/// All mappings that the entries give: those of TV series, then those of
/// movies.
pub open spec fn mappings(entries: Seq<EntryView>) -> Seq<MappingView> {
    kind_mappings(entries, true) + kind_mappings(entries, false)
}

/// The keys of `keys` that are among `others` (`present`), or that are not
/// (`!present`), in the order of `keys`.
pub open spec fn selected(keys: Seq<Seq<char>>, others: Seq<Seq<char>>, present: bool) -> Seq<
    Seq<char>,
>
    decreases keys.len(),
{
    if keys.len() == 0 {
        Seq::empty()
    } else if others.contains(keys.last()) == present {
        selected(keys.drop_last(), others, present).push(keys.last())
    } else {
        selected(keys.drop_last(), others, present)
    }
}

/// The sessions of the kind `tv` that no mapping of that kind holds.
pub open spec fn unmapped_session_ids(entries: Seq<EntryView>, tv: bool) -> Seq<Seq<char>> {
    selected(keys_of(sessions(entries, tv)), mapped_ids(kind_mappings(entries, tv)), false)
}

/// The sessions whose encode directory of the kind `tv` no mapping of that
/// kind holds.
pub open spec fn unmapped_directory_ids(entries: Seq<EntryView>, tv: bool) -> Seq<Seq<char>> {
    selected(keys_of(directories(entries, tv)), mapped_ids(kind_mappings(entries, tv)), false)
}

/// The entries that are renames or encode directories, in order.
pub fn matched_entries(all: &Vec<EntryType>) -> (r: Vec<EntryType>)
    ensures
        views(r@) == matched(views(all@)),
{
    let ghost entries = views(all@);
    let mut out: Vec<EntryType> = Vec::new();
    let mut i: usize = 0;
    assert(views(out@) =~= matched(entries.subrange(0, 0)));
    while i < all.len()
        invariant
            i <= all@.len(),
            entries == views(all@),
            views(out@) == matched(entries.subrange(0, i as int)),
        decreases all@.len() - i,
    {
        let ghost before = out@;
        proof {
            let now = entries.subrange(0, i + 1);
            assert(now.drop_last() =~= entries.subrange(0, i as int));
            assert(now.last() == all@[i as int]@);
        }
        if all[i].is_matched() {
            let entry = all[i].clone();
            out.push(entry);
            assert(views(out@) =~= views(before).push(entry@));
        }
        i = i + 1;
    }
    assert(entries.subrange(0, i as int) =~= entries);
    out
}

/// The entries that are unknown or invalid markers, in order.
pub fn unmatched_entries(all: &Vec<EntryType>) -> (r: Vec<EntryType>)
    ensures
        views(r@) == unmatched(views(all@)),
{
    let ghost entries = views(all@);
    let mut out: Vec<EntryType> = Vec::new();
    let mut i: usize = 0;
    assert(views(out@) =~= unmatched(entries.subrange(0, 0)));
    while i < all.len()
        invariant
            i <= all@.len(),
            entries == views(all@),
            views(out@) == unmatched(entries.subrange(0, i as int)),
        decreases all@.len() - i,
    {
        let ghost before = out@;
        proof {
            let now = entries.subrange(0, i + 1);
            assert(now.drop_last() =~= entries.subrange(0, i as int));
            assert(now.last() == all@[i as int]@);
        }
        if !all[i].is_matched() {
            let entry = all[i].clone();
            out.push(entry);
            assert(views(out@) =~= views(before).push(entry@));
        }
        i = i + 1;
    }
    assert(entries.subrange(0, i as int) =~= entries);
    out
}

/// The renamed files that the entries give, in order. A rename whose file name
/// has no stem is left out, and so is every entry that is no rename.
pub fn rename_files_of(entries: &Vec<EntryType>) -> (r: Vec<RenameTypes>)
    ensures
        views(r@) == renames(views(entries@)),
{
    let ghost all = views(entries@);
    let mut out: Vec<RenameTypes> = Vec::new();
    let mut i: usize = 0;
    assert(views(out@) =~= renames(all.subrange(0, 0)));
    while i < entries.len()
        invariant
            i <= entries@.len(),
            all == views(entries@),
            views(out@) == renames(all.subrange(0, i as int)),
        decreases entries@.len() - i,
    {
        let ghost before = out@;
        proof {
            let now = all.subrange(0, i + 1);
            assert(now.drop_last() =~= all.subrange(0, i as int));
            assert(now.last() == entries@[i as int]@);
        }
        match RenameTypes::try_from(entries[i].clone()) {
            Ok(file) => {
                out.push(file);
                assert(views(out@) =~= views(before).push(file@));
            },
            Err(_) => {},
        }
        i = i + 1;
    }
    assert(all.subrange(0, i as int) =~= all);
    out
}

/// The encode directories that the entries declare, in order.
pub fn encode_dirs_of(entries: &Vec<EntryType>) -> (r: Vec<EncodeDirType>)
    ensures
        views(r@) == encode_dirs(views(entries@)),
{
    let ghost all = views(entries@);
    let mut out: Vec<EncodeDirType> = Vec::new();
    let mut i: usize = 0;
    assert(views(out@) =~= encode_dirs(all.subrange(0, 0)));
    while i < entries.len()
        invariant
            i <= entries@.len(),
            all == views(entries@),
            views(out@) == encode_dirs(all.subrange(0, i as int)),
        decreases entries@.len() - i,
    {
        let ghost before = out@;
        proof {
            let now = all.subrange(0, i + 1);
            assert(now.drop_last() =~= all.subrange(0, i as int));
            assert(now.last() == entries@[i as int]@);
        }
        match EncodeDirType::try_from(entries[i].clone()) {
            Ok(dir) => {
                out.push(dir);
                assert(views(out@) =~= views(before).push(dir@));
            },
            Err(_) => {},
        }
        i = i + 1;
    }
    assert(all.subrange(0, i as int) =~= all);
    out
}

/// The session id of each mapping, in order.
pub fn mapping_ids(list: &Vec<SessionToEncodeDir>) -> (r: Vec<SessionId>)
    ensures
        views(r@) == mapped_ids(views(list@)),
{
    let mut out: Vec<SessionId> = Vec::new();
    let mut i: usize = 0;
    while i < list.len()
        invariant
            i <= list@.len(),
            views(out@) == mapped_ids(views(list@)).subrange(0, i as int),
        decreases list@.len() - i,
    {
        let ghost before = out@;
        let id = list[i].session_id();
        out.push(id);
        proof {
            assert(views(out@) =~= views(before).push(id@));
            assert(mapped_ids(views(list@)).subrange(0, i + 1) =~= mapped_ids(
                views(list@),
            ).subrange(0, i as int).push(id@));
        }
        i = i + 1;
    }
    assert(mapped_ids(views(list@)).subrange(0, i as int) =~= mapped_ids(views(list@)));
    out
}

/// The session ids of `map` that are among `others` (`present`), or that are
/// not (`!present`), in the order of `map`.
pub fn select_keys<V: View>(map: &SessionMap<V>, others: &Vec<SessionId>, present: bool) -> (r: Vec<
    SessionId,
>)
    ensures
        views(r@) == selected(map.keys(), views(others@), present),
{
    let ghost keys = map.keys();
    let mut out: Vec<SessionId> = Vec::new();
    let mut i: usize = 0;
    assert(views(out@) =~= selected(keys.subrange(0, 0), views(others@), present));
    while i < map.len()
        invariant
            i <= map@.len(),
            keys == map.keys(),
            views(out@) == selected(keys.subrange(0, i as int), views(others@), present),
        decreases map@.len() - i,
    {
        let ghost before = out@;
        let id = map.key_at(i);
        proof {
            let now = keys.subrange(0, i + 1);
            assert(now.drop_last() =~= keys.subrange(0, i as int));
            assert(now.last() == id@);
        }
        if contains_id(others, id) == present {
            let copy = id.clone();
            out.push(copy);
            assert(views(out@) =~= views(before).push(id@));
        }
        i = i + 1;
    }
    assert(keys.subrange(0, i as int) =~= keys);
    out
}

/// The two kinds of session.
#[derive(Debug, PartialEq, Eq, Clone, Copy)]
pub enum Kind {
    TVSeries,
    Movie,
}

impl Kind {
    /// Whether the kind is that of TV series.
    pub open spec fn is_tv(self) -> bool {
        self is TVSeries
    }
}

/// All that the entries of one scan amount to.
#[derive(Debug, PartialEq, Eq)]
pub struct Reconciliation {
    /// The entries that are renames or encode directories.
    pub entry_types: Vec<EntryType>,
    /// The entries that are unknown or invalid markers.
    pub unmatched: Vec<EntryType>,
    /// The sessions of TV series.
    pub tv_series_sessions: SessionMap<TVSeriesSession>,
    /// The sessions of movies.
    pub movie_sessions: SessionMap<MovieSession>,
    /// The encode directories of TV series, by session.
    pub tv_series_encode_dirs: SessionMap<TVSeriesEncodeDir>,
    /// The encode directories of movies, by session.
    pub movie_encode_dirs: SessionMap<MovieEncodeDir>,
    /// The sessions that declare an encode directory more than once: only
    /// the directory declared last counts.
    pub repeated_markers: Vec<SessionId>,
    /// The sessions of TV series that have an encode directory.
    pub tv_series_mappings: Vec<SessionToEncodeDir>,
    /// The sessions of movies that have an encode directory.
    pub movie_mappings: Vec<SessionToEncodeDir>,
}

impl Reconciliation {
    /// Whether the parts are what the entries `entries` amount to.
    pub open spec fn describes(&self, entries: Seq<EntryView>) -> bool {
        &&& views(self.entry_types@) == matched(entries)
        &&& views(self.unmatched@) == unmatched(entries)
        &&& self.tv_series_sessions@ == sessions(entries, true)
        &&& self.movie_sessions@ == sessions(entries, false)
        &&& self.tv_series_encode_dirs@ == directories(entries, true)
        &&& self.movie_encode_dirs@ == directories(entries, false)
        &&& views(self.repeated_markers@) == repeated(dir_sessions(encode_dirs(entries)))
        &&& views(self.tv_series_mappings@) == kind_mappings(entries, true)
        &&& views(self.movie_mappings@) == kind_mappings(entries, false)
        &&& self.tv_series_sessions.wf()
        &&& self.movie_sessions.wf()
        &&& self.tv_series_encode_dirs.wf()
        &&& self.movie_encode_dirs.wf()
        &&& forall|k: int|
            0 <= k < self.tv_series_mappings@.len()
                ==> #[trigger] self.tv_series_mappings@[k] is TVSeriesMapping
        &&& forall|k: int|
            0 <= k < self.movie_mappings@.len() ==> #[trigger] self.movie_mappings@[k] is MovieMapping
    }

    /// All mappings: those of TV series, then those of movies.
    pub fn mappings(&self) -> (r: Vec<SessionToEncodeDir>)
        ensures
            views(r@) == views(self.tv_series_mappings@) + views(self.movie_mappings@),
    {
        let mut out: Vec<SessionToEncodeDir> = Vec::new();
        let mut i: usize = 0;
        while i < self.tv_series_mappings.len()
            invariant
                i <= self.tv_series_mappings@.len(),
                views(out@) == views(self.tv_series_mappings@).subrange(0, i as int),
            decreases self.tv_series_mappings@.len() - i,
        {
            let ghost before = out@;
            let mapping = self.tv_series_mappings[i].clone();
            out.push(mapping);
            proof {
                assert(views(out@) =~= views(before).push(mapping@));
                assert(views(out@) =~= views(self.tv_series_mappings@).subrange(0, i + 1));
            }
            i = i + 1;
        }
        assert(views(self.tv_series_mappings@).subrange(0, i as int) =~= views(
            self.tv_series_mappings@,
        ));
        let mut k: usize = 0;
        while k < self.movie_mappings.len()
            invariant
                k <= self.movie_mappings@.len(),
                views(out@) == views(self.tv_series_mappings@) + views(
                    self.movie_mappings@,
                ).subrange(0, k as int),
            decreases self.movie_mappings@.len() - k,
        {
            let ghost before = out@;
            let mapping = self.movie_mappings[k].clone();
            out.push(mapping);
            proof {
                assert(views(out@) =~= views(before).push(mapping@));
                assert(views(out@) =~= views(self.tv_series_mappings@) + views(
                    self.movie_mappings@,
                ).subrange(0, k + 1));
            }
            k = k + 1;
        }
        assert(views(self.movie_mappings@).subrange(0, k as int) =~= views(self.movie_mappings@));
        out
    }

    /// The sessions of the kind `kind` that have files and no mapping.
    pub fn unmapped_sessions(&self, kind: Kind) -> (r: Vec<SessionId>)
        ensures
            views(r@) == if kind.is_tv() {
                selected(
                    self.tv_series_sessions.keys(),
                    mapped_ids(views(self.tv_series_mappings@)),
                    false,
                )
            } else {
                selected(self.movie_sessions.keys(), mapped_ids(views(self.movie_mappings@)), false)
            },
    {
        match kind {
            Kind::TVSeries => select_keys(
                &self.tv_series_sessions,
                &mapping_ids(&self.tv_series_mappings),
                false,
            ),
            Kind::Movie => select_keys(
                &self.movie_sessions,
                &mapping_ids(&self.movie_mappings),
                false,
            ),
        }
    }

    /// The sessions that declare an encode directory of the kind `kind` and
    /// have no mapping.
    pub fn unmapped_encode_dirs(&self, kind: Kind) -> (r: Vec<SessionId>)
        ensures
            views(r@) == if kind.is_tv() {
                selected(
                    self.tv_series_encode_dirs.keys(),
                    mapped_ids(views(self.tv_series_mappings@)),
                    false,
                )
            } else {
                selected(
                    self.movie_encode_dirs.keys(),
                    mapped_ids(views(self.movie_mappings@)),
                    false,
                )
            },
    {
        match kind {
            Kind::TVSeries => select_keys(
                &self.tv_series_encode_dirs,
                &mapping_ids(&self.tv_series_mappings),
                false,
            ),
            Kind::Movie => select_keys(
                &self.movie_encode_dirs,
                &mapping_ids(&self.movie_mappings),
                false,
            ),
        }
    }

    /// The sessions that hold both episodes and movies.
    pub fn mixed_sessions(&self) -> (r: Vec<SessionId>)
        ensures
            views(r@) == selected(self.tv_series_sessions.keys(), self.movie_sessions.keys(), true),
    {
        let mut movie_ids: Vec<SessionId> = Vec::new();
        let mut i: usize = 0;
        while i < self.movie_sessions.len()
            invariant
                i <= self.movie_sessions@.len(),
                views(movie_ids@) == self.movie_sessions.keys().subrange(0, i as int),
            decreases self.movie_sessions@.len() - i,
        {
            let ghost before = movie_ids@;
            let id = self.movie_sessions.key_at(i).clone();
            movie_ids.push(id);
            proof {
                assert(views(movie_ids@) =~= views(before).push(id@));
                assert(views(movie_ids@) =~= self.movie_sessions.keys().subrange(0, i + 1));
            }
            i = i + 1;
        }
        assert(self.movie_sessions.keys().subrange(0, i as int) =~= self.movie_sessions.keys());
        select_keys(&self.tv_series_sessions, &movie_ids, true)
    }
}

/// Reconciles classified entries: drops what is unknown or invalid, groups
/// the renames into sessions and the declared encode directories by session,
/// and joins each session with the directory of its kind.
pub fn reconcile(all_entry_types: &Vec<EntryType>) -> (r: Reconciliation)
    ensures
        r.describes(views(all_entry_types@)),
{
    let entry_types = matched_entries(all_entry_types);
    let unmatched = unmatched_entries(all_entry_types);
    let rename_files = rename_files_of(&entry_types);
    let (tv_series_sessions, movie_sessions) = group_sessions(&rename_files);
    let dirs = encode_dirs_of(&entry_types);
    let (tv_series_encode_dirs, movie_encode_dirs) = group_encode_dirs(&dirs);
    let repeated_markers = repeated_declarations(&dirs);
    let tv_series_mappings = SessionToEncodeDir::from_tvseries_elements(
        &tv_series_sessions,
        &tv_series_encode_dirs,
    );
    let movie_mappings = SessionToEncodeDir::from_movie_elements(
        &movie_sessions,
        &movie_encode_dirs,
    );
    proof {
        lemma_unmatched_add_nothing(views(all_entry_types@));
    }
    Reconciliation {
        entry_types,
        unmatched,
        tv_series_sessions,
        movie_sessions,
        tv_series_encode_dirs,
        movie_encode_dirs,
        repeated_markers,
        tv_series_mappings,
        movie_mappings,
    }
}

/// The sessions that can be encoded, each with its encode directory: those of
/// TV series first, then those of movies.
pub fn get_session_encode_mapping(all_entry_types: &Vec<EntryType>) -> (r: Vec<SessionToEncodeDir>)
    ensures
        views(r@) == mappings(views(all_entry_types@)),
{
    reconcile(all_entry_types).mappings()
}

/// Entries that are unknown, and markers that are invalid, add nothing: the
/// renamed files and the declared encode directories, and with them the
/// sessions, the directories and the mappings, are those of the other entries
/// alone. The two parts hold the entries of their sort only.
pub proof fn lemma_unmatched_add_nothing(entries: Seq<EntryView>)
    ensures
        renames(matched(entries)) == renames(entries),
        encode_dirs(matched(entries)) == encode_dirs(entries),
        mappings(matched(entries)) == mappings(entries),
        forall|i: int| 0 <= i < matched(entries).len() ==> (#[trigger] matched(entries)[i]).is_matched(),
        forall|i: int|
            0 <= i < unmatched(entries).len() ==> !(#[trigger] unmatched(entries)[i]).is_matched(),
        renames(unmatched(entries)).len() == 0,
        encode_dirs(unmatched(entries)).len() == 0,
    decreases entries.len(),
{
    if entries.len() > 0 {
        let init = entries.drop_last();
        lemma_unmatched_add_nothing(init);
        if entries.last().is_matched() {
            assert(matched(entries).drop_last() =~= matched(init));
        } else {
            assert(unmatched(entries).drop_last() =~= unmatched(init));
        }
    }
}

/// The selected keys are the keys that are among the others, or that are not.
pub proof fn lemma_selected(keys: Seq<Seq<char>>, others: Seq<Seq<char>>, present: bool)
    ensures
        forall|x: Seq<char>|
            (#[trigger] selected(keys, others, present).contains(x)) <==> (keys.contains(x)
                && others.contains(x) == present),
    decreases keys.len(),
{
    if keys.len() > 0 {
        let init = keys.drop_last();
        let before = selected(init, others, present);
        let now = selected(keys, others, present);
        lemma_selected(init, others, present);
        assert forall|x: Seq<char>|
            (#[trigger] now.contains(x)) <==> (keys.contains(x) && others.contains(x)
                == present) by {
            if now.contains(x) {
                let j = choose|j: int| 0 <= j < now.len() && now[j] == x;
                if j < before.len() {
                    assert(before[j] == x);
                    assert(before.contains(x));
                    let i = choose|i: int| 0 <= i < init.len() && init[i] == x;
                    assert(keys[i] == x);
                } else {
                    assert(keys[keys.len() - 1] == x);
                }
            }
            if keys.contains(x) && others.contains(x) == present {
                let i = choose|i: int| 0 <= i < keys.len() && keys[i] == x;
                if i < init.len() {
                    assert(init[i] == x);
                    assert(init.contains(x));
                    assert(before.contains(x));
                    let j = choose|j: int| 0 <= j < before.len() && before[j] == x;
                    assert(now[j] == x);
                } else {
                    assert(now[now.len() - 1] == x);
                }
            }
        }
    }
}

proof fn lemma_not_mapped(entries: Seq<EntryView>, id: Seq<char>, tv: bool)
    requires
        !keys_of(sessions(entries, tv)).contains(id) || !keys_of(directories(entries, tv)).contains(
            id,
        ),
    ensures
        !mapped_ids(kind_mappings(entries, tv)).contains(id),
{
    lemma_joined(sessions(entries, tv), directories(entries, tv));
    lemma_position_of(keys_of(directories(entries, tv)), id);
    if let Some(i) = position_of(keys_of(directories(entries, tv)), id) {
        assert(keys_of(directories(entries, tv)).contains(id));
    }
}

proof fn lemma_mapped_in_a_kind(entries: Seq<EntryView>, id: Seq<char>)
    requires
        !mapped_ids(kind_mappings(entries, true)).contains(id),
        !mapped_ids(kind_mappings(entries, false)).contains(id),
    ensures
        !mapped_ids(mappings(entries)).contains(id),
{
    let a = kind_mappings(entries, true);
    let b = kind_mappings(entries, false);
    if mapped_ids(mappings(entries)).contains(id) {
        let j = choose|j: int|
            0 <= j < mapped_ids(mappings(entries)).len() && mapped_ids(mappings(entries))[j] == id;
        if j < a.len() {
            assert(mapped_ids(a)[j] == id);
        } else {
            assert(mapped_ids(b)[j - a.len()] == id);
        }
    }
}

/// A session that has a renamed file of some kind, and for which no entry
/// declares an encode directory, is in no mapping and is among the unmapped
/// sessions of that kind.
pub proof fn lemma_session_without_directory(entries: Seq<EntryView>, id: Seq<char>, tv: bool)
    requires
        kind_ids(renames(entries), tv).contains(id),
        !dir_sessions(encode_dirs(entries)).contains(id),
    ensures
        !mapped_ids(mappings(entries)).contains(id),
        unmapped_session_ids(entries, tv).contains(id),
{
    let declared = declared_dirs(encode_dirs(entries));
    lemma_declared_dirs(encode_dirs(entries));
    lemma_dirs_of_kind(declared, true);
    lemma_dirs_of_kind(declared, false);
    assert(!keys_of(directories(entries, true)).contains(id));
    assert(!keys_of(directories(entries, false)).contains(id));
    lemma_not_mapped(entries, id, true);
    lemma_not_mapped(entries, id, false);
    lemma_mapped_in_a_kind(entries, id);
    lemma_sessions_of(renames(entries), tv);
    lemma_selected(keys_of(sessions(entries, tv)), mapped_ids(kind_mappings(entries, tv)), false);
}

/// A session for which an entry declares an encode directory, and which has
/// no renamed file, is in no mapping and is among the unmapped encode
/// directories of one of the two kinds.
pub proof fn lemma_directory_without_session(entries: Seq<EntryView>, id: Seq<char>)
    requires
        dir_sessions(encode_dirs(entries)).contains(id),
        !kind_ids(renames(entries), true).contains(id),
        !kind_ids(renames(entries), false).contains(id),
    ensures
        !mapped_ids(mappings(entries)).contains(id),
        unmapped_directory_ids(entries, true).contains(id) || unmapped_directory_ids(
            entries,
            false,
        ).contains(id),
{
    let declared = declared_dirs(encode_dirs(entries));
    lemma_sessions_of(renames(entries), true);
    lemma_sessions_of(renames(entries), false);
    lemma_not_mapped(entries, id, true);
    lemma_not_mapped(entries, id, false);
    lemma_mapped_in_a_kind(entries, id);
    lemma_declared_dirs(encode_dirs(entries));
    assert(keys_of(declared).contains(id));
    let i = choose|i: int| 0 <= i < keys_of(declared).len() && keys_of(declared)[i] == id;
    let e = declared[i];
    assert(declared.contains(e));
    let tv = e.1.is_tv();
    lemma_dirs_of_kind(declared, tv);
    assert(dirs_of_kind(declared, tv).contains(e));
    let j = choose|j: int| 0 <= j < dirs_of_kind(declared, tv).len() && dirs_of_kind(declared, tv)[j] == e;
    assert(keys_of(dirs_of_kind(declared, tv))[j] == id);
    assert(keys_of(directories(entries, tv)).contains(id));
    lemma_selected(keys_of(directories(entries, tv)), mapped_ids(kind_mappings(entries, tv)), false);
}

/// The join respects the kinds. Each mapping of a kind holds a session and an
/// encode directory of that kind under the id of the mapping, and the files
/// of its session are files of that kind and of that session, sorted by file
/// name.
pub proof fn lemma_kind_mappings(entries: Seq<EntryView>, tv: bool)
    ensures
        forall|j: int|
            0 <= j < kind_mappings(entries, tv).len() ==> {
                let m = #[trigger] kind_mappings(entries, tv)[j];
                &&& m.session.id == m.session_id
                &&& m.encode_dir.session == m.session_id
                &&& m.encode_dir.is_tv() == tv
                &&& crate::sorting::is_sorted(m.session.files)
                &&& forall|k: int|
                    0 <= k < m.session.files.len() ==> (#[trigger] m.session.files[k]).is_tv() == tv
                        && m.session.files[k].session == m.session_id
            },
{
    broadcast use vstd::seq_lib::group_to_multiset_ensures;

    let files = renames(entries);
    let all = sessions(entries, tv);
    let declared = declared_dirs(encode_dirs(entries));
    let dirs = directories(entries, tv);
    lemma_joined(all, dirs);
    lemma_sessions_of(files, tv);
    lemma_declared_dirs(encode_dirs(entries));
    lemma_dirs_of_kind(declared, tv);
    assert forall|j: int| 0 <= j < kind_mappings(entries, tv).len() implies {
        let m = #[trigger] kind_mappings(entries, tv)[j];
        &&& m.session.id == m.session_id
        &&& m.encode_dir.session == m.session_id
        &&& m.encode_dir.is_tv() == tv
        &&& crate::sorting::is_sorted(m.session.files)
        &&& forall|k: int|
            0 <= k < m.session.files.len() ==> (#[trigger] m.session.files[k]).is_tv() == tv
                && m.session.files[k].session == m.session_id
    } by {
        let m = kind_mappings(entries, tv)[j];
        let i = choose|i: int| 0 <= i < all.len() && all[i] == (m.session_id, m.session);
        assert(all[i].1.id == all[i].0);
        lemma_position_of(keys_of(dirs), m.session_id);
        let p = position_of(keys_of(dirs), m.session_id)->0;
        assert(dirs.contains(dirs[p]));
        assert(declared.contains(dirs[p]));
        let q = choose|q: int| 0 <= q < declared.len() && declared[q] == dirs[p];
        assert(declared[q].1.session == declared[q].0);
        crate::grouping::lemma_files_of(files, m.session_id, tv);
        assert forall|k: int| 0 <= k < m.session.files.len() implies (
        #[trigger] m.session.files[k]).is_tv() == tv && m.session.files[k].session
            == m.session_id by {
            let x = m.session.files[k];
            assert(m.session.files.contains(x));
            vstd::seq_lib::to_multiset_contains(m.session.files, x);
            vstd::seq_lib::to_multiset_contains(
                crate::grouping::files_of(files, m.session_id, tv),
                x,
            );
            assert(crate::grouping::files_of(files, m.session_id, tv).contains(x));
        }
    }
}

} // verus!
