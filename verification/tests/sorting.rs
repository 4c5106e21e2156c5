use deo::grouping::contains_id;
use deo::grouping::group_encode_dirs;
use deo::grouping::group_mixed_sessions;
use deo::grouping::group_sessions;
use deo::grouping::repeated_declarations;
use deo::models::EncodeDirType;
use deo::models::MovieEncodeDir;
use deo::models::MovieName;
use deo::models::MovieRenameFile;
use deo::models::RenameTypes;
use deo::models::SessionId;
use deo::models::TVSeriesEncodeDir;
use deo::models::TVSeriesRenameFile;
use deo::sorting::file_le_exec;
use deo::sorting::sort_by_file_name;
use deo::text::text_le_exec;

fn episode(session: &str, file: &str) -> RenameTypes {
    RenameTypes::TVSeries(TVSeriesRenameFile {
        path: format!("/Rips/{}/renames/{}", session, file),
        session: SessionId::new(session),
        episode: file[..6].to_string(),
        mkv_file: file.to_string(),
        mp4_file: format!("{}.mp4", &file[..file.len() - 4]),
    })
}

fn movie(session: &str, path: &str, file: &str) -> MovieRenameFile {
    MovieRenameFile {
        path: path.to_string(),
        session: SessionId::new(session),
        mkv_file: file.to_string(),
        mp4_file: format!("{}.mp4", &file[..file.len() - 4]),
    }
}

#[test]
fn text_is_ordered_as_str_is() {
    let samples = ["", "a", "A", "ab", "b", "S01E04 - x", "S01E04-E05 - x", "é", "z", "日本", "a\u{10000}"];
    for a in samples {
        for b in samples {
            assert_eq!(text_le_exec(a, b), a <= b, "{:?} <= {:?}", a, b);
        }
    }
}

#[test]
fn a_prefix_comes_first() {
    assert!(text_le_exec("S01E04", "S01E04-E05"));
    assert!(!text_le_exec("S01E04-E05", "S01E04"));
    assert!(text_le_exec("same", "same"));
}

#[test]
fn files_compare_by_name_then_path() {
    let a = movie("s", "/z/a.mkv", "a.mkv");
    let b = movie("s", "/a/b.mkv", "b.mkv");
    let b2 = movie("s", "/b/b.mkv", "b.mkv");
    assert!(file_le_exec(&a, &b));
    assert!(!file_le_exec(&b, &a));
    assert!(file_le_exec(&b, &b2));
    assert!(!file_le_exec(&b2, &b));
    assert!(file_le_exec(&b, &b));
}

#[test]
fn sorting_orders_by_file_name_and_keeps_every_file() {
    let files = vec![
        movie("s", "/3", "c.mkv"),
        movie("s", "/1", "a.mkv"),
        movie("s", "/5", "b.mkv"),
        movie("s", "/2", "a.mkv"),
        movie("s", "/4", "c.mkv"),
    ];
    let sorted = sort_by_file_name(files);
    let order: Vec<(String, String)> = sorted.into_iter().map(|f| (f.mkv_file, f.path)).collect();
    let expected: Vec<(String, String)> =
        [("a.mkv", "/1"), ("a.mkv", "/2"), ("b.mkv", "/5"), ("c.mkv", "/3"), ("c.mkv", "/4")]
            .iter()
            .map(|(f, p)| (f.to_string(), p.to_string()))
            .collect();
    assert_eq!(order, expected);
    assert!(sort_by_file_name(Vec::<MovieRenameFile>::new()).is_empty());
}

#[test]
fn sorting_a_sorted_list_changes_nothing() {
    let files = vec![movie("s", "/1", "a.mkv"), movie("s", "/2", "b.mkv")];
    assert_eq!(sort_by_file_name(files.clone()), files);
}

#[test]
fn sessions_are_grouped_by_kind_and_id_in_first_seen_order() {
    let renames = vec![
        episode("session2", "S01E02 - b.mkv"),
        RenameTypes::Movie(movie("session9", "/Rips/session9/renames/z.mkv", "z.mkv")),
        episode("session1", "S01E01 - a.mkv"),
        episode("session2", "S01E01 - a.mkv"),
        RenameTypes::Movie(movie("session2", "/Rips/session2/renames/m.mkv", "m.mkv")),
    ];
    let (tv, movies) = group_sessions(&renames);
    assert_eq!(tv.len(), 2);
    assert_eq!(tv.key_at(0).id(), "session2");
    assert_eq!(tv.key_at(1).id(), "session1");
    let names: Vec<String> = tv.value_at(0).files().into_iter().map(|f| f.mkv_file).collect();
    assert_eq!(names, vec!["S01E01 - a.mkv", "S01E02 - b.mkv"]);
    assert_eq!(tv.value_at(0).session_id(), SessionId::new("session2"));
    assert_eq!(tv.value_at(1).files().len(), 1);
    assert_eq!(movies.len(), 2);
    assert_eq!(movies.key_at(0).id(), "session9");
    assert_eq!(movies.key_at(1).id(), "session2");
    assert_eq!(movies.value_at(1).files()[0].mkv_file, "m.mkv");
}

#[test]
fn sessions_of_either_kind_keep_the_order_of_their_files() {
    let renames = vec![
        episode("session2", "S01E02 - b.mkv"),
        RenameTypes::Movie(movie("session9", "/Rips/session9/renames/z.mkv", "z.mkv")),
        RenameTypes::Movie(movie("session2", "/Rips/session2/renames/A.mkv", "A.mkv")),
    ];
    let sessions = group_mixed_sessions(&renames);
    assert_eq!(sessions.len(), 2);
    assert_eq!(sessions.key_at(0).id(), "session2");
    assert_eq!(sessions.key_at(1).id(), "session9");
    assert_eq!(sessions.value_at(0).id(), SessionId::new("session2"));
    assert_eq!(
        deo::models::SessionFilesAware::files(sessions.value_at(0)),
        vec![renames[0].clone(), renames[2].clone()]
    );
    assert_eq!(sessions.value_at(0).files(), vec![renames[2].clone(), renames[0].clone()]);
    assert!(group_mixed_sessions(&Vec::new()).is_empty());
}

#[test]
fn grouping_nothing_gives_no_session() {
    let (tv, movies) = group_sessions(&Vec::new());
    assert!(tv.is_empty());
    assert!(movies.is_empty());
    let (tv_dirs, movie_dirs) = group_encode_dirs(&Vec::new());
    assert!(tv_dirs.is_empty());
    assert!(movie_dirs.is_empty());
}

fn season(session: &str, path: &str) -> EncodeDirType {
    EncodeDirType::TVSeries(TVSeriesEncodeDir {
        path: path.to_string(),
        season: "Show {tvdb-1}/Season 01".to_string(),
        session_id: SessionId::new(session),
    })
}

fn film(session: &str, path: &str) -> EncodeDirType {
    EncodeDirType::Movie(MovieEncodeDir {
        path: path.to_string(),
        session_id: SessionId::new(session),
        movie_name: MovieName::new("Film {tvdb-2}"),
    })
}

#[test]
fn each_session_keeps_the_directory_it_declared_last() {
    let dirs = vec![
        season("session1", "/first"),
        film("session2", "/film"),
        season("session3", "/third"),
        season("session1", "/second"),
        film("session3", "/now a film"),
    ];
    let (tv, movies) = group_encode_dirs(&dirs);
    assert_eq!(tv.len(), 1);
    assert_eq!(tv.key_at(0).id(), "session1");
    assert_eq!(tv.value_at(0).path, "/second");
    assert_eq!(movies.len(), 2);
    assert_eq!(movies.key_at(0).id(), "session2");
    assert_eq!(movies.key_at(1).id(), "session3");
    assert_eq!(movies.value_at(1).path, "/now a film");
    assert_eq!(
        repeated_declarations(&dirs),
        vec![SessionId::new("session1"), SessionId::new("session3")]
    );
    assert!(repeated_declarations(&vec![season("session1", "/only")]).is_empty());
}

#[test]
fn an_id_is_found_among_ids() {
    let ids = vec![SessionId::new("session1"), SessionId::new("session2")];
    assert!(contains_id(&ids, &SessionId::new("session2")));
    assert!(!contains_id(&ids, &SessionId::new("session3")));
    assert!(!contains_id(&Vec::new(), &SessionId::new("session1")));
}
