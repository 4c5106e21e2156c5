use deo::entry_type::SessionToEncodeDir as SessionWithEncodeDir;
use deo::models::rename_types::output_file_name;
use deo::models::EncodeDirError;
use deo::models::EncodeDirType;
use deo::models::EntryType;
use deo::models::EpisodeName;
use deo::models::InputFile;
use deo::models::MKVTypeAware;
use deo::models::MovieEncodeDir;
use deo::models::MovieName;
use deo::models::MovieRenameFile;
use deo::models::MovieSession;
use deo::models::MovieToEncodeDir;
use deo::models::RenameError;
use deo::models::RenameTypes;
use deo::models::Session;
use deo::models::SessionFilesAware;
use deo::models::SessionId;
use deo::models::SessionMap;
use deo::models::SessionToEncodeDir;
use deo::models::SessionTypeAware;
use deo::models::TVSeriesEncodeDir;
use deo::models::TVSeriesRenameFile;
use deo::models::TVSeriesSession;
use deo::models::TVSeriesToEncodeDir;
use deo::text::path_file_stem;
use deo::text::stem_of;

fn episode(session: &str, label: &str, title: &str) -> TVSeriesRenameFile {
    TVSeriesRenameFile {
        path: format!("/Rips/{}/renames/{} - {}.mkv", session, label, title),
        session: SessionId::new(session),
        episode: label.to_string(),
        mkv_file: format!("{} - {}.mkv", label, title),
        mp4_file: format!("{} - {}.mp4", label, title),
    }
}

fn movie(session: &str, dir: &str, title: &str) -> MovieRenameFile {
    MovieRenameFile {
        path: format!("{}/{}/renames/{}.mkv", dir, session, title),
        session: SessionId::new(session),
        mkv_file: format!("{}.mkv", title),
        mp4_file: format!("{}.mp4", title),
    }
}

fn season(session: &str) -> TVSeriesEncodeDir {
    TVSeriesEncodeDir {
        path: "/Encodes/ThunderCats {tvdb-70355}/Season 01".to_string(),
        season: "ThunderCats {tvdb-70355}/Season 01".to_string(),
        session_id: SessionId::new(session),
    }
}

fn film(session: &str) -> MovieEncodeDir {
    MovieEncodeDir {
        path: "/Encodes/Star Wars - {tvdb-71}".to_string(),
        session_id: SessionId::new(session),
        movie_name: MovieName::new("Star Wars - {tvdb-71}"),
    }
}

#[test]
fn session_id_keeps_its_text() {
    let id = SessionId::new("session1");
    assert_eq!(id.id(), "session1");
    assert_eq!(id.to_string(), "session1");
    assert!(id.same(&SessionId::new("session1")));
    assert!(!id.same(&SessionId::new("session2")));
    assert_eq!(id.clone(), id);
    assert!(SessionId::new("session1") < SessionId::new("session2"));
}

#[test]
fn movie_name_keeps_its_text() {
    let name = MovieName::new("Star Wars - {tvdb-71}");
    assert_eq!(name.name(), "Star Wars - {tvdb-71}");
    assert_eq!(name.to_string(), "Star Wars - {tvdb-71}");
    assert_eq!(name.clone(), name);
}

#[test]
fn entry_constructors_fill_the_variants() {
    assert_eq!(
        EntryType::new_tv_series_rename("/p/a.mkv", "session1", "S01E01", "a.mkv"),
        EntryType::TVSeriesRename {
            path: "/p/a.mkv".to_string(),
            session: SessionId::new("session1"),
            episode: "S01E01".to_string(),
            file: "a.mkv".to_string(),
        }
    );
    assert_eq!(
        EntryType::new_movie_rename("/p/a.mkv", "session1", "a.mkv"),
        EntryType::MovieRename {
            path: "/p/a.mkv".to_string(),
            session: SessionId::new("session1"),
            file: "a.mkv".to_string(),
        }
    );
    assert_eq!(
        EntryType::new_tv_series_encodes("/e/x", "x", "session1"),
        EntryType::TVSeriesEncode {
            session: SessionId::new("session1"),
            path: "/e/x".to_string(),
            season: "x".to_string(),
        }
    );
    assert_eq!(
        EntryType::new_movie_encodes("/e/x", "x", "session1"),
        EntryType::MovieEncode {
            session: SessionId::new("session1"),
            path: "/e/x".to_string(),
            movie_name: MovieName::new("x"),
        }
    );
    assert_eq!(
        EntryType::could_not_match_defined_encode_dir("/nowhere"),
        EntryType::InvalidEncodeDirPath { defined_path: "/nowhere".to_string() }
    );
    assert_eq!(
        EntryType::unknown_file_type("/p/readme"),
        EntryType::UnknownFileType { path: "/p/readme".to_string() }
    );
    assert!(EntryType::new_movie_rename("/p/a.mkv", "session1", "a.mkv").is_matched());
    assert!(!EntryType::unknown_file_type("/p/readme").is_matched());
    assert!(!EntryType::could_not_match_defined_encode_dir("/nowhere").is_matched());
}

#[test]
fn output_name_replaces_the_extension() {
    assert_eq!(output_file_name("S01E01 - Exodus.mkv"), Some("S01E01 - Exodus.mp4".to_string()));
    assert_eq!(
        output_file_name("Star Wars - {tvdb-71}.mkv"),
        Some("Star Wars - {tvdb-71}.mp4".to_string())
    );
    assert_eq!(output_file_name("a.b.mkv"), Some("a.b.mp4".to_string()));
    assert_eq!(output_file_name("noextension"), Some("noextension.mp4".to_string()));
    assert_eq!(output_file_name(".hidden"), Some(".hidden.mp4".to_string()));
    assert_eq!(output_file_name("sub/x.mkv"), Some("x.mp4".to_string()));
}

#[test]
fn output_name_is_the_same_on_every_call() {
    for name in ["S01E01 - Exodus.mkv", "x.mkv", "", "a.b.c", "é.mkv"] {
        assert_eq!(output_file_name(name), output_file_name(name));
    }
}

#[test]
fn a_name_without_a_stem_has_no_output_name() {
    assert_eq!(output_file_name(""), None);
    assert_eq!(output_file_name(".."), None);
    assert_eq!(path_file_stem(""), None);
}

#[test]
fn stem_is_what_stands_before_the_last_dot() {
    assert_eq!(stem_of("movie.mkv"), "movie");
    assert_eq!(stem_of("a.b.mkv"), "a.b");
    assert_eq!(stem_of("movie"), "movie");
    assert_eq!(stem_of(".hidden"), ".hidden");
    assert_eq!(stem_of("..a"), ".");
    assert_eq!(stem_of("a."), "a");
    assert_eq!(stem_of(""), "");
    assert_eq!(stem_of("épisode überlang.mkv"), "épisode überlang");
    assert_eq!(path_file_stem("/some/dir/movie.mkv"), Some("movie".to_string()));
}

#[test]
fn a_rename_entry_becomes_a_renamed_file() {
    let entry = EntryType::new_tv_series_rename(
        "/Rips/session1/renames/S01E01 - Exodus.mkv",
        "session1",
        "S01E01",
        "S01E01 - Exodus.mkv",
    );
    assert_eq!(
        RenameTypes::try_from(entry),
        Ok(RenameTypes::TVSeries(episode("session1", "S01E01", "Exodus")))
    );
    let entry =
        EntryType::new_movie_rename("/Rips/session5/renames/Film.mkv", "session5", "Film.mkv");
    assert_eq!(
        RenameTypes::try_from(entry),
        Ok(RenameTypes::Movie(movie("session5", "/Rips", "Film")))
    );
}

#[test]
fn other_entries_are_no_renames() {
    for entry in [
        EntryType::new_tv_series_encodes("/e/x", "x", "session1"),
        EntryType::new_movie_encodes("/e/x", "x", "session1"),
        EntryType::unknown_file_type("/p"),
        EntryType::could_not_match_defined_encode_dir("/p"),
    ] {
        assert_eq!(RenameTypes::try_from(entry), Err(RenameError::NotARename));
    }
}

#[test]
fn a_rename_without_a_stem_is_refused() {
    assert_eq!(
        RenameTypes::try_from(EntryType::new_movie_rename("/p", "session1", "")),
        Err(RenameError::MissingStem)
    );
    assert_eq!(
        RenameTypes::try_from(EntryType::new_tv_series_rename("/p", "session1", "S01E01", "")),
        Err(RenameError::MissingStem)
    );
}

#[test]
fn an_encode_entry_becomes_an_encode_directory() {
    assert_eq!(
        EncodeDirType::try_from(EntryType::new_tv_series_encodes(
            "/Encodes/ThunderCats {tvdb-70355}/Season 01",
            "ThunderCats {tvdb-70355}/Season 01",
            "session1"
        )),
        Ok(EncodeDirType::TVSeries(season("session1")))
    );
    assert_eq!(
        EncodeDirType::try_from(EntryType::new_movie_encodes(
            "/Encodes/Star Wars - {tvdb-71}",
            "Star Wars - {tvdb-71}",
            "session5"
        )),
        Ok(EncodeDirType::Movie(film("session5")))
    );
    assert!(EncodeDirType::TVSeries(season("session1")).is_tv_series());
    assert!(!EncodeDirType::Movie(film("session1")).is_tv_series());
    assert_eq!(EncodeDirType::Movie(film("session7")).session_id(), SessionId::new("session7"));
    assert_eq!(season("session3").session_id(), SessionId::new("session3"));
    assert_eq!(film("session4").session_id(), SessionId::new("session4"));
}

#[test]
fn other_entries_are_no_encode_directories() {
    for entry in [
        EntryType::new_tv_series_rename("/p", "session1", "S01E01", "a.mkv"),
        EntryType::new_movie_rename("/p", "session1", "a.mkv"),
        EntryType::unknown_file_type("/p"),
        EntryType::could_not_match_defined_encode_dir("/p"),
    ] {
        assert_eq!(EncodeDirType::try_from(entry), Err(EncodeDirError::NotAnEncodeDir));
    }
}

#[test]
fn renames_tell_their_names() {
    let tv = RenameTypes::TVSeries(episode("session1", "S01E01", "Exodus"));
    let film = RenameTypes::Movie(movie("session5", "/Rips", "Film"));
    assert_eq!(tv.session_id(), SessionId::new("session1"));
    assert_eq!(film.session_id(), SessionId::new("session5"));
    assert_eq!(tv.mkv_file(), "S01E01 - Exodus.mkv");
    assert_eq!(tv.mp4_file(), "S01E01 - Exodus.mp4");
    assert_eq!(tv.mkv_path(), "/Rips/session1/renames/S01E01 - Exodus.mkv");
    assert_eq!(film.mkv_file(), "Film.mkv");
    assert_eq!(film.mp4_file(), "Film.mp4");
    assert_eq!(film.mkv_path(), "/Rips/session5/renames/Film.mkv");
    assert_eq!(tv.episode(), Some("S01E01".to_string()));
    assert_eq!(film.episode(), None);
    assert!(tv.is_tv_series());
    assert!(!film.is_tv_series());
    assert_eq!(episode("session1", "S01E01", "Exodus").mkv_file(), "S01E01 - Exodus.mkv");
    assert_eq!(episode("session1", "S01E01", "Exodus").mp4_file(), "S01E01 - Exodus.mp4");
    assert_eq!(movie("session5", "/Rips", "Film").mkv_path(), "/Rips/session5/renames/Film.mkv");
}

#[test]
fn tv_series_session_sorts_on_request() {
    let files = vec![
        episode("session1", "S01E03", "Berbils"),
        episode("session1", "S01E01", "Exodus"),
        episode("session1", "S01E02", "The Unholy Alliance"),
    ];
    let session = TVSeriesSession::new(SessionId::new("session1"), files.clone());
    assert_eq!(session.session_id(), SessionId::new("session1"));
    assert_eq!(session.files(), files);
    assert_eq!(
        session.files_sorted(),
        vec![
            episode("session1", "S01E01", "Exodus"),
            episode("session1", "S01E02", "The Unholy Alliance"),
            episode("session1", "S01E03", "Berbils"),
        ]
    );
    let as_renames = SessionFilesAware::files(&session);
    assert_eq!(as_renames.len(), 3);
    assert_eq!(as_renames[0], RenameTypes::TVSeries(episode("session1", "S01E03", "Berbils")));
    assert_eq!(session.clone(), session);
}

#[test]
fn movie_session_sorts_on_request() {
    let files = vec![movie("session5", "/b", "Zulu"), movie("session5", "/a", "Alien")];
    let session = MovieSession::new(SessionId::new("session5"), files.clone());
    assert_eq!(session.files(), files);
    assert_eq!(
        session.sorted_files(),
        vec![movie("session5", "/a", "Alien"), movie("session5", "/b", "Zulu")]
    );
    assert_eq!(SessionTypeAware::session_id(&session), SessionId::new("session5"));
    assert_eq!(
        SessionFilesAware::files(&session)[1],
        RenameTypes::Movie(movie("session5", "/a", "Alien"))
    );
}

#[test]
fn equal_file_names_are_ordered_by_path() {
    let files = vec![
        movie("session5", "/z", "Film"),
        movie("session5", "/a", "Film"),
        movie("session5", "/m", "Film"),
        movie("session5", "/zz", "Able"),
    ];
    let session = MovieSession::new(SessionId::new("session5"), files);
    let paths: Vec<String> = session.sorted_files().into_iter().map(|f| f.path).collect();
    assert_eq!(
        paths,
        vec![
            "/zz/session5/renames/Able.mkv",
            "/a/session5/renames/Film.mkv",
            "/m/session5/renames/Film.mkv",
            "/z/session5/renames/Film.mkv"
        ]
    );
}

#[test]
fn files_that_compare_equal_keep_their_order() {
    let first = TVSeriesRenameFile { episode: "first".to_string(), ..episode("s", "S01E01", "a") };
    let second = TVSeriesRenameFile { episode: "second".to_string(), ..episode("s", "S01E01", "a") };
    let session =
        TVSeriesSession::new(SessionId::new("s"), vec![first.clone(), second.clone()]);
    assert_eq!(session.files_sorted(), vec![first.clone(), second.clone()]);
    let session = TVSeriesSession::new(SessionId::new("s"), vec![second.clone(), first.clone()]);
    assert_eq!(session.files_sorted(), vec![second, first]);
}

#[test]
fn mixed_session_sorts_its_files() {
    let files = vec![
        RenameTypes::Movie(movie("session1", "/Rips", "Zulu")),
        RenameTypes::TVSeries(episode("session1", "S01E01", "Exodus")),
    ];
    let session = Session::new(SessionId::new("session1"), files.clone());
    assert_eq!(session.id(), SessionId::new("session1"));
    assert_eq!(
        session.files(),
        vec![
            RenameTypes::TVSeries(episode("session1", "S01E01", "Exodus")),
            RenameTypes::Movie(movie("session1", "/Rips", "Zulu")),
        ]
    );
    assert_eq!(SessionFilesAware::files(&session), files);
    assert_eq!(SessionTypeAware::session_id(&session), SessionId::new("session1"));
}

#[test]
fn mapping_of_a_tv_series_hands_out_its_parts() {
    let id = SessionId::new("session1");
    let session = TVSeriesSession::new(
        id.clone(),
        vec![episode("session1", "S01E02", "b"), episode("session1", "S01E01", "a")],
    );
    let mapping = TVSeriesToEncodeDir::new(id.clone(), session.clone(), season("session1"));
    assert_eq!(mapping.session_id(), id);
    assert_eq!(mapping.session(), session);
    assert_eq!(mapping.encode_dir(), season("session1"));
    assert_eq!(
        mapping.sorted_session(),
        TVSeriesSession::new(
            id.clone(),
            vec![episode("session1", "S01E01", "a"), episode("session1", "S01E02", "b")]
        )
    );
}

#[test]
fn mapping_of_a_movie_hands_out_its_parts() {
    let id = SessionId::new("session5");
    let session = MovieSession::new(
        id.clone(),
        vec![movie("session5", "/Rips", "b"), movie("session5", "/Rips", "a")],
    );
    let mapping = MovieToEncodeDir::new(id.clone(), session.clone(), film("session5"));
    assert_eq!(mapping.session_id(), id);
    assert_eq!(mapping.session(), session);
    assert_eq!(mapping.encode_dir(), film("session5"));
    assert_eq!(
        mapping.sorted_session(),
        MovieSession::new(
            id.clone(),
            vec![movie("session5", "/Rips", "a"), movie("session5", "/Rips", "b")]
        )
    );
}

#[test]
fn session_to_encode_dir_answers_for_both_kinds() {
    let tv = SessionToEncodeDir::new_tv_series_encode_dir(
        SessionId::new("session1"),
        TVSeriesSession::new(
            SessionId::new("session1"),
            vec![episode("session1", "S01E02", "b"), episode("session1", "S01E01", "a")],
        ),
        season("session1"),
    );
    let film_mapping = SessionToEncodeDir::new_movie_encode_dir(
        SessionId::new("session5"),
        MovieSession::new(SessionId::new("session5"), vec![movie("session5", "/Rips", "Film")]),
        film("session5"),
    );
    assert!(tv.is_tv_series());
    assert!(!film_mapping.is_tv_series());
    assert_eq!(tv.session_id(), SessionId::new("session1"));
    assert_eq!(film_mapping.session_id(), SessionId::new("session5"));
    assert_eq!(tv.location(), "ThunderCats {tvdb-70355}/Season 01");
    assert_eq!(film_mapping.location(), "Star Wars - {tvdb-71}");
    assert_eq!(tv.encode_dir_path(), "/Encodes/ThunderCats {tvdb-70355}/Season 01");
    assert_eq!(film_mapping.encode_dir_path(), "/Encodes/Star Wars - {tvdb-71}");
    assert_eq!(tv.file_count(), 2);
    assert_eq!(film_mapping.file_count(), 1);
    assert_eq!(
        tv.rename_files(),
        vec![
            InputFile {
                mkv_file: "S01E02 - b.mkv".to_string(),
                mp4_file: "S01E02 - b.mp4".to_string(),
                mkv_path: "/Rips/session1/renames/S01E02 - b.mkv".to_string(),
            },
            InputFile {
                mkv_file: "S01E01 - a.mkv".to_string(),
                mp4_file: "S01E01 - a.mp4".to_string(),
                mkv_path: "/Rips/session1/renames/S01E01 - a.mkv".to_string(),
            },
        ]
    );
    assert_eq!(
        film_mapping.rename_files(),
        vec![InputFile::from(movie("session5", "/Rips", "Film"))]
    );
    let sorted = tv.sorted_files();
    assert_eq!(sorted.rename_files()[0].mkv_file, "S01E01 - a.mkv");
    assert_eq!(sorted.rename_files()[1].mkv_file, "S01E02 - b.mkv");
    assert_eq!(film_mapping.sorted_files(), film_mapping);
    assert_eq!(tv.clone(), tv);
}

#[test]
fn input_file_takes_the_names_of_a_rename() {
    assert_eq!(
        InputFile::from(episode("session1", "S01E01", "Exodus")),
        InputFile {
            mkv_file: "S01E01 - Exodus.mkv".to_string(),
            mp4_file: "S01E01 - Exodus.mp4".to_string(),
            mkv_path: "/Rips/session1/renames/S01E01 - Exodus.mkv".to_string(),
        }
    );
}

#[test]
fn joining_needs_a_session_and_a_directory_of_the_same_id() {
    let mut sessions: SessionMap<TVSeriesSession> = SessionMap::new();
    let mut dirs: SessionMap<TVSeriesEncodeDir> = SessionMap::new();
    for name in ["session3", "session1", "session2"] {
        sessions.insert(
            SessionId::new(name),
            TVSeriesSession::new(SessionId::new(name), vec![episode(name, "S01E01", "a")]),
        );
    }
    dirs.insert(SessionId::new("session2"), season("session2"));
    dirs.insert(SessionId::new("session4"), season("session4"));
    dirs.insert(SessionId::new("session3"), season("session3"));
    let joined = SessionToEncodeDir::from_tvseries_elements(&sessions, &dirs);
    let order: Vec<SessionId> = joined.iter().map(|m| m.session_id()).collect();
    assert_eq!(order, vec![SessionId::new("session3"), SessionId::new("session2")]);
    assert!(joined.iter().all(|m| m.is_tv_series()));

    let mut movie_sessions: SessionMap<MovieSession> = SessionMap::new();
    let mut movie_dirs: SessionMap<MovieEncodeDir> = SessionMap::new();
    movie_sessions.insert(
        SessionId::new("session5"),
        MovieSession::new(SessionId::new("session5"), vec![movie("session5", "/Rips", "Film")]),
    );
    assert!(SessionToEncodeDir::from_movie_elements(&movie_sessions, &movie_dirs).is_empty());
    movie_dirs.insert(SessionId::new("session5"), film("session5"));
    let joined = SessionToEncodeDir::from_movie_elements(&movie_sessions, &movie_dirs);
    assert_eq!(joined.len(), 1);
    assert!(!joined[0].is_tv_series());
    assert_eq!(joined[0].location(), "Star Wars - {tvdb-71}");
}

#[test]
fn session_map_replaces_in_place_and_appends_new_ids() {
    let mut map: SessionMap<MovieEncodeDir> = SessionMap::new();
    assert!(map.is_empty());
    assert_eq!(map.get(&SessionId::new("session1")), None);
    map.insert(SessionId::new("session1"), film("session1"));
    map.insert(SessionId::new("session2"), film("session2"));
    let replaced = MovieEncodeDir { path: "/Encodes/Other {tvdb-2}".to_string(), ..film("session1") };
    map.insert(SessionId::new("session1"), replaced.clone());
    assert_eq!(map.len(), 2);
    assert_eq!(map.key_at(0), &SessionId::new("session1"));
    assert_eq!(map.value_at(0), &replaced);
    assert_eq!(map.key_at(1), &SessionId::new("session2"));
    assert_eq!(map.get(&SessionId::new("session2")), Some(&film("session2")));
    assert_eq!(map.position(&SessionId::new("session2")), Some(1));
    assert_eq!(map.position(&SessionId::new("session3")), None);
    assert!(map.contains_key(&SessionId::new("session1")));
    assert!(!map.contains_key(&SessionId::new("session3")));
}

#[test]
fn session_with_encode_dir_of_either_kind() {
    let session = Session::new(
        SessionId::new("session1"),
        vec![RenameTypes::TVSeries(episode("session1", "S01E01", "a"))],
    );
    let tv = SessionWithEncodeDir::new_tv_series_encode_dir(
        SessionId::new("session1"),
        session.clone(),
        season("session1"),
    );
    assert_eq!(tv.session_id(), &SessionId::new("session1"));
    assert_eq!(tv.session(), &session);
    assert_eq!(tv.encode_dir(), &EncodeDirType::TVSeries(season("session1")));
    let film_mapping = SessionWithEncodeDir::new_movie_encode_dir(
        SessionId::new("session1"),
        session,
        film("session1"),
    );
    assert_eq!(film_mapping.encode_dir(), &EncodeDirType::Movie(film("session1")));
}
