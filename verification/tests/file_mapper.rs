use deo::file_mapper::declared_encode_dir;
use deo::file_mapper::movie_rename_from;
use deo::file_mapper::tv_rename_from;
use deo::file_mapper::FileMapper;
use deo::file_mapper::Pattern;
use deo::file_mapper::Scanned;
use deo::models::EntryType;
use deo::models::SessionId;

fn mapper() -> FileMapper {
    FileMapper::new().expect("the patterns compile")
}

fn groups(pattern: Pattern, text: &str) -> Vec<String> {
    mapper()
        .captures(pattern, text)
        .expect("the pattern matches")
        .into_iter()
        .map(|g| g.expect("the group took part"))
        .collect()
}

#[test]
fn tv_series_regex_match() {
    let path = "/Some/Path/Rips/session1/renames/S01E02 - The Unholy Alliance.mkv";
    assert_eq!(mapper().captures(Pattern::RenameTvSeriesFile, path).is_some(), true);

    let found = groups(Pattern::RenameTvSeriesFile, path);
    assert_eq!(found[0], "session1/renames/S01E02 - The Unholy Alliance.mkv");
    assert_eq!(found[1], "session1");
    assert_eq!(found[2], "S01E02 - The Unholy Alliance.mkv");
    assert_eq!(found[3], "S01E02");
}

#[test]
fn tv_series_regex_with_multiple_episodes_match() {
    let path = "/Some/Path/Rips/session1/renames/S01E04-E05 - The Saga.mkv";
    assert_eq!(mapper().captures(Pattern::RenameTvSeriesFile, path).is_some(), true);

    let found = groups(Pattern::RenameTvSeriesFile, path);
    assert_eq!(found[0], "session1/renames/S01E04-E05 - The Saga.mkv");
    assert_eq!(found[1], "session1");
    assert_eq!(found[2], "S01E04-E05 - The Saga.mkv");
    assert_eq!(found[3], "S01E04-E05");
}

#[test]
fn movie_regex_match() {
    let path = "/Some/Path/Rips/session3/renames/Return of the Jedi - {tvdb-698}.mkv";
    assert_eq!(mapper().captures(Pattern::RenameMovieFile, path).is_some(), true);

    let found = groups(Pattern::RenameMovieFile, path);
    assert_eq!(found[0], "session3/renames/Return of the Jedi - {tvdb-698}.mkv");
    assert_eq!(found[1], "session3");
    assert_eq!(found[2], "Return of the Jedi - {tvdb-698}.mkv");
}

#[test]
fn encode_file_name_regex_match() {
    let encode_file_path = "/Some/Path/Rips/session2/renames/encode_dir.txt";
    assert_eq!(mapper().captures(Pattern::EncodeFile, encode_file_path).is_some(), true);

    let found = groups(Pattern::EncodeFile, encode_file_path);
    assert_eq!(found[0], "session2/renames/encode_dir.txt");
    assert_eq!(found[1], "session2")
}

#[test]
fn encode_file_tv_series_contents_regex_match() {
    let encode_file_contents = "/Some/Path/Encodes/ThunderCats {tvdb-70355}/Season 01";
    assert_eq!(
        mapper().captures(Pattern::EncodeTvSeriesDir, encode_file_contents).is_some(),
        true
    );

    let found = groups(Pattern::EncodeTvSeriesDir, encode_file_contents);
    assert_eq!(found[0], "/Some/Path/Encodes/ThunderCats {tvdb-70355}/Season 01");
    assert_eq!(found[1], "ThunderCats {tvdb-70355}/Season 01");
}

#[test]
fn encode_file_movie_contents_regex_match() {
    let encode_file_contents = "/Some/Path/Encodes/Return of the Jedi - {tvdb-698}";
    assert_eq!(mapper().captures(Pattern::EncodeMovieDir, encode_file_contents).is_some(), true);

    let found = groups(Pattern::EncodeMovieDir, encode_file_contents);
    assert_eq!(found[0], "/Some/Path/Encodes/Return of the Jedi - {tvdb-698}");
    assert_eq!(found[1], "Return of the Jedi - {tvdb-698}");
}

#[test]
fn pattern_sources_are_the_five_expressions() {
    assert_eq!(
        Pattern::RenameTvSeriesFile.source(),
        r"(session\d{1,})/renames/((S\d{2,}E\d{2,}(?:-E\d{2,})?)\s-\s(.+.mkv))$"
    );
    assert_eq!(Pattern::RenameMovieFile.source(), r"(session\d{1,})/renames/(.+.mkv)$");
    assert_eq!(Pattern::EncodeFile.source(), r"(session\d{1,})/renames/encode_dir\.txt$");
    assert_eq!(
        Pattern::EncodeTvSeriesDir.source(),
        r".+/(.+\s\{tvdb\-\d{1,}\}/Season\s\d{2,})$"
    );
    assert_eq!(Pattern::EncodeMovieDir.source(), r".+/(.+\s\{tvdb\-\d{1,}\})$");
}

#[test]
fn no_match_gives_no_groups() {
    assert_eq!(mapper().captures(Pattern::RenameTvSeriesFile, "/Some/Path/readme.txt"), None);
    assert_eq!(mapper().captures(Pattern::EncodeFile, "/Rips/session2/renames/encode_dir.txt.bak"), None);
}

#[test]
fn classifies_an_episode_with_its_session_label_and_file() {
    let path = "/Some/Path/Rips/session1/renames/S01E02 - The Unholy Alliance.mkv";
    let expected = EntryType::new_tv_series_rename(
        path,
        "session1",
        "S01E02",
        "S01E02 - The Unholy Alliance.mkv",
    );
    assert_eq!(mapper().handle_tv_series_rename(path), Some(expected.clone()));
    assert_eq!(mapper().classify_path(path, true), Scanned::Entry(expected));
}

#[test]
fn classifies_a_double_episode_with_the_whole_label() {
    let path = "/Some/Path/Rips/session1/renames/S01E04-E05 - The Saga.mkv";
    match mapper().classify_path(path, true) {
        Scanned::Entry(EntryType::TVSeriesRename { session, episode, file, .. }) => {
            assert_eq!(session, SessionId::new("session1"));
            assert_eq!(episode, "S01E04-E05");
            assert_eq!(file, "S01E04-E05 - The Saga.mkv");
        }
        other => panic!("no episode: {:?}", other),
    }
}

#[test]
fn classifies_any_other_mkv_as_a_movie() {
    let path = "/Some/Path/Rips/session3/renames/Return of the Jedi - {tvdb-698}.mkv";
    let expected =
        EntryType::new_movie_rename(path, "session3", "Return of the Jedi - {tvdb-698}.mkv");
    assert_eq!(mapper().handle_tv_series_rename(path), None);
    assert_eq!(mapper().handle_movie_rename(path), Some(expected.clone()));
    assert_eq!(mapper().classify_path(path, true), Scanned::Entry(expected));
}

#[test]
fn an_episode_is_recognised_before_a_movie() {
    let path = "/Rips/session7/renames/S02E10 - Finale.mkv";
    assert!(mapper().handle_movie_rename(path).is_some());
    assert!(matches!(
        mapper().classify_path(path, true),
        Scanned::Entry(EntryType::TVSeriesRename { .. })
    ));
}

#[test]
fn classifies_a_marker_file_by_its_session() {
    let path = "/Some/Path/Rips/session2/renames/encode_dir.txt";
    assert_eq!(mapper().handle_encode_file(path), Some(SessionId::new("session2")));
    assert_eq!(
        mapper().classify_path(path, true),
        Scanned::Marker { session: SessionId::new("session2") }
    );
}

#[test]
fn a_directory_is_unknown_whatever_its_name() {
    let path = "/Some/Path/Rips/session1/renames/S01E02 - The Unholy Alliance.mkv";
    assert_eq!(
        mapper().classify_path(path, false),
        Scanned::Entry(EntryType::unknown_file_type(path))
    );
    assert_eq!(
        mapper().classify_path("/Some/Path/Rips/session1/renames", false),
        Scanned::Entry(EntryType::unknown_file_type("/Some/Path/Rips/session1/renames"))
    );
}

#[test]
fn other_files_are_unknown() {
    for path in [
        "/Rips/session1/renames/S01E02 - The Unholy Alliance.nfo",
        "/Rips/session1/renames/notes.txt",
        "/Rips/session1/S01E02 - The Unholy Alliance.mkv",
        "/Rips/sessionX/renames/movie.mkv",
        "/Rips/session1/renames/movie.mkv.part",
    ] {
        assert_eq!(
            mapper().classify_path(path, true),
            Scanned::Entry(EntryType::unknown_file_type(path)),
            "{}",
            path
        );
    }
}

#[test]
fn marker_of_an_existing_season_directory() {
    let declared = "/Encodes/ThunderCats {tvdb-70355}/Season 01";
    let entry = mapper().classify_marker(&SessionId::new("session1"), declared, true);
    assert_eq!(
        entry,
        EntryType::new_tv_series_encodes(
            declared,
            "ThunderCats {tvdb-70355}/Season 01",
            "session1"
        )
    );
    match entry {
        EntryType::TVSeriesEncode { season, .. } => {
            assert_eq!(season, "ThunderCats {tvdb-70355}/Season 01")
        }
        other => panic!("no season: {:?}", other),
    }
}

#[test]
fn marker_of_an_existing_movie_directory() {
    let declared = "/Encodes/Return of the Jedi - {tvdb-698}";
    let entry = mapper().classify_marker(&SessionId::new("session3"), declared, true);
    assert_eq!(
        entry,
        EntryType::new_movie_encodes(declared, "Return of the Jedi - {tvdb-698}", "session3")
    );
    match entry {
        EntryType::MovieEncode { movie_name, .. } => {
            assert_eq!(movie_name.name(), "Return of the Jedi - {tvdb-698}")
        }
        other => panic!("no movie: {:?}", other),
    }
}

#[test]
fn marker_of_a_missing_directory_is_invalid() {
    let declared = "/Encodes/ThunderCats {tvdb-70355}/Season 01";
    assert_eq!(
        mapper().classify_marker(&SessionId::new("session1"), declared, false),
        EntryType::could_not_match_defined_encode_dir(declared)
    );
}

#[test]
fn marker_of_a_misshapen_directory_is_invalid() {
    for declared in ["/Encodes/ThunderCats/Season 01", "/Encodes", "", "ThunderCats {tvdb-70355}"] {
        assert_eq!(
            mapper().classify_marker(&SessionId::new("session1"), declared, true),
            EntryType::could_not_match_defined_encode_dir(declared),
            "{}",
            declared
        );
    }
}

#[test]
fn handlers_of_encode_directories_capture_the_locator() {
    assert_eq!(
        mapper().handle_tv_series_encode_file("/E/Show {tvdb-12}/Season 02", "session4"),
        Some(EntryType::new_tv_series_encodes(
            "/E/Show {tvdb-12}/Season 02",
            "Show {tvdb-12}/Season 02",
            "session4"
        ))
    );
    assert_eq!(mapper().handle_tv_series_encode_file("/E/Film {tvdb-9}", "session4"), None);
    assert_eq!(
        mapper().handle_movie_encode_file("/E/Film {tvdb-9}", "session4"),
        Some(EntryType::new_movie_encodes("/E/Film {tvdb-9}", "Film {tvdb-9}", "session4"))
    );
    assert_eq!(mapper().handle_movie_encode_file("/E/Film", "session4"), None);
}

#[test]
fn declared_directory_is_the_trimmed_contents() {
    assert_eq!(
        declared_encode_dir("  /Encodes/ThunderCats {tvdb-70355}/Season 01\n"),
        "/Encodes/ThunderCats {tvdb-70355}/Season 01"
    );
    assert_eq!(declared_encode_dir("\t\r\n"), "");
    assert_eq!(declared_encode_dir("a b"), "a b");
}

#[test]
fn a_match_without_its_groups_gives_no_entry() {
    let path = "/Rips/session1/renames/S01E02 - x.mkv";
    assert_eq!(tv_rename_from(path, &None), None);
    assert_eq!(tv_rename_from(path, &Some(vec![Some("whole".to_string())])), None);
    assert_eq!(
        tv_rename_from(
            path,
            &Some(vec![
                Some("whole".to_string()),
                Some("session1".to_string()),
                None,
                Some("S01E02".to_string())
            ])
        ),
        None
    );
    assert_eq!(
        tv_rename_from(
            path,
            &Some(vec![
                Some("whole".to_string()),
                Some("session1".to_string()),
                Some("S01E02 - x.mkv".to_string()),
                Some("S01E02".to_string())
            ])
        ),
        Some(EntryType::new_tv_series_rename(path, "session1", "S01E02", "S01E02 - x.mkv"))
    );
    assert_eq!(
        movie_rename_from(
            path,
            &Some(vec![
                Some("whole".to_string()),
                Some("session1".to_string()),
                Some("x.mkv".to_string())
            ])
        ),
        Some(EntryType::new_movie_rename(path, "session1", "x.mkv"))
    );
}
