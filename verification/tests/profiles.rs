use deo::error::DeoEncodingError;
use deo::error::DeoProfileError;
use deo::error::DirName;
use deo::error::FileName;
use deo::error::HandbrakeCommand;
use deo::error::LogFile;
use deo::handbrake::HandbrakeInfo;
use deo::handbrake::HandbrakeInputFile;
use deo::models::MovieEncodeDir;
use deo::models::MovieName;
use deo::models::MovieRenameFile;
use deo::models::MovieSession;
use deo::models::SessionId;
use deo::models::SessionToEncodeDir;
use deo::models::TVSeriesEncodeDir;
use deo::models::TVSeriesRenameFile;
use deo::models::TVSeriesSession;
use deo::profiles::collect_profiles;
use deo::profiles::decode_profile;
use deo::profiles::load_profile;
use deo::profiles::profile_from_member;
use deo::profiles::JsonMember;
use deo::profiles::ProfileConfigItem;
use deo::profiles::ProfileSelection;
use deo::user_choices::confirmed;
use deo::user_choices::picked_option;
use deo::user_choices::profile_options;
use deo::user_choices::after_selecting;
use deo::user_choices::selection_of;
use deo::user_choices::Interaction;
use deo::user_choices::NextStep;
use deo::user_selection::ContinueType;
use deo::user_selection::UserSelection;

fn profile(name: &str) -> ProfileConfigItem {
    ProfileConfigItem::new(&format!("/home/u/.deo/profiles/{}.json", name), name, "Fast 1080p30")
}

fn tv_mapping() -> SessionToEncodeDir {
    let id = SessionId::new("session1");
    let file = |label: &str| TVSeriesRenameFile {
        path: format!("/Rips/session1/renames/{} - x.mkv", label),
        session: id.clone(),
        episode: label.to_string(),
        mkv_file: format!("{} - x.mkv", label),
        mp4_file: format!("{} - x.mp4", label),
    };
    SessionToEncodeDir::new_tv_series_encode_dir(
        id.clone(),
        TVSeriesSession::new(id.clone(), vec![file("S01E02"), file("S01E01")]),
        TVSeriesEncodeDir {
            path: "/Encodes/Show {tvdb-1}/Season 01".to_string(),
            season: "Show {tvdb-1}/Season 01".to_string(),
            session_id: id.clone(),
        },
    )
}

fn movie_mapping() -> SessionToEncodeDir {
    let id = SessionId::new("session5");
    SessionToEncodeDir::new_movie_encode_dir(
        id.clone(),
        MovieSession::new(
            id.clone(),
            vec![MovieRenameFile {
                path: "/Rips/session5/renames/Film.mkv".to_string(),
                session: id.clone(),
                mkv_file: "Film.mkv".to_string(),
                mp4_file: "Film.mp4".to_string(),
            }],
        ),
        MovieEncodeDir {
            path: "/Encodes/Film {tvdb-2}".to_string(),
            session_id: id.clone(),
            movie_name: MovieName::new("Film {tvdb-2}"),
        },
    )
}

#[test]
fn a_profile_is_decoded_from_its_first_preset() {
    let json = r#"{"PresetList":[{"PresetName":"Fast 1080p30","x":1},{"PresetName":"other"}]}"#;
    let item = decode_profile("/p/fast.json", "fast", json).expect("a profile");
    assert_eq!(item.full_path(), "/p/fast.json");
    assert_eq!(item.preset_name(), "Fast 1080p30");
    assert_eq!(item.to_string(), "fast");
    assert_eq!(item, ProfileConfigItem::new("/p/fast.json", "fast", "Fast 1080p30"));
}

#[test]
fn a_text_that_is_no_json_cannot_be_decoded() {
    match decode_profile("/p/bad.json", "bad", "{ not json") {
        Err(DeoProfileError::CouldNotDecodeProfile(file, reason)) => {
            assert_eq!(file, FileName::new("/p/bad.json"));
            assert!(!reason.is_empty());
        }
        other => panic!("decoded: {:?}", other),
    }
}

#[test]
fn a_preset_name_that_is_no_string_is_invalid() {
    assert_eq!(
        decode_profile("/p/n.json", "n", r#"{"PresetList":[{"PresetName":42}]}"#),
        Err(DeoProfileError::ProfilePresetNameIsNotString(
            FileName::new("/p/n.json"),
            "42".to_string()
        ))
    );
    assert_eq!(
        decode_profile("/p/n.json", "n", r#"{"PresetList":[]}"#),
        Err(DeoProfileError::ProfilePresetNameIsNotString(
            FileName::new("/p/n.json"),
            "null".to_string()
        ))
    );
    assert_eq!(
        decode_profile("/p/n.json", "n", "[1,2]"),
        Err(DeoProfileError::ProfilePresetNameIsNotString(
            FileName::new("/p/n.json"),
            "null".to_string()
        ))
    );
}

#[test]
fn a_profile_follows_from_what_the_text_holds() {
    assert_eq!(
        profile_from_member("/p/a.json", "a", JsonMember::Text("HQ".to_string())),
        Ok(ProfileConfigItem::new("/p/a.json", "a", "HQ"))
    );
    assert_eq!(
        profile_from_member("/p/a.json", "a", JsonMember::Malformed("eof".to_string())),
        Err(DeoProfileError::CouldNotDecodeProfile(FileName::new("/p/a.json"), "eof".to_string()))
    );
    assert_eq!(
        profile_from_member("/p/a.json", "a", JsonMember::Other("[]".to_string())),
        Err(DeoProfileError::ProfilePresetNameIsNotString(
            FileName::new("/p/a.json"),
            "[]".to_string()
        ))
    );
}

#[test]
fn a_file_that_cannot_be_read_gives_no_profile() {
    assert_eq!(
        load_profile("/p/a.json", "a", Err("permission denied".to_string())),
        Err(DeoProfileError::CouldNotReadProfile(
            FileName::new("/p/a.json"),
            "permission denied".to_string()
        ))
    );
    assert_eq!(
        load_profile(
            "/p/a.json",
            "a",
            Ok(r#"{"PresetList":[{"PresetName":"HQ"}]}"#.to_string())
        ),
        Ok(ProfileConfigItem::new("/p/a.json", "a", "HQ"))
    );
}

#[test]
fn profiles_are_collected_in_order() {
    let config = collect_profiles("/p", vec![Ok(profile("b")), Ok(profile("a")), Ok(profile("c"))])
        .expect("profiles");
    let names: Vec<String> = config.items().iter().map(|p| p.to_string()).collect();
    assert_eq!(names, vec!["b", "a", "c"]);
    assert_eq!(config.clone(), config);
}

#[test]
fn the_first_failure_fails_the_collection() {
    let first = DeoProfileError::CouldNotReadProfile(FileName::new("/p/1"), "one".to_string());
    let second = DeoProfileError::CouldNotDecodeProfile(FileName::new("/p/2"), "two".to_string());
    assert_eq!(
        collect_profiles("/p", vec![Ok(profile("a")), Err(first), Ok(profile("b")), Err(second)]),
        Err(DeoProfileError::CouldNotReadProfile(FileName::new("/p/1"), "one".to_string()))
    );
}

#[test]
fn no_profile_at_all_is_an_error() {
    assert_eq!(
        collect_profiles("/home/u/.deo/profiles", Vec::new()),
        Err(DeoProfileError::NoProfilesFound(DirName::new("/home/u/.deo/profiles")))
    );
}

#[test]
fn profile_errors_describe_themselves() {
    assert_eq!(
        DeoProfileError::CouldNotReadProfile(FileName::new("a.json"), "denied".to_string())
            .to_string(),
        "Could not read profile file: a.json, due to: denied"
    );
    assert_eq!(
        DeoProfileError::CouldNotDecodeProfile(FileName::new("a.json"), "eof".to_string())
            .to_string(),
        "Could not decode profile file: a.json, due to: eof"
    );
    assert_eq!(
        DeoProfileError::ProfilePresetNameIsNotString(FileName::new("a.json"), "42".to_string())
            .to_string(),
        "Profile: a.json has an invalid preset value: 42"
    );
    assert_eq!(
        DeoProfileError::ProfilesDirDoesNotExist(DirName::new("/p")).to_string(),
        "Profile directory does not exist: /p"
    );
    assert_eq!(DeoProfileError::CouldNotFindHomeDir.to_string(), "Could not find home directory");
    assert_eq!(
        DeoProfileError::NoProfilesFound(DirName::new("/p")).to_string(),
        "Could not find any profiles at: /p"
    );
    assert_eq!(FileName::new("a.json").to_string(), "a.json");
    assert_eq!(DirName::new("/p").to_string(), "/p");
}

#[test]
fn encoding_errors_describe_themselves() {
    assert_eq!(
        DeoEncodingError::CouldNotRemoveLogFile(LogFile::new("/l.log"), "busy".to_string())
            .to_string(),
        "Could not remove log file: /l.log due to: busy"
    );
    assert_eq!(
        DeoEncodingError::CouldNotOpenLogFile(LogFile::new("/l.log"), "denied".to_string())
            .to_string(),
        "Could not open log file: /l.log due to: denied"
    );
    assert_eq!(
        DeoEncodingError::FailedToSpawnHandbrake(
            HandbrakeCommand::new("HandBrakeCLI -i a".to_string()),
            "missing".to_string()
        )
        .to_string(),
        "Could not spawn handbrake command: 'HandBrakeCLI -i a' due to: missing"
    );
}

#[test]
fn every_profile_is_offered_and_then_skip() {
    let config = collect_profiles("/p", vec![Ok(profile("a")), Ok(profile("b"))]).expect("profiles");
    let options = profile_options(&config);
    assert_eq!(
        options,
        vec![
            ProfileSelection::Select(profile("a")),
            ProfileSelection::Select(profile("b")),
            ProfileSelection::Skip
        ]
    );
    let labels: Vec<String> = options.iter().map(|o| o.to_string()).collect();
    assert_eq!(labels, vec!["a", "b", "Skip"]);
}

#[test]
fn the_answer_picks_an_option() {
    let options = [ContinueType::EncodeSelection, ContinueType::Cancel];
    assert_eq!(picked_option(&options, Ok(1)), Ok(&ContinueType::Cancel));
    assert_eq!(picked_option(&options, Ok(0)), Ok(&ContinueType::EncodeSelection));
    assert_eq!(picked_option(&options, Ok(2)), Err("Invalid selection index".to_string()));
    assert_eq!(picked_option(&options, Err("closed".to_string())), Err("closed".to_string()));
    assert_eq!(ContinueType::EncodeSelection.to_string(), "Encode selection");
    assert_eq!(ContinueType::Cancel.to_string(), "Cancel");
}

#[test]
fn a_chosen_profile_selects_the_session() {
    let selection = selection_of(tv_mapping(), &ProfileSelection::Select(profile("a")))
        .expect("a selection");
    assert_eq!(selection, UserSelection::new(SessionId::new("session1"), tv_mapping(), profile("a")));
    assert_eq!(selection.session_to_encode_dir(), tv_mapping());
    assert_eq!(selection.encode_dir_path(), "/Encodes/Show {tvdb-1}/Season 01");
    assert_eq!(selection.profile(), &profile("a"));
    assert_eq!(selection.to_string(), "Copy session1 -> Show {tvdb-1}/Season 01 with a");
    assert_eq!(selection_of(tv_mapping(), &ProfileSelection::Skip), None);
}

#[test]
fn the_dialogue_ends_by_what_was_selected_and_answered() {
    assert_eq!(after_selecting(Vec::new()), NextStep::Finished(Interaction::NoFilesToEncode));
    let selections =
        || vec![UserSelection::new(SessionId::new("session5"), movie_mapping(), profile("a"))];
    assert_eq!(after_selecting(selections()), NextStep::Confirm(selections()));
    assert_eq!(
        confirmed(selections(), Ok(ContinueType::EncodeSelection)),
        Interaction::ProceedToEncode(selections())
    );
    assert_eq!(confirmed(selections(), Ok(ContinueType::Cancel)), Interaction::CancelEncode);
    assert_eq!(
        confirmed(selections(), Err("closed".to_string())),
        Interaction::InteractionError("closed".to_string())
    );
}

#[test]
fn the_encoder_is_given_the_files_of_the_selection() {
    let info = HandbrakeInfo::from(UserSelection::new(
        SessionId::new("session1"),
        tv_mapping(),
        profile("a"),
    ));
    assert_eq!(
        info,
        HandbrakeInfo {
            encode_dir_path: "/Encodes/Show {tvdb-1}/Season 01".to_string(),
            profile: profile("a"),
            input_files: vec![
                HandbrakeInputFile {
                    mkv_file: "S01E02 - x.mkv".to_string(),
                    mp4_file: "S01E02 - x.mp4".to_string(),
                    mkv_path: "/Rips/session1/renames/S01E02 - x.mkv".to_string(),
                },
                HandbrakeInputFile {
                    mkv_file: "S01E01 - x.mkv".to_string(),
                    mp4_file: "S01E01 - x.mp4".to_string(),
                    mkv_path: "/Rips/session1/renames/S01E01 - x.mkv".to_string(),
                },
            ],
        }
    );
    let info = HandbrakeInfo::from(UserSelection::new(
        SessionId::new("session5"),
        movie_mapping(),
        profile("b"),
    ));
    assert_eq!(info.encode_dir_path, "/Encodes/Film {tvdb-2}");
    assert_eq!(info.input_files.len(), 1);
    assert_eq!(
        info.input_files[0],
        HandbrakeInputFile::from(MovieRenameFile {
            path: "/Rips/session5/renames/Film.mkv".to_string(),
            session: SessionId::new("session5"),
            mkv_file: "Film.mkv".to_string(),
            mp4_file: "Film.mp4".to_string(),
        })
    );
}
