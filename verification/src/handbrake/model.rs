use crate::models::FileView;
use crate::models::InputFile;
use crate::models::MovieRenameFile;
use crate::models::TVSeriesRenameFile;
use crate::models::input_file::InputFileView;
use crate::models::input_file::input_of;
use crate::profiles::ProfileConfigItem;
use crate::profiles::ProfileView;
use crate::seqs::views;
use crate::user_selection::UserSelection;
use vstd::prelude::*;
use vstd::std_specs::convert::FromSpecImpl;

verus! {

/// A file for the encoder: its name, the name of the encoded file and its
/// path.
#[derive(Debug, PartialEq, Eq)]
pub struct HandbrakeInputFile {
    pub mkv_file: String,
    pub mp4_file: String,
    pub mkv_path: String,
}

impl View for HandbrakeInputFile {
    type V = InputFileView;

    open spec fn view(&self) -> InputFileView {
        InputFileView {
            mkv_file: self.mkv_file@,
            mp4_file: self.mp4_file@,
            mkv_path: self.mkv_path@,
        }
    }
}

impl Clone for HandbrakeInputFile {
    fn clone(&self) -> (r: Self)
        ensures
            r == *self,
    {
        HandbrakeInputFile {
            mkv_file: self.mkv_file.clone(),
            mp4_file: self.mp4_file.clone(),
            mkv_path: self.mkv_path.clone(),
        }
    }
}

impl From<TVSeriesRenameFile> for HandbrakeInputFile {
    fn from(tv_rename: TVSeriesRenameFile) -> (r: Self) {
        HandbrakeInputFile {
            mkv_file: tv_rename.mkv_file,
            mp4_file: tv_rename.mp4_file,
            mkv_path: tv_rename.path,
        }
    }
}

impl FromSpecImpl<TVSeriesRenameFile> for HandbrakeInputFile {
    open spec fn obeys_from_spec() -> bool {
        true
    }

    open spec fn from_spec(tv_rename: TVSeriesRenameFile) -> Self {
        HandbrakeInputFile {
            mkv_file: tv_rename.mkv_file,
            mp4_file: tv_rename.mp4_file,
            mkv_path: tv_rename.path,
        }
    }
}

impl From<MovieRenameFile> for HandbrakeInputFile {
    fn from(movie_rename: MovieRenameFile) -> (r: Self) {
        HandbrakeInputFile {
            mkv_file: movie_rename.mkv_file,
            mp4_file: movie_rename.mp4_file,
            mkv_path: movie_rename.path,
        }
    }
}

impl FromSpecImpl<MovieRenameFile> for HandbrakeInputFile {
    open spec fn obeys_from_spec() -> bool {
        true
    }

    open spec fn from_spec(movie_rename: MovieRenameFile) -> Self {
        HandbrakeInputFile {
            mkv_file: movie_rename.mkv_file,
            mp4_file: movie_rename.mp4_file,
            mkv_path: movie_rename.path,
        }
    }
}

/// The mathematical value of a [`HandbrakeInfo`].
pub struct HandbrakeInfoView {
    pub encode_dir_path: Seq<char>,
    pub profile: ProfileView,
    pub input_files: Seq<InputFileView>,
}

/// All that the encoder needs for one selection: where the encoded files go,
/// the profile, and the files to encode.
#[derive(Debug, PartialEq, Eq)]
pub struct HandbrakeInfo {
    pub encode_dir_path: String,
    pub profile: ProfileConfigItem,
    pub input_files: Vec<HandbrakeInputFile>,
}

impl View for HandbrakeInfo {
    type V = HandbrakeInfoView;

    open spec fn view(&self) -> HandbrakeInfoView {
        HandbrakeInfoView {
            encode_dir_path: self.encode_dir_path@,
            profile: self.profile@,
            input_files: views(self.input_files@),
        }
    }
}

fn encoder_inputs(files: Vec<InputFile>) -> (r: Vec<HandbrakeInputFile>)
    ensures
        views(r@) == views(files@),
{
    let ghost all = files@;
    let mut out: Vec<HandbrakeInputFile> = Vec::new();
    for file in it: files
        invariant
            it.seq() == all,
            out@.len() == it.index(),
            forall|k: int| 0 <= k < it.index() ==> (#[trigger] out@[k])@ == all[k]@,
    {
        out.push(
            HandbrakeInputFile {
                mkv_file: file.mkv_file,
                mp4_file: file.mp4_file,
                mkv_path: file.mkv_path,
            },
        );
    }
    assert(views(out@) =~= views(all));
    out
}

/// What the encoder is given for the selection `selection`.
pub open spec fn encoder_info(selection: UserSelection) -> HandbrakeInfoView {
    HandbrakeInfoView {
        encode_dir_path: selection@.session_to_encode_dir.encode_dir.path,
        profile: selection@.profile,
        input_files: selection@.session_to_encode_dir.session.files.map_values(
            |f: FileView| input_of(f),
        ),
    }
}

impl HandbrakeInfo {
    /// The files of the selected session in the order in which the session
    /// holds them, its encode directory and the chosen profile.
    pub fn from(user_selection: UserSelection) -> (r: Self)
        ensures
            r@ == encoder_info(user_selection),
    {
        let input_files = encoder_inputs(user_selection.session_to_encode_dir().rename_files());
        let encode_dir_path = user_selection.encode_dir_path();
        let profile = user_selection.profile().clone();
        HandbrakeInfo { input_files, profile, encode_dir_path }
    }
}

} // verus!
