use super::FileView;
use super::MovieRenameFile;
use super::TVSeriesRenameFile;
use crate::seqs::views;
use vstd::prelude::*;
use vstd::std_specs::convert::FromSpecImpl;

verus! {

/// The mathematical value of an input file.
pub struct InputFileView {
    pub mkv_file: Seq<char>,
    pub mp4_file: Seq<char>,
    pub mkv_path: Seq<char>,
}

/// What the encoder is given of the renamed file `file`.
pub open spec fn input_of(file: FileView) -> InputFileView {
    InputFileView { mkv_file: file.mkv_file, mp4_file: file.mp4_file, mkv_path: file.path }
}

/// A file to encode: its name, the name of the encoded file and its path.
#[derive(Debug, PartialEq, Eq)]
pub struct InputFile {
    pub mkv_file: String,
    pub mp4_file: String,
    pub mkv_path: String,
}

impl View for InputFile {
    type V = InputFileView;

    open spec fn view(&self) -> InputFileView {
        InputFileView {
            mkv_file: self.mkv_file@,
            mp4_file: self.mp4_file@,
            mkv_path: self.mkv_path@,
        }
    }
}

impl Clone for InputFile {
    fn clone(&self) -> (r: Self)
        ensures
            r == *self,
    {
        InputFile {
            mkv_file: self.mkv_file.clone(),
            mp4_file: self.mp4_file.clone(),
            mkv_path: self.mkv_path.clone(),
        }
    }
}

impl From<TVSeriesRenameFile> for InputFile {
    fn from(tv_rename: TVSeriesRenameFile) -> (r: Self) {
        InputFile {
            mkv_file: tv_rename.mkv_file,
            mp4_file: tv_rename.mp4_file,
            mkv_path: tv_rename.path,
        }
    }
}

impl FromSpecImpl<TVSeriesRenameFile> for InputFile {
    open spec fn obeys_from_spec() -> bool {
        true
    }

    open spec fn from_spec(tv_rename: TVSeriesRenameFile) -> Self {
        InputFile {
            mkv_file: tv_rename.mkv_file,
            mp4_file: tv_rename.mp4_file,
            mkv_path: tv_rename.path,
        }
    }
}

impl From<MovieRenameFile> for InputFile {
    fn from(movie_rename: MovieRenameFile) -> (r: Self) {
        InputFile {
            mkv_file: movie_rename.mkv_file,
            mp4_file: movie_rename.mp4_file,
            mkv_path: movie_rename.path,
        }
    }
}

impl FromSpecImpl<MovieRenameFile> for InputFile {
    open spec fn obeys_from_spec() -> bool {
        true
    }

    open spec fn from_spec(movie_rename: MovieRenameFile) -> Self {
        InputFile {
            mkv_file: movie_rename.mkv_file,
            mp4_file: movie_rename.mp4_file,
            mkv_path: movie_rename.path,
        }
    }
}

/// The input files of a list of episodes, in the same order.
pub fn episode_inputs(files: Vec<TVSeriesRenameFile>) -> (r: Vec<InputFile>)
    ensures
        views(r@) == views(files@).map_values(|f: FileView| input_of(f)),
{
    let ghost all = files@;
    let mut out: Vec<InputFile> = Vec::new();
    for file in it: files
        invariant
            it.seq() == all,
            out@.len() == it.index(),
            forall|k: int| 0 <= k < it.index() ==> (#[trigger] out@[k])@ == input_of(all[k]@),
    {
        out.push(InputFile::from(file));
    }
    assert(views(out@) =~= views(all).map_values(|f: FileView| input_of(f)));
    out
}

/// The input files of a list of movies, in the same order.
pub fn movie_inputs(files: Vec<MovieRenameFile>) -> (r: Vec<InputFile>)
    ensures
        views(r@) == views(files@).map_values(|f: FileView| input_of(f)),
{
    let ghost all = files@;
    let mut out: Vec<InputFile> = Vec::new();
    for file in it: files
        invariant
            it.seq() == all,
            out@.len() == it.index(),
            forall|k: int| 0 <= k < it.index() ==> (#[trigger] out@[k])@ == input_of(all[k]@),
    {
        out.push(InputFile::from(file));
    }
    assert(views(out@) =~= views(all).map_values(|f: FileView| input_of(f)));
    out
}

} // verus!
