//! What can go wrong when profiles are loaded and when files are encoded.

use vstd::prelude::*;
use vstd::string::StringExecFns;

verus! {

/// The name of a profile file.
#[derive(Debug, PartialEq, Eq)]
pub struct FileName(String);

/// The name of a directory.
#[derive(Debug, PartialEq, Eq)]
pub struct DirName(String);

/// The name of a log file.
#[derive(Debug, PartialEq, Eq)]
pub struct LogFile(String);

/// The command line by which the encoder was started.
#[derive(Debug, PartialEq, Eq)]
pub struct HandbrakeCommand(String);

impl View for FileName {
    type V = Seq<char>;

    closed spec fn view(&self) -> Seq<char> {
        self.0@
    }
}

impl View for DirName {
    type V = Seq<char>;

    closed spec fn view(&self) -> Seq<char> {
        self.0@
    }
}

impl View for LogFile {
    type V = Seq<char>;

    closed spec fn view(&self) -> Seq<char> {
        self.0@
    }
}

impl View for HandbrakeCommand {
    type V = Seq<char>;

    closed spec fn view(&self) -> Seq<char> {
        self.0@
    }
}

impl FileName {
    /// The file name `path`.
    pub fn new(path: &str) -> (r: Self)
        ensures
            r@ == path@,
    {
        FileName(path.to_owned())
    }

    /// The characters of the name.
    pub fn to_string(&self) -> (r: String)
        ensures
            r@ == self@,
    {
        self.0.clone()
    }
}

impl DirName {
    /// The directory name `path`.
    pub fn new(path: &str) -> (r: Self)
        ensures
            r@ == path@,
    {
        DirName(path.to_owned())
    }

    /// The characters of the name.
    pub fn to_string(&self) -> (r: String)
        ensures
            r@ == self@,
    {
        self.0.clone()
    }
}

impl LogFile {
    /// The log file `path`.
    pub fn new(path: &str) -> (r: Self)
        ensures
            r@ == path@,
    {
        LogFile(path.to_owned())
    }
}

impl HandbrakeCommand {
    /// The command line `cmd`.
    pub fn new(cmd: String) -> (r: Self)
        ensures
            r@ == cmd@,
    {
        HandbrakeCommand(cmd)
    }
}

/// Why the encoding profiles could not be loaded.
#[derive(Debug, PartialEq, Eq)]
pub enum DeoProfileError {
    CouldNotReadProfile(FileName, String),
    CouldNotDecodeProfile(FileName, String),
    ProfilePresetNameIsNotString(FileName, String),
    ProfilesDirDoesNotExist(DirName),
    CouldNotFindHomeDir,
    NoProfilesFound(DirName),
}

/// The mathematical value of a [`DeoProfileError`].
pub enum DeoProfileErrorView {
    CouldNotReadProfile(Seq<char>, Seq<char>),
    CouldNotDecodeProfile(Seq<char>, Seq<char>),
    ProfilePresetNameIsNotString(Seq<char>, Seq<char>),
    ProfilesDirDoesNotExist(Seq<char>),
    CouldNotFindHomeDir,
    NoProfilesFound(Seq<char>),
}

impl View for DeoProfileError {
    type V = DeoProfileErrorView;

    open spec fn view(&self) -> DeoProfileErrorView {
        match *self {
            DeoProfileError::CouldNotReadProfile(
                profile,
                error,
            ) => DeoProfileErrorView::CouldNotReadProfile(profile@, error@),
            DeoProfileError::CouldNotDecodeProfile(
                profile,
                error,
            ) => DeoProfileErrorView::CouldNotDecodeProfile(profile@, error@),
            DeoProfileError::ProfilePresetNameIsNotString(
                profile,
                error,
            ) => DeoProfileErrorView::ProfilePresetNameIsNotString(profile@, error@),
            DeoProfileError::ProfilesDirDoesNotExist(
                dir,
            ) => DeoProfileErrorView::ProfilesDirDoesNotExist(dir@),
            DeoProfileError::CouldNotFindHomeDir => DeoProfileErrorView::CouldNotFindHomeDir,
            DeoProfileError::NoProfilesFound(dir) => DeoProfileErrorView::NoProfilesFound(dir@),
        }
    }
}

impl DeoProfileError {
    /// The message that describes the error.
    pub open spec fn message(&self) -> Seq<char> {
        match *self {
            DeoProfileError::CouldNotReadProfile(profile, error) => "Could not read profile file: "@
                + profile@ + ", due to: "@ + error@,
            DeoProfileError::CouldNotDecodeProfile(
                profile,
                error,
            ) => "Could not decode profile file: "@ + profile@ + ", due to: "@ + error@,
            DeoProfileError::ProfilePresetNameIsNotString(profile, error) => "Profile: "@ + profile@
                + " has an invalid preset value: "@ + error@,
            DeoProfileError::ProfilesDirDoesNotExist(dir) => "Profile directory does not exist: "@
                + dir@,
            DeoProfileError::CouldNotFindHomeDir => "Could not find home directory"@,
            DeoProfileError::NoProfilesFound(dir) => "Could not find any profiles at: "@ + dir@,
        }
    }

    /// The message that describes the error.
    pub fn to_string(&self) -> (r: String)
        ensures
            r@ == self.message(),
    {
        match self {
            DeoProfileError::CouldNotReadProfile(profile, error) => {
                let mut s = "Could not read profile file: ".to_owned();
                s.append(profile.0.as_str());
                s.append(", due to: ");
                s.append(error.as_str());
                s
            },
            DeoProfileError::CouldNotDecodeProfile(profile, error) => {
                let mut s = "Could not decode profile file: ".to_owned();
                s.append(profile.0.as_str());
                s.append(", due to: ");
                s.append(error.as_str());
                s
            },
            DeoProfileError::ProfilePresetNameIsNotString(profile, error) => {
                let mut s = "Profile: ".to_owned();
                s.append(profile.0.as_str());
                s.append(" has an invalid preset value: ");
                s.append(error.as_str());
                s
            },
            DeoProfileError::ProfilesDirDoesNotExist(dir) => {
                let mut s = "Profile directory does not exist: ".to_owned();
                s.append(dir.0.as_str());
                s
            },
            DeoProfileError::CouldNotFindHomeDir => "Could not find home directory".to_owned(),
            DeoProfileError::NoProfilesFound(dir) => {
                let mut s = "Could not find any profiles at: ".to_owned();
                s.append(dir.0.as_str());
                s
            },
        }
    }
}

/// Why a file could not be encoded.
#[derive(Debug, PartialEq, Eq)]
pub enum DeoEncodingError {
    CouldNotRemoveLogFile(LogFile, String),
    CouldNotOpenLogFile(LogFile, String),
    FailedToSpawnHandbrake(HandbrakeCommand, String),
}

impl DeoEncodingError {
    /// The message that describes the error.
    pub open spec fn message(&self) -> Seq<char> {
        match *self {
            DeoEncodingError::CouldNotRemoveLogFile(log_file, error) => "Could not remove log file: "@
                + log_file@ + " due to: "@ + error@,
            DeoEncodingError::CouldNotOpenLogFile(log_file, error) => "Could not open log file: "@
                + log_file@ + " due to: "@ + error@,
            DeoEncodingError::FailedToSpawnHandbrake(
                cmd,
                error,
            ) => "Could not spawn handbrake command: '"@ + cmd@ + "' due to: "@ + error@,
        }
    }

    /// The message that describes the error.
    pub fn to_string(&self) -> (r: String)
        ensures
            r@ == self.message(),
    {
        match self {
            DeoEncodingError::CouldNotRemoveLogFile(log_file, error) => {
                let mut s = "Could not remove log file: ".to_owned();
                s.append(log_file.0.as_str());
                s.append(" due to: ");
                s.append(error.as_str());
                s
            },
            DeoEncodingError::CouldNotOpenLogFile(log_file, error) => {
                let mut s = "Could not open log file: ".to_owned();
                s.append(log_file.0.as_str());
                s.append(" due to: ");
                s.append(error.as_str());
                s
            },
            DeoEncodingError::FailedToSpawnHandbrake(cmd, error) => {
                let mut s = "Could not spawn handbrake command: '".to_owned();
                s.append(cmd.0.as_str());
                s.append("' due to: ");
                s.append(error.as_str());
                s
            },
        }
    }
}

} // verus!
