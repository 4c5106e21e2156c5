//! What the user chose to encode.

use crate::models::MappingView;
use crate::models::SessionId;
use crate::models::SessionToEncodeDir;
use crate::profiles::ProfileConfigItem;
use crate::profiles::ProfileView;
use vstd::prelude::*;
use vstd::string::StringExecFns;

verus! {

/// The mathematical value of a [`UserSelection`].
pub struct UserSelectionView {
    pub session_id: Seq<char>,
    pub session_to_encode_dir: MappingView,
    pub profile: ProfileView,
}

/// A session that the user chose to encode, and the profile to encode it
/// with.
#[derive(Debug, PartialEq, Eq)]
pub struct UserSelection {
    session_id: SessionId,
    session_to_encode_dir: SessionToEncodeDir,
    profile: ProfileConfigItem,
}

impl View for UserSelection {
    type V = UserSelectionView;

    closed spec fn view(&self) -> UserSelectionView {
        UserSelectionView {
            session_id: self.session_id@,
            session_to_encode_dir: self.session_to_encode_dir@,
            profile: self.profile@,
        }
    }
}

impl UserSelection {
    /// Whether the selection is that of a TV series.
    pub closed spec fn is_tv_series(&self) -> bool {
        self.session_to_encode_dir is TVSeriesMapping
    }

    /// The selection of `session_to_encode_dir`, under `session_id`, to be
    /// encoded with `profile`.
    pub fn new(
        session_id: SessionId,
        session_to_encode_dir: SessionToEncodeDir,
        profile: ProfileConfigItem,
    ) -> (r: Self)
        ensures
            r@ == (UserSelectionView {
                session_id: session_id@,
                session_to_encode_dir: session_to_encode_dir@,
                profile: profile@,
            }),
            r.is_tv_series() == (session_to_encode_dir is TVSeriesMapping),
    {
        UserSelection { session_id, session_to_encode_dir, profile }
    }

    /// A copy of the session with its encode directory.
    pub fn session_to_encode_dir(&self) -> (r: SessionToEncodeDir)
        ensures
            r@ == self@.session_to_encode_dir,
            (r is TVSeriesMapping) == self.is_tv_series(),
    {
        self.session_to_encode_dir.clone()
    }

    /// The path of the directory that the files are encoded to.
    pub fn encode_dir_path(&self) -> (r: String)
        ensures
            r@ == self@.session_to_encode_dir.encode_dir.path,
    {
        self.session_to_encode_dir.encode_dir_path()
    }

    /// The profile to encode with.
    pub fn profile(&self) -> (r: &ProfileConfigItem)
        ensures
            r@ == self@.profile,
    {
        &self.profile
    }

    /// The text that describes the selection.
    pub open spec fn label(&self) -> Seq<char> {
        "Copy "@ + self@.session_id + " -> "@ + self@.session_to_encode_dir.encode_dir.locator.text()
            + " with "@ + self@.profile.display_name
    }

    /// The text that describes the selection: the session, where its files go
    /// and the profile.
    pub fn to_string(&self) -> (r: String)
        ensures
            r@ == self.label(),
    {
        let mut s = "Copy ".to_owned();
        s.append(self.session_id.id());
        s.append(" -> ");
        s.append(self.session_to_encode_dir.location().as_str());
        s.append(" with ");
        s.append(self.profile.to_string().as_str());
        s
    }
}

/// Whether to go on with the selection.
#[derive(Debug, PartialEq, Eq, Clone, Copy)]
pub enum ContinueType {
    EncodeSelection,
    Cancel,
}

impl ContinueType {
    /// The text that the choice is shown as.
    pub open spec fn label(&self) -> Seq<char> {
        match *self {
            ContinueType::EncodeSelection => "Encode selection"@,
            ContinueType::Cancel => "Cancel"@,
        }
    }

    /// The text that the choice is shown as.
    pub fn to_string(&self) -> (r: String)
        ensures
            r@ == self.label(),
    {
        match self {
            ContinueType::EncodeSelection => "Encode selection".to_owned(),
            ContinueType::Cancel => "Cancel".to_owned(),
        }
    }
}

} // verus!
