//! Encoding profiles: exported encoder presets, one JSON file each.

use crate::error::DeoProfileError;
use crate::error::DeoProfileErrorView;
use crate::error::DirName;
use crate::error::FileName;
use vstd::prelude::*;

verus! {

/// What a JSON text holds at `[list][index][name]`.
#[derive(Debug, PartialEq, Eq)]
pub enum JsonMember {
    /// The text is no JSON; the reason is given.
    Malformed(String),
    /// The member is a string.
    Text(String),
    /// The member is missing or no string; it is given as JSON text.
    Other(String),
}

/// The mathematical value of a [`JsonMember`].
pub enum JsonMemberView {
    Malformed(Seq<char>),
    Text(Seq<char>),
    Other(Seq<char>),
}

impl View for JsonMember {
    type V = JsonMemberView;

    open spec fn view(&self) -> JsonMemberView {
        match *self {
            JsonMember::Malformed(s) => JsonMemberView::Malformed(s@),
            JsonMember::Text(s) => JsonMemberView::Text(s@),
            JsonMember::Other(s) => JsonMemberView::Other(s@),
        }
    }
}

/// What `serde_json` finds in the JSON text `text` at `[list][index][name]`:
/// the parse error where the text is malformed, the string where the member is
/// one, and else the member (`null` where there is none) as JSON text.
pub uninterp spec fn json_member(text: Seq<char>, list: Seq<char>, index: int, name: Seq<char>) -> JsonMemberView;

/// Parses `text` with `serde_json::from_str` and looks up `[list][index][name]`
/// in the value with `Value`'s index operator, which yields `null` for what is
/// missing. What is found depends on the arguments alone.
#[verifier::external_body]
pub(crate) fn lookup_json_member(text: &str, list: &str, index: usize, name: &str) -> (r: JsonMember)
    ensures
        r@ == json_member(text@, list@, index as int, name@),
{
    match serde_json::from_str::<serde_json::Value>(text) {
        Err(e) => JsonMember::Malformed(e.to_string()),
        Ok(json) => match &json[list][index][name] {
            serde_json::Value::String(s) => JsonMember::Text(s.clone()),
            other => JsonMember::Other(other.to_string()),
        },
    }
}

/// The mathematical value of a profile.
pub struct ProfileView {
    pub full: Seq<char>,
    pub display_name: Seq<char>,
    pub preset_name: Seq<char>,
}

/// One encoding profile: the path of its file, the name it is shown under and
/// the name of its preset.
#[derive(Debug, PartialEq, Eq)]
pub struct ProfileConfigItem {
    full: String,
    display_name: String,
    preset_name: String,
}

impl View for ProfileConfigItem {
    type V = ProfileView;

    closed spec fn view(&self) -> ProfileView {
        ProfileView {
            full: self.full@,
            display_name: self.display_name@,
            preset_name: self.preset_name@,
        }
    }
}

impl Clone for ProfileConfigItem {
    fn clone(&self) -> (r: Self)
        ensures
            r == *self,
    {
        ProfileConfigItem {
            full: self.full.clone(),
            display_name: self.display_name.clone(),
            preset_name: self.preset_name.clone(),
        }
    }
}

impl ProfileConfigItem {
    /// The profile in the file `full`, shown as `display_name`, with the
    /// preset `preset_name`.
    pub fn new(full: &str, display_name: &str, preset_name: &str) -> (r: Self)
        ensures
            r@ == (ProfileView {
                full: full@,
                display_name: display_name@,
                preset_name: preset_name@,
            }),
    {
        ProfileConfigItem {
            full: full.to_owned(),
            display_name: display_name.to_owned(),
            preset_name: preset_name.to_owned(),
        }
    }

    /// The path of the profile file.
    pub fn full_path(&self) -> (r: &str)
        ensures
            r@ == self@.full,
    {
        self.full.as_str()
    }

    /// The name of the preset.
    pub fn preset_name(&self) -> (r: &str)
        ensures
            r@ == self@.preset_name,
    {
        self.preset_name.as_str()
    }

    /// The name that the profile is shown under.
    pub fn to_string(&self) -> (r: String)
        ensures
            r@ == self@.display_name,
    {
        self.display_name.clone()
    }
}

/// What the user can choose for a session: a profile, or to skip the session.
#[derive(Debug, PartialEq, Eq)]
pub enum ProfileSelection {
    Select(ProfileConfigItem),
    Skip,
}

/// The mathematical value of a [`ProfileSelection`].
pub enum ProfileSelectionView {
    Select(ProfileView),
    Skip,
}

impl View for ProfileSelection {
    type V = ProfileSelectionView;

    open spec fn view(&self) -> ProfileSelectionView {
        match *self {
            ProfileSelection::Select(p) => ProfileSelectionView::Select(p@),
            ProfileSelection::Skip => ProfileSelectionView::Skip,
        }
    }
}

impl ProfileSelection {
    /// The text that the choice is shown as.
    pub open spec fn label(&self) -> Seq<char> {
        match *self {
            ProfileSelection::Select(p) => p@.display_name,
            ProfileSelection::Skip => "Skip"@,
        }
    }

    /// The text that the choice is shown as: the name of the profile, or
    /// `Skip`.
    pub fn to_string(&self) -> (r: String)
        ensures
            r@ == self.label(),
    {
        match self {
            ProfileSelection::Select(p) => p.to_string(),
            ProfileSelection::Skip => "Skip".to_owned(),
        }
    }
}

/// The encoding profiles that were found: at least one where it was made by
/// [`collect_profiles`].
#[derive(Debug, PartialEq, Eq)]
pub struct ProfileConfig(Vec<ProfileConfigItem>);

impl View for ProfileConfig {
    type V = Seq<ProfileView>;

    closed spec fn view(&self) -> Seq<ProfileView> {
        crate::seqs::views(self.0@)
    }
}

impl Clone for ProfileConfig {
    fn clone(&self) -> (r: Self)
        ensures
            r@ == self@,
    {
        let items = self.0.clone();
        assert(items@ =~= self.0@);
        ProfileConfig(items)
    }
}

impl ProfileConfig {
    /// The profiles, in the order in which they were found.
    pub fn items(&self) -> (r: &[ProfileConfigItem])
        ensures
            crate::seqs::views(r@) == self@,
    {
        self.0.as_slice()
    }
}

/// Whether the entry at `path` is a profile file: a file whose name has the
/// extension `json`.
pub open spec fn is_profile(path: Seq<char>, is_file: bool) -> bool {
    is_file && crate::text::file_extension(path) == Some("json"@)
}

/// Whether the entry at `path` is a profile file.
pub fn is_profile_file(path: &str, is_file: bool) -> (r: bool)
    ensures
        r == is_profile(path@, is_file),
{
    if !is_file {
        return false;
    }
    match crate::text::path_extension(path) {
        Some(found) => found == "json".to_owned(),
        None => false,
    }
}

/// The name that the profile in the file `full` is shown under: the stem of
/// the file name, or `<Unknown>` where the path names no file.
pub open spec fn display_name(full: Seq<char>) -> Seq<char> {
    match crate::text::file_stem(full) {
        Some(stem) => stem,
        None => "<Unknown>"@,
    }
}

/// The name that the profile in the file `full` is shown under.
pub fn display_name_of(full: &str) -> (r: String)
    ensures
        r@ == display_name(full@),
{
    match crate::text::path_file_stem(full) {
        Some(stem) => stem,
        None => "<Unknown>".to_owned(),
    }
}

/// The value of the outcome of loading a profile.
pub open spec fn profile_result_view(r: Result<ProfileConfigItem, DeoProfileError>) -> Result<
    ProfileView,
    DeoProfileErrorView,
> {
    match r {
        Ok(p) => Ok(p@),
        Err(e) => Err(e@),
    }
}

/// The profile that the file `full` holds, given what its JSON text holds as
/// the name of its first preset: a text that is no JSON cannot be decoded, and
/// a name that is no string is invalid.
pub open spec fn decoded_profile(
    full: Seq<char>,
    display_name: Seq<char>,
    member: JsonMemberView,
) -> Result<ProfileView, DeoProfileErrorView> {
    match member {
        JsonMemberView::Malformed(reason) => Err(
            DeoProfileErrorView::CouldNotDecodeProfile(full, reason),
        ),
        JsonMemberView::Text(preset_name) => Ok(ProfileView { full, display_name, preset_name }),
        JsonMemberView::Other(value) => Err(
            DeoProfileErrorView::ProfilePresetNameIsNotString(full, value),
        ),
    }
}

/// The profile that the file `full` holds, or the error of reading it.
pub open spec fn loaded_profile(
    full: Seq<char>,
    display_name: Seq<char>,
    read: Result<Seq<char>, Seq<char>>,
) -> Result<ProfileView, DeoProfileErrorView> {
    match read {
        Ok(text) => decoded_profile(
            full,
            display_name,
            json_member(text, "PresetList"@, 0, "PresetName"@),
        ),
        Err(reason) => Err(DeoProfileErrorView::CouldNotReadProfile(full, reason)),
    }
}

/// The characters of what was read of a file, or of why it could not be read.
pub open spec fn read_view(read: Result<String, String>) -> Result<Seq<char>, Seq<char>> {
    match read {
        Ok(text) => Ok(text@),
        Err(reason) => Err(reason@),
    }
}

/// Makes the profile of the file `full` from what its JSON text holds as the
/// name of its first preset.
pub fn profile_from_member(full: &str, display_name: &str, member: JsonMember) -> (r: Result<
    ProfileConfigItem,
    DeoProfileError,
>)
    ensures
        profile_result_view(r) == decoded_profile(full@, display_name@, member@),
{
    match member {
        JsonMember::Malformed(reason) => Err(
            DeoProfileError::CouldNotDecodeProfile(FileName::new(full), reason),
        ),
        JsonMember::Text(preset_name) => Ok(
            ProfileConfigItem::new(full, display_name, preset_name.as_str()),
        ),
        JsonMember::Other(value) => Err(
            DeoProfileError::ProfilePresetNameIsNotString(FileName::new(full), value),
        ),
    }
}

/// Decodes the profile file `full`, whose contents are `profile_json`: the
/// name of the preset is the member `PresetName` of the first element of the
/// member `PresetList`.
pub fn decode_profile(full: &str, display_name: &str, profile_json: &str) -> (r: Result<
    ProfileConfigItem,
    DeoProfileError,
>)
    ensures
        profile_result_view(r) == decoded_profile(
            full@,
            display_name@,
            json_member(profile_json@, "PresetList"@, 0, "PresetName"@),
        ),
{
    let member = lookup_json_member(profile_json, "PresetList", 0, "PresetName");
    profile_from_member(full, display_name, member)
}

/// Loads the profile of the file `full` from what reading the file gave: its
/// contents, or the reason why it could not be read.
pub fn load_profile(full: &str, display_name: &str, read: Result<String, String>) -> (r: Result<
    ProfileConfigItem,
    DeoProfileError,
>)
    ensures
        profile_result_view(r) == loaded_profile(full@, display_name@, read_view(read)),
{
    match read {
        Ok(text) => decode_profile(full, display_name, text.as_str()),
        Err(reason) => Err(DeoProfileError::CouldNotReadProfile(FileName::new(full), reason)),
    }
}

/// Collects the profiles found under the directory `dir`. The first profile
/// that could not be loaded fails the whole; with no profile at all, none was
/// found; else the profiles stand in the order given.
pub fn collect_profiles(dir: &str, results: Vec<Result<ProfileConfigItem, DeoProfileError>>) -> (r:
    Result<ProfileConfig, DeoProfileError>)
    ensures
        forall|i: int|
            0 <= i < results@.len() && (#[trigger] results@[i]) is Err && (forall|k: int|
                0 <= k < i ==> results@[k] is Ok) ==> r == Err::<ProfileConfig, DeoProfileError>(
                results@[i]->Err_0,
            ),
        (forall|k: int| 0 <= k < results@.len() ==> results@[k] is Ok) ==> if results@.len() == 0 {
            r matches Err(DeoProfileError::NoProfilesFound(d)) && d@ == dir@
        } else {
            r matches Ok(config) && config@.len() == results@.len() && forall|k: int|
                0 <= k < results@.len() ==> config@[k] == (#[trigger] results@[k])->Ok_0@
        },
{
    let ghost all = results@;
    let mut items: Vec<ProfileConfigItem> = Vec::new();
    for result in it: results
        invariant
            it.seq() == all,
            items@.len() == it.index(),
            forall|k: int|
                0 <= k < it.index() ==> (#[trigger] all[k]) is Ok && items@[k] == all[k]->Ok_0,
    {
        match result {
            Ok(item) => {
                items.push(item);
            },
            Err(e) => {
                return Err(e);
            },
        }
    }
    if items.len() == 0 {
        Err(DeoProfileError::NoProfilesFound(DirName::new(dir)))
    } else {
        Ok(ProfileConfig(items))
    }
}

} // verus!
