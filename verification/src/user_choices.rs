//! The decisions of the dialogue with the user: what is offered, and what
//! follows from each answer.

use crate::models::SessionToEncodeDir;
use crate::profiles::ProfileConfig;
use crate::profiles::ProfileSelection;
use crate::profiles::ProfileSelectionView;
use crate::seqs::views;
use crate::user_selection::ContinueType;
use crate::user_selection::UserSelection;
use crate::user_selection::UserSelectionView;
use vstd::prelude::*;

verus! {

/// How the dialogue with the user ended.
#[derive(Debug, PartialEq, Eq)]
pub enum Interaction {
    ProceedToEncode(Vec<UserSelection>),
    NoFilesToEncode,
    CancelEncode,
    InteractionError(String),
}

/// What comes after the user has gone through the sessions.
#[derive(Debug, PartialEq, Eq)]
pub enum NextStep {
    /// The user is asked whether to encode these selections.
    Confirm(Vec<UserSelection>),
    /// The dialogue has ended.
    Finished(Interaction),
}

/// The choices offered for each session: every profile, then to skip.
pub fn profile_options(profiles: &ProfileConfig) -> (r: Vec<ProfileSelection>)
    ensures
        r@.len() == profiles@.len() + 1,
        forall|i: int|
            0 <= i < profiles@.len() ==> (#[trigger] r@[i])@ == ProfileSelectionView::Select(
                profiles@[i],
            ),
        r@[profiles@.len() as int] == ProfileSelection::Skip,
{
    let items = profiles.items();
    let mut out: Vec<ProfileSelection> = Vec::new();
    let mut i: usize = 0;
    while i < items.len()
        invariant
            i <= items@.len(),
            views(items@) == profiles@,
            out@.len() == i,
            forall|k: int|
                0 <= k < i ==> (#[trigger] out@[k])@ == ProfileSelectionView::Select(profiles@[k]),
        decreases items@.len() - i,
    {
        assert(views(items@)[i as int] == items@[i as int]@);
        out.push(ProfileSelection::Select(items[i].clone()));
        i = i + 1;
    }
    assert(views(items@).len() == items@.len());
    out.push(ProfileSelection::Skip);
    out
}

/// The option that the user picked: the one at the position answered. An
/// answer that failed is handed on, and a position beyond the options is
/// refused.
pub fn picked_option<T>(options: &[T], answer: Result<usize, String>) -> (r: Result<&T, String>)
    ensures
        match answer {
            Ok(index) => if index < options@.len() {
                r matches Ok(option) && *option == options@[index as int]
            } else {
                r matches Err(reason) && reason@ == "Invalid selection index"@
            },
            Err(reason) => r == Err::<&T, String>(reason),
        },
{
    match answer {
        Ok(index) => {
            if index < options.len() {
                Ok(&options[index])
            } else {
                Err("Invalid selection index".to_owned())
            }
        },
        Err(reason) => Err(reason),
    }
}

/// What the choice made for a session amounts to: the selection of the
/// session with the chosen profile, or nothing where the session is skipped.
pub fn selection_of(sed: SessionToEncodeDir, choice: &ProfileSelection) -> (r: Option<UserSelection>)
    ensures
        match *choice {
            ProfileSelection::Select(profile) => r matches Some(selection) && selection@ == (
            UserSelectionView {
                session_id: sed@.session_id,
                session_to_encode_dir: sed@,
                profile: profile@,
            }) && selection.is_tv_series() == (sed is TVSeriesMapping),
            ProfileSelection::Skip => r is None,
        },
{
    match choice {
        ProfileSelection::Select(profile) => Some(
            UserSelection::new(sed.session_id(), sed, profile.clone()),
        ),
        ProfileSelection::Skip => None,
    }
}

/// What follows once every session was offered: with nothing selected there
/// is nothing to encode, else the user is asked to confirm.
pub fn after_selecting(selections: Vec<UserSelection>) -> (r: NextStep)
    ensures
        r == if selections@.len() == 0 {
            NextStep::Finished(Interaction::NoFilesToEncode)
        } else {
            NextStep::Confirm(selections)
        },
{
    if selections.len() == 0 {
        NextStep::Finished(Interaction::NoFilesToEncode)
    } else {
        NextStep::Confirm(selections)
    }
}

/// How the dialogue ends on the answer to the question whether to encode the
/// selections.
pub fn confirmed(selections: Vec<UserSelection>, answer: Result<ContinueType, String>) -> (r:
    Interaction)
    ensures
        r == match answer {
            Ok(ContinueType::EncodeSelection) => Interaction::ProceedToEncode(selections),
            Ok(ContinueType::Cancel) => Interaction::CancelEncode,
            Err(reason) => Interaction::InteractionError(reason),
        },
{
    match answer {
        Ok(ContinueType::EncodeSelection) => Interaction::ProceedToEncode(selections),
        Ok(ContinueType::Cancel) => Interaction::CancelEncode,
        Err(reason) => Interaction::InteractionError(reason),
    }
}

} // verus!
