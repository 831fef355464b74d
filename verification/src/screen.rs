//! Screens of the UI and the main-menu entries.
use vstd::prelude::*;

verus! {

#[derive(Clone, Copy, PartialEq, Eq, Structural, Debug, Hash)]
pub enum Screen {
    MainMenu,
    Settings,
    SyncGeneralSettings,
    RepoManager,
    RemoveRepos,
    TdGeneralSettings,
    TimeDoctorSettings,
    ContractPeriods,
    SyncProgress,
    TimeDoctorReport,
    UpdateProgress,
}

/// Number of screens that show a selectable list.
pub const LIST_SCREEN_COUNT: usize = 8;

/// Slot of a list screen's selection, for the screens that show a list.
pub open spec fn spec_list_slot(screen: Screen) -> Option<int> {
    match screen {
        Screen::MainMenu => Some(0),
        Screen::Settings => Some(1),
        Screen::SyncGeneralSettings => Some(2),
        Screen::RepoManager => Some(3),
        Screen::RemoveRepos => Some(4),
        Screen::TdGeneralSettings => Some(5),
        Screen::TimeDoctorSettings => Some(6),
        Screen::ContractPeriods => Some(7),
        _ => None,
    }
}

pub fn list_slot(screen: Screen) -> (r: Option<usize>)
    ensures
        r matches Some(i) ==> spec_list_slot(screen) == Some(i as int) && i < LIST_SCREEN_COUNT,
        r is None <==> spec_list_slot(screen) is None,
{
    match screen {
        Screen::MainMenu => Some(0),
        Screen::Settings => Some(1),
        Screen::SyncGeneralSettings => Some(2),
        Screen::RepoManager => Some(3),
        Screen::RemoveRepos => Some(4),
        Screen::TdGeneralSettings => Some(5),
        Screen::TimeDoctorSettings => Some(6),
        Screen::ContractPeriods => Some(7),
        _ => None,
    }
}

#[derive(Clone, Copy, PartialEq, Eq, Structural, Debug)]
pub enum MainMenuKind {
    Sync,
    TimeDoctor,
    Update,
    Settings,
    Exit,
}

pub struct MainMenuItem {
    pub kind: MainMenuKind,
    pub name: String,
    pub desc: String,
}

impl Clone for MainMenuItem {
    fn clone(&self) -> (r: Self)
        ensures
            r == *self,
    {
        MainMenuItem { kind: self.kind, name: self.name.clone(), desc: self.desc.clone() }
    }
}

} // verus!
