use vstd::prelude::*;
use crate::model::{LoginInfo, PlayerTypes, SongInfo, SongList};

verus! {

/// A state-transition request from a producer to the dispatcher.
///
/// Each variant carries exactly the payload its handler needs. A command is
/// built once, consumed once by the dispatcher, and never changed.
#[derive(Debug, PartialEq, Eq)]
pub enum Command {
    SwitchStackMain,
    /// Open the sub-view of a playlist: id, name and image path.
    SwitchStackSub((u32, String, String)),
    SwitchHeaderBar(String),
    RefreshHeaderUser,
    RefreshHeaderUserLogin(LoginInfo),
    RefreshHeaderUserLogout,
    RefreshHome,
    /// Top playlists and recommended resources for the home view.
    RefreshHomeView(Vec<SongList>, Vec<SongList>),
    /// Name and image path for the top half of the sub-view.
    RefreshSubUpView(String, String),
    RefreshSubLowView(Vec<SongInfo>),
    RefreshFoundViewInit(u8),
    RefreshFoundView(Vec<SongInfo>),
    RefreshMine,
    MineHideAll,
    MineShowFm,
    RefreshMineViewInit(i32),
    RefreshMineView(Vec<SongInfo>, String),
    RefreshMineFm(SongInfo),
    RefreshMineSidebar(Vec<SongList>),
    PlayerFm,
    FmLike,
    FmDislike,
    RefreshMineFmPlayerList,
    CancelCollection,
    Search(String),
    PlayerInit(SongInfo, PlayerTypes),
    /// A track and its resolved stream locator.
    Player(SongInfo, String),
    PlayerSubpages,
    PlayerFound,
    PlayerMine,
    /// User name and password.
    Login(String, String),
    Logout,
    ShowNotice(String),
    DailyTask,
}

} // verus!
