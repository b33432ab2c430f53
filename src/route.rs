use vstd::prelude::*;
use crate::command::Command;
use crate::model::{LoginInfo, PlayerTypes, SongInfo, SongList};

verus! {

/// An update method of the navigation and view surface.
#[derive(Debug, Clone, PartialEq, Eq)]
pub enum ViewCall {
    SwitchStackMain,
    SwitchStackSub(u32, String, String),
    UpdateHome,
    UpdateHomeView(Vec<SongList>, Vec<SongList>),
    UpdateSubUpView(String, String),
    UpdateSubLowView(Vec<SongInfo>),
    UpdateFoundViewData(u8),
    UpdateFoundView(Vec<SongInfo>),
    MineInit,
    MineHideAll,
    MineShowFm,
    UpdateMineViewData(i32),
    UpdateMineView(Vec<SongInfo>, String),
    UpdateMineFm(SongInfo),
    UpdateMineSidebar(Vec<SongList>),
    RefreshFmPlayerList,
    PlayFm,
    LikeFm,
    DislikeFm,
    CancelCollection,
    SwitchStackSearch(String),
    PlaySubpages,
    PlayFound,
    PlayMine,
}

/// An update method of the header and session surface.
#[derive(Debug, Clone, PartialEq, Eq)]
pub enum HeaderCall {
    SwitchHeader(String),
    UpdateUserButton,
    UpdateUserLogin(LoginInfo),
    UpdateUserLogout,
    Login(String, String),
    Logout,
    DailyTask,
}

/// A method of the player surface.
#[derive(Debug, Clone, PartialEq, Eq)]
pub enum PlayerCall {
    Forward,
    InitializePlayer(SongInfo, PlayerTypes),
    Play(SongInfo, String),
}

/// One handler invocation on one downstream surface.
#[derive(Debug, Clone, PartialEq, Eq)]
pub enum Call {
    View(ViewCall),
    Header(HeaderCall),
    Player(PlayerCall),
    /// Destroy the notification that currently occupies the overlay.
    DestroyNotice(String),
    /// Build a notification with this text and show it on the overlay.
    ShowNotice(String),
}

pub open spec fn view_call(v: ViewCall) -> Seq<Call> {
    seq![Call::View(v)]
}

pub open spec fn header_call(h: HeaderCall) -> Seq<Call> {
    seq![Call::Header(h)]
}

/// The routing table: the handler invocations that apply a command, in order.
///
/// Every command has exactly one entry. All but one map to a single call;
/// disliking the radio track first skips it in the player, then records the
/// dislike in the view.
pub open spec fn plan(c: Command) -> Seq<Call> {
    match c {
        Command::SwitchStackMain => view_call(ViewCall::SwitchStackMain),
        Command::SwitchStackSub(t) => view_call(ViewCall::SwitchStackSub(t.0, t.1, t.2)),
        Command::SwitchHeaderBar(title) => header_call(HeaderCall::SwitchHeader(title)),
        Command::RefreshHeaderUser => header_call(HeaderCall::UpdateUserButton),
        Command::RefreshHeaderUserLogin(info) => header_call(HeaderCall::UpdateUserLogin(info)),
        Command::RefreshHeaderUserLogout => header_call(HeaderCall::UpdateUserLogout),
        Command::RefreshHome => view_call(ViewCall::UpdateHome),
        Command::RefreshHomeView(tsl, rr) => view_call(ViewCall::UpdateHomeView(tsl, rr)),
        Command::RefreshSubUpView(name, image_path) => view_call(
            ViewCall::UpdateSubUpView(name, image_path),
        ),
        Command::RefreshSubLowView(songs) => view_call(ViewCall::UpdateSubLowView(songs)),
        Command::RefreshFoundViewInit(id) => view_call(ViewCall::UpdateFoundViewData(id)),
        Command::RefreshFoundView(songs) => view_call(ViewCall::UpdateFoundView(songs)),
        Command::RefreshMine => view_call(ViewCall::MineInit),
        Command::MineHideAll => view_call(ViewCall::MineHideAll),
        Command::MineShowFm => view_call(ViewCall::MineShowFm),
        Command::RefreshMineViewInit(id) => view_call(ViewCall::UpdateMineViewData(id)),
        Command::RefreshMineView(songs, title) => view_call(ViewCall::UpdateMineView(songs, title)),
        Command::RefreshMineFm(si) => view_call(ViewCall::UpdateMineFm(si)),
        Command::RefreshMineSidebar(lists) => view_call(ViewCall::UpdateMineSidebar(lists)),
        Command::PlayerFm => view_call(ViewCall::PlayFm),
        Command::FmLike => view_call(ViewCall::LikeFm),
        Command::FmDislike => seq![
            Call::Player(PlayerCall::Forward),
            Call::View(ViewCall::DislikeFm),
        ],
        Command::RefreshMineFmPlayerList => view_call(ViewCall::RefreshFmPlayerList),
        Command::CancelCollection => view_call(ViewCall::CancelCollection),
        Command::Search(text) => view_call(ViewCall::SwitchStackSearch(text)),
        Command::PlayerInit(info, pt) => seq![Call::Player(PlayerCall::InitializePlayer(info, pt))],
        Command::Player(info, url) => seq![Call::Player(PlayerCall::Play(info, url))],
        Command::PlayerSubpages => view_call(ViewCall::PlaySubpages),
        Command::PlayerFound => view_call(ViewCall::PlayFound),
        Command::PlayerMine => view_call(ViewCall::PlayMine),
        Command::Login(name, pass) => header_call(HeaderCall::Login(name, pass)),
        Command::Logout => header_call(HeaderCall::Logout),
        Command::ShowNotice(text) => seq![Call::ShowNotice(text)],
        Command::DailyTask => header_call(HeaderCall::DailyTask),
    }
}

/// Every command has a handler, and every command but the radio dislike has
/// exactly one, on exactly one surface.
pub proof fn lemma_one_handler_per_command(c: Command)
    ensures
        plan(c).len() >= 1,
        !(c is FmDislike) ==> plan(c).len() == 1,
        c is FmDislike ==> plan(c).len() == 2,
{
}

fn single(c: Call) -> (r: Vec<Call>)
    ensures
        r@ == seq![c],
{
    let mut r: Vec<Call> = Vec::new();
    r.push(c);
    r
}

fn view(v: ViewCall) -> (r: Vec<Call>)
    ensures
        r@ == view_call(v),
{
    single(Call::View(v))
}

fn header(h: HeaderCall) -> (r: Vec<Call>)
    ensures
        r@ == header_call(h),
{
    single(Call::Header(h))
}

/// Turns a command into the handler invocations that apply it.
pub fn route(c: Command) -> (r: Vec<Call>)
    ensures
        r@ == plan(c),
{
    match c {
        Command::SwitchStackMain => view(ViewCall::SwitchStackMain),
        Command::SwitchStackSub((id, name, image_path)) => view(
            ViewCall::SwitchStackSub(id, name, image_path),
        ),
        Command::SwitchHeaderBar(title) => header(HeaderCall::SwitchHeader(title)),
        Command::RefreshHeaderUser => header(HeaderCall::UpdateUserButton),
        Command::RefreshHeaderUserLogin(info) => header(HeaderCall::UpdateUserLogin(info)),
        Command::RefreshHeaderUserLogout => header(HeaderCall::UpdateUserLogout),
        Command::RefreshHome => view(ViewCall::UpdateHome),
        Command::RefreshHomeView(tsl, rr) => view(ViewCall::UpdateHomeView(tsl, rr)),
        Command::RefreshSubUpView(name, image_path) => view(
            ViewCall::UpdateSubUpView(name, image_path),
        ),
        Command::RefreshSubLowView(songs) => view(ViewCall::UpdateSubLowView(songs)),
        Command::RefreshFoundViewInit(id) => view(ViewCall::UpdateFoundViewData(id)),
        Command::RefreshFoundView(songs) => view(ViewCall::UpdateFoundView(songs)),
        Command::RefreshMine => view(ViewCall::MineInit),
        Command::MineHideAll => view(ViewCall::MineHideAll),
        Command::MineShowFm => view(ViewCall::MineShowFm),
        Command::RefreshMineViewInit(id) => view(ViewCall::UpdateMineViewData(id)),
        Command::RefreshMineView(songs, title) => view(ViewCall::UpdateMineView(songs, title)),
        Command::RefreshMineFm(si) => view(ViewCall::UpdateMineFm(si)),
        Command::RefreshMineSidebar(lists) => view(ViewCall::UpdateMineSidebar(lists)),
        Command::PlayerFm => view(ViewCall::PlayFm),
        Command::FmLike => view(ViewCall::LikeFm),
        Command::FmDislike => {
            let mut r = single(Call::Player(PlayerCall::Forward));
            r.push(Call::View(ViewCall::DislikeFm));
            r
        },
        Command::RefreshMineFmPlayerList => view(ViewCall::RefreshFmPlayerList),
        Command::CancelCollection => view(ViewCall::CancelCollection),
        Command::Search(text) => view(ViewCall::SwitchStackSearch(text)),
        Command::PlayerInit(info, pt) => single(Call::Player(PlayerCall::InitializePlayer(info, pt))),
        Command::Player(info, url) => single(Call::Player(PlayerCall::Play(info, url))),
        Command::PlayerSubpages => view(ViewCall::PlaySubpages),
        Command::PlayerFound => view(ViewCall::PlayFound),
        Command::PlayerMine => view(ViewCall::PlayMine),
        Command::Login(name, pass) => header(HeaderCall::Login(name, pass)),
        Command::Logout => header(HeaderCall::Logout),
        Command::ShowNotice(text) => single(Call::ShowNotice(text)),
        Command::DailyTask => header(HeaderCall::DailyTask),
    }
}

} // verus!
