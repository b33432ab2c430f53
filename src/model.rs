use vstd::prelude::*;

verus! {

/// One track as the streaming service describes it.
#[derive(Debug, Clone, PartialEq, Eq)]
pub struct SongInfo {
    pub id: u32,
    pub name: String,
    pub singer: String,
    pub album: String,
    pub pic_url: String,
    pub duration: String,
    pub song_url: String,
}

/// Summary of a playlist or recommended collection.
#[derive(Debug, Clone, PartialEq, Eq)]
pub struct SongList {
    pub id: u32,
    pub name: String,
    pub cover_img_url: String,
}

/// Outcome of a login request.
#[derive(Debug, Clone, PartialEq, Eq)]
pub struct LoginInfo {
    pub code: i32,
    pub uid: u32,
    pub nickname: String,
    pub vip_type: i32,
    pub avatar_url: String,
    pub msg: String,
}

/// Which queue a track starts playing from.
#[derive(Debug, Clone, Copy, PartialEq, Eq)]
pub enum PlayerTypes {
    Song,
    Fm,
}

} // verus!
