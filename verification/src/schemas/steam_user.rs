//! The answer of `ISteamUser/GetPlayerSummaries`.

use vstd::prelude::*;

verus! {

#[derive(Debug)]
pub struct PlayerResponse {
    pub response: Players,
}

#[derive(Debug)]
pub struct Players {
    pub players: Vec<SteamUserSummary>,
}

#[derive(Debug)]
pub struct SteamUserSummary {
    pub steamid: String,
    pub personaname: String,
    pub avatar: String,
}

} // verus!
