//! Boundary input values from the game-telemetry feed.
//!
//! These are consumed, never produced, by the core: a boundary deserializer
//! has already parsed and validated them. The core reads them as plain
//! values; only `team_from_str` carries logic, the classification of the
//! feed's winner marker.

use vstd::prelude::*;

use crate::ids::{MatchId, PlayerId, Username};
use crate::rows::Timestamp;

verus! {

/// A player as reported by the platform: current display name and stable
/// platform identifier.
#[derive(Debug)]
pub struct Player {
    pub username: Username,
    pub game_user_id: PlayerId,
}

impl Clone for Player {
    fn clone(&self) -> (result: Self)
        ensures
            result == *self,
    {
        Player { username: self.username.clone(), game_user_id: self.game_user_id.clone() }
    }
}

/// The game mode a match was played in.
#[derive(Debug, Clone, Copy, PartialEq, Eq, Structural)]
pub enum Mode {
    Hockey,
    Pond,
    Dodgepuck,
    Tag,
}

/// The side a player was on.
#[derive(Debug, Clone, Copy, PartialEq, Eq, Structural)]
pub enum Team {
    Home,
    Away,
}

/// Final score of a match.
#[derive(Debug, Clone, Copy, PartialEq, Eq, Structural)]
pub struct Score {
    pub away: u8,
    pub home: u8,
}

/// Per-player statistics of one match. The feed reports none yet.
#[derive(Debug, Clone, Copy, PartialEq, Eq, Structural)]
pub struct PlayerStats {}

/// One participant of a match.
#[derive(Debug)]
pub struct MatchPlayer {
    pub player: Player,
    pub team: Team,
    pub stats: PlayerStats,
}

/// Statistics of a completed match.
#[derive(Debug)]
pub struct MatchStats {
    pub winner: Option<Team>,
    pub score: Score,
    pub players: Vec<MatchPlayer>,
}

/// A completed game session as reported by the platform.
#[derive(Debug)]
pub struct Match {
    pub id: MatchId,
    pub created: Timestamp,
    pub mode: Mode,
    pub game_stats: Option<MatchStats>,
}

/// A player together with their recent matches.
#[derive(Debug)]
pub struct RecentHistory {
    pub player: Player,
    pub match_history: Vec<Match>,
}

/// Classifies the feed's winner marker: the feed writes a team name or the
/// word for "no winner". Returns the parsed marker, or nothing when the
/// text is not a recognized marker.
pub fn team_from_str(value: &str) -> (result: Option<Option<Team>>)
    ensures
        value@ == "none"@ ==> result == Some(Option::<Team>::None),
        value@ == "home"@ ==> result == Some(Some(Team::Home)),
        value@ == "away"@ ==> result == Some(Some(Team::Away)),
        result is None <==> (value@ != "none"@ && value@ != "home"@ && value@ != "away"@),
{
    proof {
        reveal_strlit("none");
        reveal_strlit("home");
        reveal_strlit("away");
        assert("none"@[0] == 'n');
        assert("home"@[0] == 'h');
        assert("away"@[0] == 'a');
        assert("none"@ != "home"@);
        assert("none"@ != "away"@);
        assert("home"@ != "away"@);
    }
    let v: String = value.to_owned();
    if v == "none".to_owned() {
        Some(None)
    } else if v == "home".to_owned() {
        Some(Some(Team::Home))
    } else if v == "away".to_owned() {
        Some(Some(Team::Away))
    } else {
        None
    }
}

} // verus!
