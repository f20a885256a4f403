//! Roster snapshot of the running match: who plays, on which team, with
//! which champion, and who the local participant is. Built once per match
//! from data the transport layer hands over, then read by the event
//! classification and the rule engine.

use vstd::prelude::*;
use crate::strutil;

verus! {

/// Status of the in-match data connection.
#[derive(Debug, Clone)]
pub struct LiveClientStatus {
    /// Whether a match is currently in progress.
    pub in_game: bool,
    /// The local player's name, when in a match.
    pub summoner_name: Option<String>,
    /// The local player's champion, when known.
    pub champion_name: Option<String>,
}

/// The local player, as the upstream active-player lookup reports it.
#[derive(Debug, Clone)]
pub struct ActivePlayer {
    /// Name of the local player.
    pub summoner_name: String,
    /// Platform-wide id, when available.
    pub riot_id: Option<String>,
}

/// One participant of the running match.
#[derive(Debug)]
pub struct PlayerInfo {
    /// The participant's name.
    pub summoner_name: String,
    /// The champion the participant plays.
    pub champion_name: String,
    /// The participant's team label.
    pub team: String,
    /// Whether the participant is a bot.
    pub is_bot: bool,
}

impl Clone for PlayerInfo {
    /// A clone is the same participant record.
    fn clone(&self) -> (r: Self)
        ensures
            r == *self,
    {
        PlayerInfo {
            summoner_name: self.summoner_name.clone(),
            champion_name: self.champion_name.clone(),
            team: self.team.clone(),
            is_bot: self.is_bot,
        }
    }
}

/// The first participant of `players` whose name equals `name` exactly.
pub open spec fn lookup_player(players: Seq<PlayerInfo>, name: Seq<char>) -> Option<PlayerInfo>
    decreases players.len(),
{
    if players.len() == 0 {
        None
    } else if players[0].summoner_name@ == name {
        Some(players[0])
    } else {
        lookup_player(players.drop_first(), name)
    }
}

/// Context of the running match, built from the roster snapshot.
#[derive(Debug, Clone)]
pub struct GameContext {
    /// The local player's name.
    pub local_player_name: String,
    /// The local player's team label.
    pub local_player_team: String,
    /// Every participant of the match.
    pub players: Vec<PlayerInfo>,
    /// The match's mode label.
    pub game_mode: String,
    /// The map's name.
    pub map_name: String,
}

impl GameContext {
    /// Builds the context from the values the transport layer fetched: the
    /// local player's name, the full participant list, and the match labels.
    /// The local team is the team of the roster entry carrying the local
    /// name; an absent entry leaves the team empty, and team conditions then
    /// treat every participant as non-matching allies would.
    pub fn assemble(
        local_player_name: String,
        players: Vec<PlayerInfo>,
        game_mode: String,
        map_name: String,
    ) -> (r: Self)
        ensures
            r.local_player_name == local_player_name,
            r.players == players,
            r.game_mode == game_mode,
            r.map_name == map_name,
            r.local_player_team@ == match lookup_player(players@, local_player_name@) {
                Some(p) => p.team@,
                None => Seq::<char>::empty(),
            },
    {
        let local_player_team = match find_player(&players, local_player_name.as_str()) {
            Some(i) => players[i].team.clone(),
            None => String::new(),
        };
        GameContext { local_player_name, local_player_team, players, game_mode, map_name }
    }

    /// Whether the named participant is on the local player's team.
    /// Unknown participants resolve to no team and never match.
    pub fn is_ally(&self, summoner_name: &str) -> (r: bool)
        ensures
            r == match lookup_player(self.players@, summoner_name@) {
                Some(p) => p.team@ == self.local_player_team@,
                None => false,
            },
    {
        match find_player(&self.players, summoner_name) {
            Some(i) => strutil::str_eq(self.players[i].team.as_str(), self.local_player_team.as_str()),
            None => false,
        }
    }

    /// Whether the named participant is on the opposing team.
    /// Unknown participants never match.
    pub fn is_enemy(&self, summoner_name: &str) -> (r: bool)
        ensures
            r == match lookup_player(self.players@, summoner_name@) {
                Some(p) => p.team@ != self.local_player_team@,
                None => false,
            },
    {
        match find_player(&self.players, summoner_name) {
            Some(i) => !strutil::str_eq(
                self.players[i].team.as_str(),
                self.local_player_team.as_str(),
            ),
            None => false,
        }
    }

    /// Whether the name is the local player's, compared exactly: the local
    /// participant is identified once per session and matched case-respecting.
    pub fn is_local_player(&self, summoner_name: &str) -> (r: bool)
        ensures
            r == (summoner_name@ == self.local_player_name@),
    {
        strutil::str_eq(summoner_name, self.local_player_name.as_str())
    }

    /// The named participant's champion, when the roster knows the name.
    pub fn get_champion(&self, summoner_name: &str) -> (r: Option<&str>)
        ensures
            match r {
                Some(c) => lookup_player(self.players@, summoner_name@) is Some && c@
                    == lookup_player(self.players@, summoner_name@)->0.champion_name@,
                None => lookup_player(self.players@, summoner_name@) is None,
            },
    {
        match find_player(&self.players, summoner_name) {
            Some(i) => Some(self.players[i].champion_name.as_str()),
            None => None,
        }
    }
}

/// Index of the first participant with the given name, compared exactly.
pub fn find_player(players: &Vec<PlayerInfo>, name: &str) -> (r: Option<usize>)
    ensures
        match r {
            Some(i) => i < players@.len() && lookup_player(players@, name@) == Some(
                players@[i as int],
            ),
            None => lookup_player(players@, name@) is None,
        },
{
    let n = players.len();
    proof {
        assert(players@.subrange(0, n as int) =~= players@);
    }
    let mut i: usize = 0;
    while i < n
        invariant
            n == players@.len(),
            i <= n,
            lookup_player(players@, name@) == lookup_player(
                players@.subrange(i as int, n as int),
                name@,
            ),
        decreases n - i,
    {
        proof {
            assert(players@.subrange(i as int, n as int).drop_first() =~= players@.subrange(
                i + 1,
                n as int,
            ));
            assert(players@.subrange(i as int, n as int)[0] == players@[i as int]);
        }
        if strutil::str_eq(players[i].summoner_name.as_str(), name) {
            return Some(i);
        }
        i = i + 1;
    }
    None
}

} // verus!
