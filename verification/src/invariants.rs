//! What must hold of the state after every command.
//!
//! Every reference is absent or points into the collection it refers to, the
//! current match has as many rounds as the settings ask for, and the bracket
//! has as many stages as the settings ask for, each of the right size.

use vstd::prelude::*;
use crate::models::{Gamemode, Matchup, Player, Round, SaveData, Team};
use crate::policy::{in_range, position, refers_into};

verus! {

/// Whether both team references of a slot, if it holds a matchup, are absent
/// or below `bound`.
pub open spec fn slot_below(slot: Option<Matchup>, bound: nat) -> bool {
    slot matches Some(matchup) ==> in_range(position(matchup.team1), bound) && in_range(
        position(matchup.team2),
        bound,
    )
}

/// Whether the role and the character of a player are absent or below the bounds.
pub open spec fn player_fits(player: Player, roles: nat, characters: nat) -> bool {
    in_range(position(player.role), roles) && in_range(position(player.character), characters)
}

/// Whether the players of a team refer only to roles and characters that exist.
pub open spec fn team_fits(team: Team, roles: nat, characters: nat) -> bool {
    forall|p: int|
        0 <= p < team.players@.len() ==> player_fits(#[trigger] team.players@[p], roles, characters)
}

/// Whether a round fits the gamemodes: its gamemode is absent or one of them,
/// and its map is absent or one of the maps of that gamemode. A round without
/// a gamemode has no map.
pub open spec fn round_fits(round: Round, gamemodes: Seq<Gamemode>) -> bool {
    match round.gamemode {
        None => round.map is None,
        Some(g) => g < gamemodes.len() && in_range(position(round.map), gamemodes[g as int].maps@.len()),
    }
}

/// Whether every team reference in a bracket is absent or below `bound`.
pub open spec fn bracket_below(bracket: Vec<Vec<Option<Matchup>>>, bound: nat) -> bool {
    forall|s: int, k: int|
        0 <= s < bracket@.len() && 0 <= k < bracket@[s]@.len() ==> slot_below(
            #[trigger] bracket@[s]@[k],
            bound,
        )
}

/// Whether the role and the character of every player of every team are
/// absent or below the bounds.
pub open spec fn players_fit(teams: Seq<Team>, roles: nat, characters: nat) -> bool {
    forall|t: int, p: int|
        0 <= t < teams.len() && 0 <= p < teams[t].players@.len() ==> player_fits(
            #[trigger] teams[t].players@[p],
            roles,
            characters,
        )
}

/// Whether every round fits the gamemodes.
pub open spec fn rounds_fit(rounds: Seq<Round>, gamemodes: Seq<Gamemode>) -> bool {
    forall|r: int| 0 <= r < rounds.len() ==> round_fits(#[trigger] rounds[r], gamemodes)
}

impl SaveData {
    /// Whether every team reference, in the bracket and in the current match,
    /// is absent or below `bound`.
    pub open spec fn team_refs_below(&self, bound: nat) -> bool {
        &&& bracket_below(self.division.bracket, bound)
        &&& in_range(position(self.current_match.team1), bound)
        &&& in_range(position(self.current_match.team2), bound)
    }

    /// Whether every team reference is absent or points at a team.
    pub open spec fn team_refs_valid(&self) -> bool {
        self.team_refs_below(self.division.teams@.len())
    }

    /// Whether the role and the character of every player are absent or point
    /// at a role and at a character.
    pub open spec fn player_refs_valid(&self) -> bool {
        players_fit(
            self.division.teams@,
            self.settings.roles@.len(),
            self.settings.characters@.len(),
        )
    }

    /// Whether every round of the current match fits the gamemodes.
    pub open spec fn round_refs_valid(&self) -> bool {
        rounds_fit(self.current_match.rounds@, self.settings.gamemodes@)
    }

    /// Whether every reference in the state is absent or points at an entity.
    pub open spec fn references_valid(&self) -> bool {
        &&& self.team_refs_valid()
        &&& self.player_refs_valid()
        &&& self.round_refs_valid()
    }

    /// Whether the rounds and the bracket are as long as the settings ask for.
    pub open spec fn sizes_synced(&self) -> bool {
        &&& self.rounds_synced()
        &&& self.bracket_synced()
    }

    /// Whether the state is as it must be after every command.
    pub open spec fn consistent(&self) -> bool {
        &&& self.references_valid()
        &&& self.sizes_synced()
    }
}

impl Player {
    /// Whether the role and the character are absent or among the first
    /// `roles` roles and the first `characters` characters.
    pub fn fits(&self, roles: usize, characters: usize) -> (fits: bool)
        ensures
            fits == player_fits(*self, roles as nat, characters as nat),
    {
        refers_into(self.role, roles) && refers_into(self.character, characters)
    }
}

impl Team {
    /// Whether every player fits, as `Player::fits` says.
    pub fn fits(&self, roles: usize, characters: usize) -> (fits: bool)
        ensures
            fits == team_fits(*self, roles as nat, characters as nat),
    {
        let players = self.players.list();
        let mut p: usize = 0;
        while p < players.len()
            invariant
                p <= players@.len(),
                players@ == self.players@,
                forall|i: int|
                    0 <= i < p ==> player_fits(
                        #[trigger] self.players@[i],
                        roles as nat,
                        characters as nat,
                    ),
            decreases players@.len() - p,
        {
            if !players[p].fits(roles, characters) {
                return false;
            }
            p = p + 1;
        }
        true
    }
}

} // verus!
