//! Commands on the players of one team.

use vstd::prelude::*;
use crate::error::StateError;
use crate::invariants::player_fits;
use crate::models::{Division, Player, SaveData};
use crate::policy::{appended, moved};
use crate::store::EntityStore;

verus! {

impl SaveData {
    /// Whether `after` is `before` but for the players of the team at
    /// `team`, which are `players`.
    pub open spec fn team_players_set(
        before: SaveData,
        after: SaveData,
        team: usize,
        players: Seq<Player>,
    ) -> bool {
        &&& team < before.division.teams@.len()
        &&& after.division.teams@ == before.division.teams@.update(
            team as int,
            after.division.teams@[team as int],
        )
        &&& after.division.teams@[team as int].name == before.division.teams@[team as int].name
        &&& after.division.teams@[team as int].icon == before.division.teams@[team as int].icon
        &&& after.division.teams@[team as int].players@ == players
        &&& after == (SaveData {
            division: Division { teams: after.division.teams, ..before.division },
            ..before
        })
    }

    /// Adds a new, neutral player behind all others of the team at `team` and
    /// returns the player's position.
    pub fn add_player(&mut self, team: usize) -> (result: Result<usize, StateError>)
        ensures
            team < old(self).division.teams@.len() ==> {
                &&& result == Ok::<usize, StateError>(
                    old(self).division.teams@[team as int].players@.len() as usize,
                )
                &&& appended(
                    old(self).division.teams@[team as int].players@,
                    final(self).division.teams@[team as int].players@,
                )
                &&& final(self).division.teams@[team as int].players@.last().is_neutral()
                &&& Self::team_players_set(
                    *old(self),
                    *final(self),
                    team,
                    final(self).division.teams@[team as int].players@,
                )
            },
            team >= old(self).division.teams@.len() ==> {
                &&& result == Err::<usize, StateError>(StateError::OutOfRange)
                &&& *final(self) == *old(self)
            },
            old(self).references_valid() ==> final(self).references_valid(),
            old(self).sizes_synced() ==> final(self).sizes_synced(),
    {
        if team >= self.division.teams.len() {
            return Err(StateError::OutOfRange);
        }
        let ghost players = self.division.teams@[team as int].players@;
        let index = self.division.teams.get_mut(team).players.append(Player::default());
        proof {
            assert(self.division.teams@[team as int].players@.drop_last() =~= players);
            Self::lemma_players_set_keeps_consistency(*old(self), *self, team);
        }
        Ok(index)
    }

    /// Removes the player at `index` of the team at `team` and returns the player.
    pub fn remove_player_at(&mut self, team: usize, index: usize) -> (result: Result<
        Player,
        StateError,
    >)
        ensures
            Self::has_player(*old(self), team, index) ==> {
                &&& result == Ok::<Player, StateError>(
                    old(self).division.teams@[team as int].players@[index as int],
                )
                &&& Self::team_players_set(
                    *old(self),
                    *final(self),
                    team,
                    old(self).division.teams@[team as int].players@.remove(index as int),
                )
            },
            !Self::has_player(*old(self), team, index) ==> {
                &&& result == Err::<Player, StateError>(StateError::OutOfRange)
                &&& *final(self) == *old(self)
            },
            old(self).references_valid() ==> final(self).references_valid(),
            old(self).sizes_synced() ==> final(self).sizes_synced(),
    {
        if !self.player_exists(team, index) {
            return Err(StateError::OutOfRange);
        }
        let result = self.division.teams.get_mut(team).players.remove_at(index);
        proof {
            Self::lemma_players_set_keeps_consistency(*old(self), *self, team);
        }
        result
    }

    /// Whether there is a team at `team` with a player at `index`.
    pub open spec fn has_player(before: SaveData, team: usize, index: usize) -> bool {
        team < before.division.teams@.len() && index
            < before.division.teams@[team as int].players@.len()
    }

    /// Whether there is a team at `team` with a player at `index`.
    pub fn player_exists(&self, team: usize, index: usize) -> (exists: bool)
        ensures
            exists == Self::has_player(*self, team, index),
    {
        match self.division.teams.get(team) {
            Some(found) => index < found.players.len(),
            None => false,
        }
    }

    /// Moves the player at `index` of the team at `team` by `delta` positions
    /// and returns the player's new position.
    pub fn move_player(&mut self, team: usize, index: usize, delta: i32) -> (result: Result<
        usize,
        StateError,
    >)
        ensures
            Self::can_move_player(*old(self), team, index, delta) ==> {
                &&& result matches Ok(new_index)
                &&& new_index == index + delta
                &&& Self::team_players_set(
                    *old(self),
                    *final(self),
                    team,
                    moved(
                        old(self).division.teams@[team as int].players@,
                        index as int,
                        index + delta,
                    ),
                )
            },
            !Self::can_move_player(*old(self), team, index, delta) ==> {
                &&& result == Err::<usize, StateError>(StateError::OutOfRange)
                &&& *final(self) == *old(self)
            },
            old(self).references_valid() ==> final(self).references_valid(),
            old(self).sizes_synced() ==> final(self).sizes_synced(),
    {
        let movable = match self.division.teams.get(team) {
            Some(found) => found.players.movable(index, delta),
            None => false,
        };
        if !movable {
            return Err(StateError::OutOfRange);
        }
        let result = self.division.teams.get_mut(team).players.move_by(index, delta);
        proof {
            Self::lemma_players_set_keeps_consistency(*old(self), *self, team);
        }
        result
    }

    /// Whether there is a team at `team` whose player at `index` can move by `delta`.
    pub open spec fn can_move_player(before: SaveData, team: usize, index: usize, delta: i32) -> bool {
        team < before.division.teams@.len() && EntityStore::<Player>::can_move(
            before.division.teams@[team as int].players@.len(),
            index,
            delta,
        )
    }

    /// Puts `player` in the place of the player at `index` of the team at
    /// `team`. The command is refused with `OutOfRange` if there is no such
    /// player, and else with `InvalidReference` if `player` has a role or a
    /// character that does not exist.
    pub fn replace_player_at(&mut self, team: usize, index: usize, player: Player) -> (result:
        Result<(), StateError>)
        ensures
            result == Self::replace_player_outcome(*old(self), team, index, player),
            result is Ok ==> Self::team_players_set(
                *old(self),
                *final(self),
                team,
                old(self).division.teams@[team as int].players@.update(index as int, player),
            ),
            result is Err ==> *final(self) == *old(self),
            old(self).references_valid() ==> final(self).references_valid(),
            old(self).sizes_synced() ==> final(self).sizes_synced(),
    {
        if !self.player_exists(team, index) {
            return Err(StateError::OutOfRange);
        }
        if !player.fits(self.settings.roles.len(), self.settings.characters.len()) {
            return Err(StateError::InvalidReference);
        }
        let result = self.division.teams.get_mut(team).players.replace_at(index, player);
        proof {
            Self::lemma_players_set_keeps_consistency(*old(self), *self, team);
        }
        result
    }

    /// What `replace_player_at` answers.
    pub open spec fn replace_player_outcome(
        before: SaveData,
        team: usize,
        index: usize,
        player: Player,
    ) -> Result<(), StateError> {
        if team >= before.division.teams@.len() || index
            >= before.division.teams@[team as int].players@.len() {
            Err(StateError::OutOfRange)
        } else if !player_fits(
            player,
            before.settings.roles@.len(),
            before.settings.characters@.len(),
        ) {
            Err(StateError::InvalidReference)
        } else {
            Ok(())
        }
    }

    /// A change of one team's players keeps the state as it must be if the
    /// new players refer only to roles and characters that exist.
    pub proof fn lemma_players_set_keeps_consistency(before: SaveData, after: SaveData, team: usize)
        requires
            Self::team_players_set(
                before,
                after,
                team,
                after.division.teams@[team as int].players@,
            ),
            before.player_refs_valid() ==> forall|p: int|
                0 <= p < after.division.teams@[team as int].players@.len() ==> player_fits(
                    #[trigger] after.division.teams@[team as int].players@[p],
                    before.settings.roles@.len(),
                    before.settings.characters@.len(),
                ),
        ensures
            before.references_valid() ==> after.references_valid(),
            before.sizes_synced() ==> after.sizes_synced(),
    {
        before.settings.roles.lemma_len_fits();
        before.settings.characters.lemma_len_fits();
        if before.references_valid() {
            assert forall|t: int, p: int|
                0 <= t < after.division.teams@.len() && 0 <= p
                    < after.division.teams@[t].players@.len() implies player_fits(
                #[trigger] after.division.teams@[t].players@[p],
                after.settings.roles@.len(),
                after.settings.characters@.len(),
            ) by {
                if t != team {
                    assert(after.division.teams@[t] == before.division.teams@[t]);
                }
            }
        }
    }
}

} // verus!
