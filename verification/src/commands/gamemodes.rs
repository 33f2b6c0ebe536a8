//! Commands on the gamemodes and on the maps of one gamemode.

use vstd::prelude::*;
use crate::corrector::{correct_round_gamemodes, correct_round_maps, CorrectionTarget};
use crate::edits::lemma_edit_keeps_consistency;
use crate::error::StateError;
use crate::invariants::round_fits;
use crate::models::{GameMap, Gamemode, Match, Round, SaveData, Settings};
use crate::policy::{appended, ListEdit};
use crate::store::EntityStore;

verus! {

/// A round after the gamemode at `gamemode` got a list of `maps` maps in
/// place of the one it had: a round that has chosen this gamemode and a map
/// that the new list does not have loses its map.
pub open spec fn refitted_round(round: Round, gamemode: usize, maps: nat) -> Round {
    if round.gamemode == Some(gamemode) && (round.map matches Some(m) && m >= maps) {
        Round { map: None, ..round }
    } else {
        round
    }
}

/// Clears the map of every round that has chosen the gamemode at `gamemode`
/// and a map that is not among the first `maps`.
pub fn refit_round_maps(rounds: &mut Vec<Round>, gamemode: usize, maps: usize)
    ensures
        final(rounds)@ == old(rounds)@.map_values(
            |round: Round| refitted_round(round, gamemode, maps as nat),
        ),
{
    let ghost before = rounds@;
    let round_count: usize = rounds.len();
    let mut r: usize = 0;
    while r < round_count
        invariant
            r <= round_count,
            rounds@.len() == round_count,
            before.len() == round_count,
            forall|i: int|
                0 <= i < r ==> (#[trigger] rounds@[i]) == refitted_round(
                    before[i],
                    gamemode,
                    maps as nat,
                ),
            forall|i: int| r <= i < round_count ==> (#[trigger] rounds@[i]) == before[i],
        decreases round_count - r,
    {
        let round = rounds[r];
        let chosen = match round.gamemode {
            Some(g) => g == gamemode,
            None => false,
        };
        let missing = match round.map {
            Some(m) => m >= maps,
            None => false,
        };
        if chosen && missing {
            rounds[r].map = None;
        }
        r = r + 1;
    }
    assert(rounds@ =~= before.map_values(
        |round: Round| refitted_round(round, gamemode, maps as nat),
    ));
}

impl SaveData {
    /// Adds a new, neutral gamemode behind all others and returns its position.
    pub fn add_gamemode(&mut self) -> (index: usize)
        ensures
            index == old(self).settings.gamemodes@.len(),
            appended(old(self).settings.gamemodes@, final(self).settings.gamemodes@),
            final(self).settings.gamemodes@[index as int].is_neutral(),
            *final(self) == (SaveData {
                settings: Settings {
                    gamemodes: final(self).settings.gamemodes,
                    ..old(self).settings
                },
                ..*old(self)
            }),
            old(self).references_valid() ==> final(self).references_valid(),
            old(self).sizes_synced() ==> final(self).sizes_synced(),
    {
        let index = self.settings.gamemodes.append(Gamemode::default());
        proof {
            assert(self.settings.gamemodes@.drop_last() =~= old(self).settings.gamemodes@);
            if old(self).round_refs_valid() {
                assert forall|r: int| 0 <= r < self.current_match.rounds@.len() implies round_fits(
                    #[trigger] self.current_match.rounds@[r],
                    self.settings.gamemodes@,
                ) by {
                    assert(round_fits(
                        old(self).current_match.rounds@[r],
                        old(self).settings.gamemodes@,
                    ));
                }
            }
        }
        index
    }

    /// Removes the gamemode at `index` and returns it. Every round that had
    /// chosen it has no gamemode and no map afterwards, and every reference
    /// to a later gamemode follows that gamemode down by one.
    pub fn remove_gamemode_at(&mut self, index: usize) -> (result: Result<Gamemode, StateError>)
        ensures
            index < old(self).settings.gamemodes@.len() ==> {
                &&& result == Ok::<Gamemode, StateError>(
                    old(self).settings.gamemodes@[index as int],
                )
                &&& Self::collection_edited(
                    *old(self),
                    *final(self),
                    CorrectionTarget::Gamemodes,
                    ListEdit::Removed(index),
                )
            },
            index >= old(self).settings.gamemodes@.len() ==> {
                &&& result == Err::<Gamemode, StateError>(StateError::OutOfRange)
                &&& *final(self) == *old(self)
            },
            old(self).references_valid() ==> final(self).references_valid(),
            old(self).sizes_synced() ==> final(self).sizes_synced(),
    {
        match self.settings.gamemodes.remove_at(index) {
            Err(error) => Err(error),
            Ok(removed) => {
                let edit = ListEdit::Removed(index);
                correct_round_gamemodes(&mut self.current_match.rounds, edit);
                proof {
                    lemma_edit_keeps_consistency(
                        *old(self),
                        *self,
                        CorrectionTarget::Gamemodes,
                        edit,
                    );
                }
                Ok(removed)
            },
        }
    }

    /// Moves the gamemode at `index` by `delta` positions and returns its
    /// new position. Every round follows the gamemode it had chosen, and
    /// keeps its map.
    pub fn move_gamemode(&mut self, index: usize, delta: i32) -> (result: Result<usize, StateError>)
        ensures
            EntityStore::<Gamemode>::can_move(old(self).settings.gamemodes@.len(), index, delta)
                ==> {
                &&& result matches Ok(new_index)
                &&& new_index == index + delta
                &&& Self::collection_edited(
                    *old(self),
                    *final(self),
                    CorrectionTarget::Gamemodes,
                    ListEdit::Moved(index, new_index),
                )
            },
            !EntityStore::<Gamemode>::can_move(old(self).settings.gamemodes@.len(), index, delta)
                ==> {
                &&& result == Err::<usize, StateError>(StateError::OutOfRange)
                &&& *final(self) == *old(self)
            },
            old(self).references_valid() ==> final(self).references_valid(),
            old(self).sizes_synced() ==> final(self).sizes_synced(),
    {
        match self.settings.gamemodes.move_by(index, delta) {
            Err(error) => Err(error),
            Ok(new_index) => {
                let edit = ListEdit::Moved(index, new_index);
                correct_round_gamemodes(&mut self.current_match.rounds, edit);
                proof {
                    lemma_edit_keeps_consistency(
                        *old(self),
                        *self,
                        CorrectionTarget::Gamemodes,
                        edit,
                    );
                }
                Ok(new_index)
            },
        }
    }

    /// Puts `gamemode` in the place of the gamemode at `index`. The rounds
    /// that had chosen the gamemode at `index` keep it; such a round keeps
    /// its map too if `gamemode` has a map at that position, and loses it if not.
    pub fn replace_gamemode_at(&mut self, index: usize, gamemode: Gamemode) -> (result: Result<
        (),
        StateError,
    >)
        ensures
            index < old(self).settings.gamemodes@.len() ==> {
                &&& result == Ok::<(), StateError>(())
                &&& final(self).settings.gamemodes@ == old(self).settings.gamemodes@.update(
                    index as int,
                    gamemode,
                )
                &&& final(self).current_match.rounds@ == old(self).current_match.rounds@.map_values(
                    |round: Round| refitted_round(round, index, gamemode.maps@.len()),
                )
                &&& *final(self) == (SaveData {
                    settings: Settings {
                        gamemodes: final(self).settings.gamemodes,
                        ..old(self).settings
                    },
                    current_match: Match {
                        rounds: final(self).current_match.rounds,
                        ..old(self).current_match
                    },
                    ..*old(self)
                })
            },
            index >= old(self).settings.gamemodes@.len() ==> {
                &&& result == Err::<(), StateError>(StateError::OutOfRange)
                &&& *final(self) == *old(self)
            },
            old(self).references_valid() ==> final(self).references_valid(),
            old(self).sizes_synced() ==> final(self).sizes_synced(),
    {
        if index >= self.settings.gamemodes.len() {
            return Err(StateError::OutOfRange);
        }
        let maps: usize = gamemode.maps.len();
        let result = self.settings.gamemodes.replace_at(index, gamemode);
        refit_round_maps(&mut self.current_match.rounds, index, maps);
        proof {
            if old(self).round_refs_valid() {
                assert forall|r: int| 0 <= r < self.current_match.rounds@.len() implies round_fits(
                    #[trigger] self.current_match.rounds@[r],
                    self.settings.gamemodes@,
                ) by {
                    assert(round_fits(
                        old(self).current_match.rounds@[r],
                        old(self).settings.gamemodes@,
                    ));
                }
            }
        }
        result
    }

    /// Whether `after` is `before` but for the maps of the gamemode at
    /// `gamemode`, which are `maps`.
    pub open spec fn gamemode_maps_set(
        before: SaveData,
        after: SaveData,
        gamemode: usize,
        maps: Seq<GameMap>,
    ) -> bool {
        &&& gamemode < before.settings.gamemodes@.len()
        &&& after.settings.gamemodes@ == before.settings.gamemodes@.update(
            gamemode as int,
            after.settings.gamemodes@[gamemode as int],
        )
        &&& after.settings.gamemodes@[gamemode as int].name
            == before.settings.gamemodes@[gamemode as int].name
        &&& after.settings.gamemodes@[gamemode as int].icon
            == before.settings.gamemodes@[gamemode as int].icon
        &&& after.settings.gamemodes@[gamemode as int].maps@ == maps
        &&& after == (SaveData {
            settings: Settings { gamemodes: after.settings.gamemodes, ..before.settings },
            ..before
        })
    }

    /// Whether there is a gamemode at `gamemode` with a map at `index`.
    pub open spec fn has_map(before: SaveData, gamemode: usize, index: usize) -> bool {
        gamemode < before.settings.gamemodes@.len() && index
            < before.settings.gamemodes@[gamemode as int].maps@.len()
    }

    /// Whether there is a gamemode at `gamemode` with a map at `index`.
    pub fn map_exists(&self, gamemode: usize, index: usize) -> (exists: bool)
        ensures
            exists == Self::has_map(*self, gamemode, index),
    {
        match self.settings.gamemodes.get(gamemode) {
            Some(found) => index < found.maps.len(),
            None => false,
        }
    }

    /// Whether there is a gamemode at `gamemode` whose map at `index` can
    /// move by `delta`.
    pub open spec fn can_move_map(before: SaveData, gamemode: usize, index: usize, delta: i32) -> bool {
        gamemode < before.settings.gamemodes@.len() && EntityStore::<GameMap>::can_move(
            before.settings.gamemodes@[gamemode as int].maps@.len(),
            index,
            delta,
        )
    }

    /// Adds a new, neutral map behind all others of the gamemode at
    /// `gamemode` and returns the map's position.
    pub fn add_map(&mut self, gamemode: usize) -> (result: Result<usize, StateError>)
        ensures
            gamemode < old(self).settings.gamemodes@.len() ==> {
                &&& result matches Ok(index)
                &&& index == old(self).settings.gamemodes@[gamemode as int].maps@.len()
                &&& appended(
                    old(self).settings.gamemodes@[gamemode as int].maps@,
                    final(self).settings.gamemodes@[gamemode as int].maps@,
                )
                &&& final(self).settings.gamemodes@[gamemode as int].maps@.last().is_neutral()
                &&& Self::gamemode_maps_set(
                    *old(self),
                    *final(self),
                    gamemode,
                    final(self).settings.gamemodes@[gamemode as int].maps@,
                )
            },
            gamemode >= old(self).settings.gamemodes@.len() ==> {
                &&& result == Err::<usize, StateError>(StateError::OutOfRange)
                &&& *final(self) == *old(self)
            },
            old(self).references_valid() ==> final(self).references_valid(),
            old(self).sizes_synced() ==> final(self).sizes_synced(),
    {
        if gamemode >= self.settings.gamemodes.len() {
            return Err(StateError::OutOfRange);
        }
        let ghost maps = self.settings.gamemodes@[gamemode as int].maps@;
        let index = self.settings.gamemodes.get_mut(gamemode).maps.append(GameMap::default());
        proof {
            assert(self.settings.gamemodes@[gamemode as int].maps@.drop_last() =~= maps);
            Self::lemma_more_maps_keep_round_refs(*old(self), *self, gamemode);
        }
        Ok(index)
    }

    /// Removes the map at `index` of the gamemode at `gamemode` and returns
    /// it. Every round that had chosen this gamemode and this map has no map
    /// afterwards; one that had chosen a later map of this gamemode follows
    /// that map down by one. No other round changes.
    pub fn remove_map_at(&mut self, gamemode: usize, index: usize) -> (result: Result<
        GameMap,
        StateError,
    >)
        ensures
            Self::has_map(*old(self), gamemode, index) ==> {
                &&& result == Ok::<GameMap, StateError>(
                    old(self).settings.gamemodes@[gamemode as int].maps@[index as int],
                )
                &&& Self::collection_edited(
                    *old(self),
                    *final(self),
                    CorrectionTarget::Maps(gamemode),
                    ListEdit::Removed(index),
                )
            },
            !Self::has_map(*old(self), gamemode, index) ==> {
                &&& result == Err::<GameMap, StateError>(StateError::OutOfRange)
                &&& *final(self) == *old(self)
            },
            old(self).references_valid() ==> final(self).references_valid(),
            old(self).sizes_synced() ==> final(self).sizes_synced(),
    {
        if !self.map_exists(gamemode, index) {
            return Err(StateError::OutOfRange);
        }
        let result = self.settings.gamemodes.get_mut(gamemode).maps.remove_at(index);
        let edit = ListEdit::Removed(index);
        correct_round_maps(&mut self.current_match.rounds, gamemode, edit);
        proof {
            lemma_edit_keeps_consistency(
                *old(self),
                *self,
                CorrectionTarget::Maps(gamemode),
                edit,
            );
        }
        result
    }

    /// Moves the map at `index` of the gamemode at `gamemode` by `delta`
    /// positions and returns its new position. Every round that had chosen
    /// this gamemode follows the map it had chosen.
    pub fn move_map(&mut self, gamemode: usize, index: usize, delta: i32) -> (result: Result<
        usize,
        StateError,
    >)
        ensures
            Self::can_move_map(*old(self), gamemode, index, delta) ==> {
                &&& result matches Ok(new_index)
                &&& new_index == index + delta
                &&& Self::collection_edited(
                    *old(self),
                    *final(self),
                    CorrectionTarget::Maps(gamemode),
                    ListEdit::Moved(index, new_index),
                )
            },
            !Self::can_move_map(*old(self), gamemode, index, delta) ==> {
                &&& result == Err::<usize, StateError>(StateError::OutOfRange)
                &&& *final(self) == *old(self)
            },
            old(self).references_valid() ==> final(self).references_valid(),
            old(self).sizes_synced() ==> final(self).sizes_synced(),
    {
        let movable = match self.settings.gamemodes.get(gamemode) {
            Some(found) => found.maps.movable(index, delta),
            None => false,
        };
        if !movable {
            return Err(StateError::OutOfRange);
        }
        match self.settings.gamemodes.get_mut(gamemode).maps.move_by(index, delta) {
            Err(error) => Err(error),
            Ok(new_index) => {
                let edit = ListEdit::Moved(index, new_index);
                correct_round_maps(&mut self.current_match.rounds, gamemode, edit);
                proof {
                    lemma_edit_keeps_consistency(
                        *old(self),
                        *self,
                        CorrectionTarget::Maps(gamemode),
                        edit,
                    );
                }
                Ok(new_index)
            },
        }
    }

    /// Puts `map` in the place of the map at `index` of the gamemode at
    /// `gamemode`. The rounds that had chosen the map at `index` keep it.
    pub fn replace_map_at(&mut self, gamemode: usize, index: usize, map: GameMap) -> (result:
        Result<(), StateError>)
        ensures
            Self::has_map(*old(self), gamemode, index) ==> {
                &&& result == Ok::<(), StateError>(())
                &&& Self::gamemode_maps_set(
                    *old(self),
                    *final(self),
                    gamemode,
                    old(self).settings.gamemodes@[gamemode as int].maps@.update(index as int, map),
                )
            },
            !Self::has_map(*old(self), gamemode, index) ==> {
                &&& result == Err::<(), StateError>(StateError::OutOfRange)
                &&& *final(self) == *old(self)
            },
            old(self).references_valid() ==> final(self).references_valid(),
            old(self).sizes_synced() ==> final(self).sizes_synced(),
    {
        if !self.map_exists(gamemode, index) {
            return Err(StateError::OutOfRange);
        }
        let result = self.settings.gamemodes.get_mut(gamemode).maps.replace_at(index, map);
        proof {
            Self::lemma_more_maps_keep_round_refs(*old(self), *self, gamemode);
        }
        result
    }

    /// Rounds that fitted the gamemodes still do when one gamemode has got
    /// other maps, but no fewer, and nothing else has changed.
    pub proof fn lemma_more_maps_keep_round_refs(before: SaveData, after: SaveData, gamemode: usize)
        requires
            Self::gamemode_maps_set(
                before,
                after,
                gamemode,
                after.settings.gamemodes@[gamemode as int].maps@,
            ),
            before.settings.gamemodes@[gamemode as int].maps@.len()
                <= after.settings.gamemodes@[gamemode as int].maps@.len(),
        ensures
            before.references_valid() ==> after.references_valid(),
            before.sizes_synced() ==> after.sizes_synced(),
    {
        if before.round_refs_valid() {
            assert forall|r: int| 0 <= r < after.current_match.rounds@.len() implies round_fits(
                #[trigger] after.current_match.rounds@[r],
                after.settings.gamemodes@,
            ) by {
                assert(round_fits(before.current_match.rounds@[r], before.settings.gamemodes@));
            }
        }
    }
}

} // verus!
