//! Commands that enter something into a matchup, a round or the current
//! match. A reference that does not point at an entity is refused and never stored.

use vstd::prelude::*;
use crate::bracket::stages_of;
use crate::error::StateError;
use crate::invariants::{round_fits, slot_below};
use crate::models::{Division, Gamemode, Match, Matchup, Round, SaveData};
use crate::policy::{in_range, position, refers_into};

verus! {

/// The matchup of a slot; for an empty slot, the neutral matchup.
pub open spec fn entered(slot: Option<Matchup>) -> Matchup {
    match slot {
        Some(matchup) => matchup,
        None => Matchup::neutral(),
    }
}

/// A round with another gamemode chosen. The map stays only if the gamemode
/// is the one that was chosen before; the map of another gamemode means nothing.
pub open spec fn with_gamemode(round: Round, gamemode: Option<usize>) -> Round {
    Round {
        gamemode,
        map: if gamemode is Some && gamemode == round.gamemode {
            round.map
        } else {
            None
        },
        ..round
    }
}

/// A round that gets another gamemode than it had, or none, has no map
/// afterwards; a round that gets the gamemode it had keeps its map.
pub proof fn lemma_other_gamemode_clears_map(round: Round, gamemode: Option<usize>)
    ensures
        gamemode != round.gamemode || gamemode is None ==> with_gamemode(round, gamemode).map is None,
        gamemode == round.gamemode && gamemode is Some ==> with_gamemode(round, gamemode) == round,
{
}

/// Whether `map` can be chosen for a round that has chosen `gamemode`: it is
/// absent, or a map of that gamemode.
pub open spec fn map_choice_fits(
    gamemode: Option<usize>,
    map: Option<usize>,
    gamemodes: Seq<Gamemode>,
) -> bool {
    map matches Some(m) ==> (gamemode matches Some(g) && g < gamemodes.len() && m
        < gamemodes[g as int].maps@.len())
}

impl SaveData {
    /// Whether the bracket has a slot `slot` in its stage `stage`.
    pub open spec fn has_slot(&self, stage: usize, slot: usize) -> bool {
        stage < self.division.bracket@.len() && slot < self.division.bracket@[stage as int]@.len()
    }

    /// Whether `after` is `before` but for one slot of the bracket, which holds `value`.
    pub open spec fn slot_set(
        before: SaveData,
        after: SaveData,
        stage: usize,
        slot: usize,
        value: Option<Matchup>,
    ) -> bool {
        &&& before.has_slot(stage, slot)
        &&& stages_of(after.division.bracket) == stages_of(before.division.bracket).update(
            stage as int,
            before.division.bracket@[stage as int]@.update(slot as int, value),
        )
        &&& after == (SaveData {
            division: Division { bracket: after.division.bracket, ..before.division },
            ..before
        })
    }

    /// Whether `after` is `before` but for one round, which is `value`.
    pub open spec fn round_set(before: SaveData, after: SaveData, round: usize, value: Round) -> bool {
        &&& round < before.current_match.rounds@.len()
        &&& after.current_match.rounds@ == before.current_match.rounds@.update(
            round as int,
            value,
        )
        &&& after == (SaveData {
            current_match: Match {
                rounds: after.current_match.rounds,
                ..before.current_match
            },
            ..before
        })
    }

    /// What is in a slot of the bracket, or `None` if there is no such slot.
    pub fn matchup_at(&self, stage: usize, slot: usize) -> (found: Option<Option<Matchup>>)
        ensures
            self.has_slot(stage, slot) ==> found == Some(
                self.division.bracket@[stage as int]@[slot as int],
            ),
            !self.has_slot(stage, slot) ==> found is None,
    {
        if stage < self.division.bracket.len() && slot < self.division.bracket[stage].len() {
            Some(self.division.bracket[stage][slot])
        } else {
            None
        }
    }

    /// The round at `round`, or `None` if there is no such round.
    pub fn round_at(&self, round: usize) -> (found: Option<Round>)
        ensures
            round < self.current_match.rounds@.len() ==> found == Some(
                self.current_match.rounds@[round as int],
            ),
            round >= self.current_match.rounds@.len() ==> found is None,
    {
        if round < self.current_match.rounds.len() {
            Some(self.current_match.rounds[round])
        } else {
            None
        }
    }

    fn put_slot(&mut self, stage: usize, slot: usize, value: Option<Matchup>)
        requires
            old(self).has_slot(stage, slot),
        ensures
            Self::slot_set(*old(self), *final(self), stage, slot, value),
            slot_below(value, old(self).division.teams@.len()) ==> (old(self).references_valid()
                ==> final(self).references_valid()),
            old(self).sizes_synced() ==> final(self).sizes_synced(),
    {
        self.division.bracket[stage][slot] = value;
        proof {
            let before = stages_of(old(self).division.bracket);
            let after = stages_of(self.division.bracket);
            assert(after =~= before.update(
                stage as int,
                old(self).division.bracket@[stage as int]@.update(slot as int, value),
            ));
            if old(self).bracket_synced() {
                assert forall|i: int| 0 <= i < after.len() implies (#[trigger] after[i]).len()
                    == before[i].len() by {}
            }
            if slot_below(value, old(self).division.teams@.len()) && old(self).team_refs_valid() {
                assert forall|s: int, k: int|
                    0 <= s < self.division.bracket@.len() && 0 <= k
                        < self.division.bracket@[s]@.len() implies slot_below(
                    #[trigger] self.division.bracket@[s]@[k],
                    self.division.teams@.len(),
                ) by {
                    assert(after[s] == self.division.bracket@[s]@);
                    assert(before[s] == old(self).division.bracket@[s]@);
                    if s != stage || k != slot {
                        assert(slot_below(
                            old(self).division.bracket@[s]@[k],
                            old(self).division.teams@.len(),
                        ));
                    }
                }
            }
        }
    }

    fn put_round(&mut self, round: usize, value: Round)
        requires
            round < old(self).current_match.rounds@.len(),
        ensures
            Self::round_set(*old(self), *final(self), round, value),
            round_fits(value, old(self).settings.gamemodes@) ==> (old(self).references_valid()
                ==> final(self).references_valid()),
            old(self).sizes_synced() ==> final(self).sizes_synced(),
    {
        self.current_match.rounds[round] = value;
        proof {
            if round_fits(value, old(self).settings.gamemodes@) && old(self).round_refs_valid() {
                assert forall|r: int| 0 <= r < self.current_match.rounds@.len() implies round_fits(
                    #[trigger] self.current_match.rounds@[r],
                    self.settings.gamemodes@,
                ) by {
                    if r != round {
                        assert(round_fits(
                            old(self).current_match.rounds@[r],
                            old(self).settings.gamemodes@,
                        ));
                    }
                }
            }
        }
    }

    /// What a command answers that enters the team reference `team` into a
    /// slot of the bracket.
    pub open spec fn slot_outcome(&self, stage: usize, slot: usize, team: Option<usize>) -> Result<
        (),
        StateError,
    > {
        if !self.has_slot(stage, slot) {
            Err(StateError::OutOfRange)
        } else if !in_range(position(team), self.division.teams@.len()) {
            Err(StateError::InvalidReference)
        } else {
            Ok(())
        }
    }

    /// Puts `value` into a slot of the bracket: a matchup, or nothing. The
    /// command is refused with `OutOfRange` if there is no such slot, and
    /// else with `InvalidReference` if a team of the matchup does not exist.
    pub fn set_matchup(&mut self, stage: usize, slot: usize, value: Option<Matchup>) -> (result:
        Result<(), StateError>)
        ensures
            !old(self).has_slot(stage, slot) ==> result == Err::<(), StateError>(
                StateError::OutOfRange,
            ),
            old(self).has_slot(stage, slot) && !slot_below(value, old(self).division.teams@.len())
                ==> result == Err::<(), StateError>(StateError::InvalidReference),
            old(self).has_slot(stage, slot) && slot_below(value, old(self).division.teams@.len())
                ==> result == Ok::<(), StateError>(()),
            result is Ok ==> Self::slot_set(*old(self), *final(self), stage, slot, value),
            result is Err ==> *final(self) == *old(self),
            old(self).references_valid() ==> final(self).references_valid(),
            old(self).sizes_synced() ==> final(self).sizes_synced(),
    {
        if self.matchup_at(stage, slot).is_none() {
            return Err(StateError::OutOfRange);
        }
        let teams: usize = self.division.teams.len();
        let fits = match value {
            Some(matchup) => refers_into(matchup.team1, teams) && refers_into(matchup.team2, teams),
            None => true,
        };
        if !fits {
            return Err(StateError::InvalidReference);
        }
        self.put_slot(stage, slot, value);
        Ok(())
    }

    /// Enters the first team of a matchup, or none. The command is refused with
    /// `OutOfRange` if there is no such slot, and else with `InvalidReference`
    /// if there is no such team. An empty slot gets a matchup with nothing else entered.
    pub fn set_matchup_team1(&mut self, stage: usize, slot: usize, team: Option<usize>) -> (result:
        Result<(), StateError>)
        ensures
            result == old(self).slot_outcome(stage, slot, team),
            result is Ok ==> Self::slot_set(
                *old(self),
                *final(self),
                stage,
                slot,
                Some(
                    Matchup {
                        team1: team,
                        ..entered(old(self).division.bracket@[stage as int]@[slot as int])
                    },
                ),
            ),
            result is Err ==> *final(self) == *old(self),
            old(self).references_valid() ==> final(self).references_valid(),
            old(self).sizes_synced() ==> final(self).sizes_synced(),
    {
        match self.matchup_at(stage, slot) {
            None => Err(StateError::OutOfRange),
            Some(found) => {
                if !refers_into(team, self.division.teams.len()) {
                    return Err(StateError::InvalidReference);
                }
                let mut matchup = found.unwrap_or(Matchup::default());
                matchup.team1 = team;
                proof {
                    assert(old(self).references_valid() ==> slot_below(
                        old(self).division.bracket@[stage as int]@[slot as int],
                        old(self).division.teams@.len(),
                    ));
                }
                self.put_slot(stage, slot, Some(matchup));
                Ok(())
            },
        }
    }

    /// Enters the second team of a matchup, or none. The command is refused
    /// with `OutOfRange` if there is no such slot, and else with
    /// `InvalidReference` if there is no such team. An empty slot gets a matchup with nothing else entered.
    pub fn set_matchup_team2(&mut self, stage: usize, slot: usize, team: Option<usize>) -> (result:
        Result<(), StateError>)
        ensures
            result == old(self).slot_outcome(stage, slot, team),
            result is Ok ==> Self::slot_set(
                *old(self),
                *final(self),
                stage,
                slot,
                Some(
                    Matchup {
                        team2: team,
                        ..entered(old(self).division.bracket@[stage as int]@[slot as int])
                    },
                ),
            ),
            result is Err ==> *final(self) == *old(self),
            old(self).references_valid() ==> final(self).references_valid(),
            old(self).sizes_synced() ==> final(self).sizes_synced(),
    {
        match self.matchup_at(stage, slot) {
            None => Err(StateError::OutOfRange),
            Some(found) => {
                if !refers_into(team, self.division.teams.len()) {
                    return Err(StateError::InvalidReference);
                }
                let mut matchup = found.unwrap_or(Matchup::default());
                matchup.team2 = team;
                proof {
                    assert(old(self).references_valid() ==> slot_below(
                        old(self).division.bracket@[stage as int]@[slot as int],
                        old(self).division.teams@.len(),
                    ));
                }
                self.put_slot(stage, slot, Some(matchup));
                Ok(())
            },
        }
    }

    /// Enters the score of the first team of a matchup. An empty slot gets a matchup with nothing else entered.
    pub fn set_matchup_team1_score(&mut self, stage: usize, slot: usize, score: usize) -> (result:
        Result<(), StateError>)
        ensures
            result == old(self).slot_outcome(stage, slot, None),
            result is Ok ==> Self::slot_set(
                *old(self),
                *final(self),
                stage,
                slot,
                Some(
                    Matchup {
                        team1_score: score,
                        ..entered(old(self).division.bracket@[stage as int]@[slot as int])
                    },
                ),
            ),
            result is Err ==> *final(self) == *old(self),
            old(self).references_valid() ==> final(self).references_valid(),
            old(self).sizes_synced() ==> final(self).sizes_synced(),
    {
        match self.matchup_at(stage, slot) {
            None => Err(StateError::OutOfRange),
            Some(found) => {
                let mut matchup = found.unwrap_or(Matchup::default());
                matchup.team1_score = score;
                proof {
                    assert(old(self).references_valid() ==> slot_below(
                        old(self).division.bracket@[stage as int]@[slot as int],
                        old(self).division.teams@.len(),
                    ));
                }
                self.put_slot(stage, slot, Some(matchup));
                Ok(())
            },
        }
    }

    /// Enters the score of the second team of a matchup. An empty slot gets a matchup with nothing else entered.
    pub fn set_matchup_team2_score(&mut self, stage: usize, slot: usize, score: usize) -> (result:
        Result<(), StateError>)
        ensures
            result == old(self).slot_outcome(stage, slot, None),
            result is Ok ==> Self::slot_set(
                *old(self),
                *final(self),
                stage,
                slot,
                Some(
                    Matchup {
                        team2_score: score,
                        ..entered(old(self).division.bracket@[stage as int]@[slot as int])
                    },
                ),
            ),
            result is Err ==> *final(self) == *old(self),
            old(self).references_valid() ==> final(self).references_valid(),
            old(self).sizes_synced() ==> final(self).sizes_synced(),
    {
        match self.matchup_at(stage, slot) {
            None => Err(StateError::OutOfRange),
            Some(found) => {
                let mut matchup = found.unwrap_or(Matchup::default());
                matchup.team2_score = score;
                proof {
                    assert(old(self).references_valid() ==> slot_below(
                        old(self).division.bracket@[stage as int]@[slot as int],
                        old(self).division.teams@.len(),
                    ));
                }
                self.put_slot(stage, slot, Some(matchup));
                Ok(())
            },
        }
    }

    /// Marks a matchup as completed or not. An empty slot gets a matchup with nothing else entered.
    pub fn set_matchup_completed(&mut self, stage: usize, slot: usize, completed: bool) -> (result:
        Result<(), StateError>)
        ensures
            result == old(self).slot_outcome(stage, slot, None),
            result is Ok ==> Self::slot_set(
                *old(self),
                *final(self),
                stage,
                slot,
                Some(
                    Matchup {
                        completed: completed,
                        ..entered(old(self).division.bracket@[stage as int]@[slot as int])
                    },
                ),
            ),
            result is Err ==> *final(self) == *old(self),
            old(self).references_valid() ==> final(self).references_valid(),
            old(self).sizes_synced() ==> final(self).sizes_synced(),
    {
        match self.matchup_at(stage, slot) {
            None => Err(StateError::OutOfRange),
            Some(found) => {
                let mut matchup = found.unwrap_or(Matchup::default());
                matchup.completed = completed;
                proof {
                    assert(old(self).references_valid() ==> slot_below(
                        old(self).division.bracket@[stage as int]@[slot as int],
                        old(self).division.teams@.len(),
                    ));
                }
                self.put_slot(stage, slot, Some(matchup));
                Ok(())
            },
        }
    }

    /// What `set_round_gamemode` answers.
    pub open spec fn round_gamemode_outcome(&self, round: usize, gamemode: Option<usize>) -> Result<
        (),
        StateError,
    > {
        if round >= self.current_match.rounds@.len() {
            Err(StateError::OutOfRange)
        } else if !in_range(position(gamemode), self.settings.gamemodes@.len()) {
            Err(StateError::InvalidReference)
        } else {
            Ok(())
        }
    }

    /// Chooses the gamemode of a round, or none. If the round had chosen
    /// another gamemode, or now has none, its map is cleared.
    pub fn set_round_gamemode(&mut self, round: usize, gamemode: Option<usize>) -> (result: Result<
        (),
        StateError,
    >)
        ensures
            result == old(self).round_gamemode_outcome(round, gamemode),
            result is Ok ==> Self::round_set(
                *old(self),
                *final(self),
                round,
                with_gamemode(old(self).current_match.rounds@[round as int], gamemode),
            ),
            result is Err ==> *final(self) == *old(self),
            old(self).references_valid() ==> final(self).references_valid(),
            old(self).sizes_synced() ==> final(self).sizes_synced(),
    {
        match self.round_at(round) {
            None => Err(StateError::OutOfRange),
            Some(found) => {
                if !refers_into(gamemode, self.settings.gamemodes.len()) {
                    return Err(StateError::InvalidReference);
                }
                let same = match (gamemode, found.gamemode) {
                    (Some(new), Some(chosen)) => new == chosen,
                    _ => false,
                };
                let value = Round {
                    gamemode,
                    map: if same {
                        found.map
                    } else {
                        None
                    },
                    team1_score: found.team1_score,
                    team2_score: found.team2_score,
                    completed: found.completed,
                };
                proof {
                    assert(old(self).references_valid() ==> round_fits(
                        old(self).current_match.rounds@[round as int],
                        old(self).settings.gamemodes@,
                    ));
                }
                self.put_round(round, value);
                Ok(())
            },
        }
    }

    /// What `set_round_map` answers.
    pub open spec fn round_map_outcome(&self, round: usize, map: Option<usize>) -> Result<
        (),
        StateError,
    > {
        if round >= self.current_match.rounds@.len() {
            Err(StateError::OutOfRange)
        } else if !map_choice_fits(
            self.current_match.rounds@[round as int].gamemode,
            map,
            self.settings.gamemodes@,
        ) {
            Err(StateError::InvalidReference)
        } else {
            Ok(())
        }
    }

    /// Chooses the map of a round, or none. A map can only be chosen among
    /// the maps of the gamemode that the round has chosen.
    pub fn set_round_map(&mut self, round: usize, map: Option<usize>) -> (result: Result<
        (),
        StateError,
    >)
        ensures
            result == old(self).round_map_outcome(round, map),
            result is Ok ==> Self::round_set(
                *old(self),
                *final(self),
                round,
                Round { map, ..old(self).current_match.rounds@[round as int] },
            ),
            result is Err ==> *final(self) == *old(self),
            old(self).references_valid() ==> final(self).references_valid(),
            old(self).sizes_synced() ==> final(self).sizes_synced(),
    {
        match self.round_at(round) {
            None => Err(StateError::OutOfRange),
            Some(found) => {
                let fits = match map {
                    None => true,
                    Some(m) => match found.gamemode {
                        None => false,
                        Some(g) => match self.settings.gamemodes.get(g) {
                            None => false,
                            Some(gamemode) => m < gamemode.maps.len(),
                        },
                    },
                };
                if !fits {
                    return Err(StateError::InvalidReference);
                }
                let value = Round {
                    gamemode: found.gamemode,
                    map,
                    team1_score: found.team1_score,
                    team2_score: found.team2_score,
                    completed: found.completed,
                };
                proof {
                    assert(old(self).references_valid() ==> round_fits(
                        old(self).current_match.rounds@[round as int],
                        old(self).settings.gamemodes@,
                    ));
                }
                self.put_round(round, value);
                Ok(())
            },
        }
    }

    /// Enters the score of the first team in a round.
    pub fn set_round_team1_score(&mut self, round: usize, score: usize) -> (result: Result<
        (),
        StateError,
    >)
        ensures
            round < old(self).current_match.rounds@.len() ==> {
                &&& result == Ok::<(), StateError>(())
                &&& Self::round_set(
                    *old(self),
                    *final(self),
                    round,
                    Round { team1_score: score, ..old(self).current_match.rounds@[round as int] },
                )
            },
            round >= old(self).current_match.rounds@.len() ==> {
                &&& result == Err::<(), StateError>(StateError::OutOfRange)
                &&& *final(self) == *old(self)
            },
            old(self).references_valid() ==> final(self).references_valid(),
            old(self).sizes_synced() ==> final(self).sizes_synced(),
    {
        match self.round_at(round) {
            None => Err(StateError::OutOfRange),
            Some(found) => {
                let mut value = found;
                value.team1_score = score;
                proof {
                    assert(old(self).references_valid() ==> round_fits(
                        old(self).current_match.rounds@[round as int],
                        old(self).settings.gamemodes@,
                    ));
                }
                self.put_round(round, value);
                Ok(())
            },
        }
    }

    /// Enters the score of the second team in a round.
    pub fn set_round_team2_score(&mut self, round: usize, score: usize) -> (result: Result<
        (),
        StateError,
    >)
        ensures
            round < old(self).current_match.rounds@.len() ==> {
                &&& result == Ok::<(), StateError>(())
                &&& Self::round_set(
                    *old(self),
                    *final(self),
                    round,
                    Round { team2_score: score, ..old(self).current_match.rounds@[round as int] },
                )
            },
            round >= old(self).current_match.rounds@.len() ==> {
                &&& result == Err::<(), StateError>(StateError::OutOfRange)
                &&& *final(self) == *old(self)
            },
            old(self).references_valid() ==> final(self).references_valid(),
            old(self).sizes_synced() ==> final(self).sizes_synced(),
    {
        match self.round_at(round) {
            None => Err(StateError::OutOfRange),
            Some(found) => {
                let mut value = found;
                value.team2_score = score;
                proof {
                    assert(old(self).references_valid() ==> round_fits(
                        old(self).current_match.rounds@[round as int],
                        old(self).settings.gamemodes@,
                    ));
                }
                self.put_round(round, value);
                Ok(())
            },
        }
    }

    /// Marks a round as completed or not.
    pub fn set_round_completed(&mut self, round: usize, completed: bool) -> (result: Result<
        (),
        StateError,
    >)
        ensures
            round < old(self).current_match.rounds@.len() ==> {
                &&& result == Ok::<(), StateError>(())
                &&& Self::round_set(
                    *old(self),
                    *final(self),
                    round,
                    Round { completed: completed, ..old(self).current_match.rounds@[round as int] },
                )
            },
            round >= old(self).current_match.rounds@.len() ==> {
                &&& result == Err::<(), StateError>(StateError::OutOfRange)
                &&& *final(self) == *old(self)
            },
            old(self).references_valid() ==> final(self).references_valid(),
            old(self).sizes_synced() ==> final(self).sizes_synced(),
    {
        match self.round_at(round) {
            None => Err(StateError::OutOfRange),
            Some(found) => {
                let mut value = found;
                value.completed = completed;
                proof {
                    assert(old(self).references_valid() ==> round_fits(
                        old(self).current_match.rounds@[round as int],
                        old(self).settings.gamemodes@,
                    ));
                }
                self.put_round(round, value);
                Ok(())
            },
        }
    }

    /// Chooses the first team of the current match, or none. The command is refused with `InvalidReference` if there is no
    /// such team.
    pub fn set_match_team1(&mut self, team: Option<usize>) -> (result: Result<(), StateError>)
        ensures
            in_range(position(team), old(self).division.teams@.len()) ==> {
                &&& result == Ok::<(), StateError>(())
                &&& *final(self) == (SaveData {
                    current_match: Match { team1: team, ..old(self).current_match },
                    ..*old(self)
                })
            },
            !in_range(position(team), old(self).division.teams@.len()) ==> {
                &&& result == Err::<(), StateError>(StateError::InvalidReference)
                &&& *final(self) == *old(self)
            },
            old(self).references_valid() ==> final(self).references_valid(),
            old(self).sizes_synced() ==> final(self).sizes_synced(),
    {
        if !refers_into(team, self.division.teams.len()) {
            return Err(StateError::InvalidReference);
        }
        self.current_match.team1 = team;
        Ok(())
    }

    /// Chooses the second team of the current match, or none. The command is refused with `InvalidReference` if there is no
    /// such team.
    pub fn set_match_team2(&mut self, team: Option<usize>) -> (result: Result<(), StateError>)
        ensures
            in_range(position(team), old(self).division.teams@.len()) ==> {
                &&& result == Ok::<(), StateError>(())
                &&& *final(self) == (SaveData {
                    current_match: Match { team2: team, ..old(self).current_match },
                    ..*old(self)
                })
            },
            !in_range(position(team), old(self).division.teams@.len()) ==> {
                &&& result == Err::<(), StateError>(StateError::InvalidReference)
                &&& *final(self) == *old(self)
            },
            old(self).references_valid() ==> final(self).references_valid(),
            old(self).sizes_synced() ==> final(self).sizes_synced(),
    {
        if !refers_into(team, self.division.teams.len()) {
            return Err(StateError::InvalidReference);
        }
        self.current_match.team2 = team;
        Ok(())
    }

    /// Says whether the overlay shows the two teams the other way round.
    pub fn set_swap_scoreboard(&mut self, swap: bool)
        ensures
            *final(self) == (SaveData {
                current_match: Match { swap_scoreboard: swap, ..old(self).current_match },
                ..*old(self)
            }),
            old(self).references_valid() ==> final(self).references_valid(),
            old(self).sizes_synced() ==> final(self).sizes_synced(),
    {
        self.current_match.swap_scoreboard = swap;
    }
}

} // verus!
