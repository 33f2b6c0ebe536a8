//! Commands on the teams of the division.

use vstd::prelude::*;
use crate::corrector::CorrectionTarget;
use crate::edits::lemma_edit_keeps_consistency;
use crate::error::StateError;
use crate::invariants::team_fits;
use crate::models::{Division, SaveData, Team};
use crate::policy::{appended, ListEdit};
use crate::store::EntityStore;

verus! {

impl SaveData {
    /// Adds a new team behind all others and returns its position. The team
    /// is the neutral one: it is given its name and players by later commands.
    pub fn add_team(&mut self) -> (index: usize)
        ensures
            index == old(self).division.teams@.len(),
            appended(old(self).division.teams@, final(self).division.teams@),
            final(self).division.teams@[index as int].is_neutral(),
            *final(self) == (SaveData {
                division: Division { teams: final(self).division.teams, ..old(self).division },
                ..*old(self)
            }),
            old(self).references_valid() ==> final(self).references_valid(),
            old(self).sizes_synced() ==> final(self).sizes_synced(),
    {
        let index = self.division.teams.append(Team::default());
        proof {
            assert(self.division.teams@.drop_last() =~= old(self).division.teams@);
        }
        index
    }

    /// Removes the team at `index` and returns it. Every reference to it
    /// becomes absent, and every reference to a later team follows that team
    /// down by one.
    pub fn remove_team_at(&mut self, index: usize) -> (result: Result<Team, StateError>)
        ensures
            index < old(self).division.teams@.len() ==> {
                &&& result == Ok::<Team, StateError>(old(self).division.teams@[index as int])
                &&& Self::collection_edited(
                    *old(self),
                    *final(self),
                    CorrectionTarget::Teams,
                    ListEdit::Removed(index),
                )
            },
            index >= old(self).division.teams@.len() ==> {
                &&& result == Err::<Team, StateError>(StateError::OutOfRange)
                &&& *final(self) == *old(self)
            },
            old(self).references_valid() ==> final(self).references_valid(),
            old(self).sizes_synced() ==> final(self).sizes_synced(),
    {
        match self.division.teams.remove_at(index) {
            Err(error) => Err(error),
            Ok(team) => {
                let edit = ListEdit::Removed(index);
                self.correct_bracket(edit);
                proof {
                    lemma_edit_keeps_consistency(*old(self), *self, CorrectionTarget::Teams, edit);
                }
                Ok(team)
            },
        }
    }

    /// Moves the team at `index` by `delta` positions and returns its new
    /// position. Every reference to a team follows that team.
    pub fn move_team(&mut self, index: usize, delta: i32) -> (result: Result<usize, StateError>)
        ensures
            EntityStore::<Team>::can_move(old(self).division.teams@.len(), index, delta) ==> {
                &&& result matches Ok(new_index)
                &&& new_index == index + delta
                &&& Self::collection_edited(
                    *old(self),
                    *final(self),
                    CorrectionTarget::Teams,
                    ListEdit::Moved(index, new_index),
                )
            },
            !EntityStore::<Team>::can_move(old(self).division.teams@.len(), index, delta) ==> {
                &&& result == Err::<usize, StateError>(StateError::OutOfRange)
                &&& *final(self) == *old(self)
            },
            old(self).references_valid() ==> final(self).references_valid(),
            old(self).sizes_synced() ==> final(self).sizes_synced(),
    {
        match self.division.teams.move_by(index, delta) {
            Err(error) => Err(error),
            Ok(new_index) => {
                let edit = ListEdit::Moved(index, new_index);
                self.correct_bracket(edit);
                proof {
                    lemma_edit_keeps_consistency(*old(self), *self, CorrectionTarget::Teams, edit);
                }
                Ok(new_index)
            },
        }
    }

    /// Puts `team` in the place of the team at `index`. The command is
    /// refused with `OutOfRange` if there is no such team, and else with
    /// `InvalidReference` if a player of `team` has a role or a character
    /// that does not exist.
    pub fn replace_team_at(&mut self, index: usize, team: Team) -> (result: Result<(), StateError>)
        ensures
            result == Self::replace_team_outcome(*old(self), index, team),
            result is Ok ==> {
                &&& final(self).division.teams@ == old(self).division.teams@.update(
                    index as int,
                    team,
                )
                &&& *final(self) == (SaveData {
                    division: Division {
                        teams: final(self).division.teams,
                        ..old(self).division
                    },
                    ..*old(self)
                })
            },
            result is Err ==> *final(self) == *old(self),
            old(self).references_valid() ==> final(self).references_valid(),
            old(self).sizes_synced() ==> final(self).sizes_synced(),
    {
        if index >= self.division.teams.len() {
            return Err(StateError::OutOfRange);
        }
        if !team.fits(self.settings.roles.len(), self.settings.characters.len()) {
            return Err(StateError::InvalidReference);
        }
        self.division.teams.replace_at(index, team)
    }

    /// What `replace_team_at` answers.
    pub open spec fn replace_team_outcome(before: SaveData, index: usize, team: Team) -> Result<
        (),
        StateError,
    > {
        if index >= before.division.teams@.len() {
            Err(StateError::OutOfRange)
        } else if !team_fits(
            team,
            before.settings.roles@.len(),
            before.settings.characters@.len(),
        ) {
            Err(StateError::InvalidReference)
        } else {
            Ok(())
        }
    }
}

} // verus!
