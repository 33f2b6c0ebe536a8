//! Checking at run time that a state is as it must be. A state that was
//! built by hand or read from a document need not be; a state that only the
//! commands have changed since it was stays so.

use vstd::prelude::*;
use crate::bracket::{bracket_shaped, checked_two_to_the, stage_size, stages_of};
use crate::invariants::{
    bracket_below, player_fits, players_fit, round_fits, rounds_fit, slot_below,
};
use crate::models::{Gamemode, Matchup, Round, SaveData, Team};
use crate::policy::refers_into;
use crate::store::EntityStore;

verus! {

/// Whether every team reference in a bracket is absent or below `bound`.
pub fn bracket_refers_below(bracket: &Vec<Vec<Option<Matchup>>>, bound: usize) -> (valid: bool)
    ensures
        valid == bracket_below(*bracket, bound as nat),
{
    let mut s: usize = 0;
    while s < bracket.len()
        invariant
            s <= bracket@.len(),
            forall|i: int, k: int|
                0 <= i < s && 0 <= k < bracket@[i]@.len() ==> slot_below(
                    #[trigger] bracket@[i]@[k],
                    bound as nat,
                ),
        decreases bracket@.len() - s,
    {
        let stage = &bracket[s];
        let mut k: usize = 0;
        while k < stage.len()
            invariant
                s < bracket@.len(),
                stage@ == bracket@[s as int]@,
                k <= stage@.len(),
                forall|j: int| 0 <= j < k ==> slot_below(#[trigger] bracket@[s as int]@[j], bound as nat),
            decreases stage@.len() - k,
        {
            let fits = match stage[k] {
                Some(matchup) => refers_into(matchup.team1, bound) && refers_into(
                    matchup.team2,
                    bound,
                ),
                None => true,
            };
            if !fits {
                assert(!slot_below(bracket@[s as int]@[k as int], bound as nat));
                return false;
            }
            k = k + 1;
        }
        s = s + 1;
    }
    true
}

/// Whether the players of every team refer only to roles and characters
/// among the first `roles` roles and the first `characters` characters.
pub fn teams_fit(teams: &EntityStore<Team>, roles: usize, characters: usize) -> (valid: bool)
    ensures
        valid == players_fit(teams@, roles as nat, characters as nat),
{
    let list = teams.list();
    let mut t: usize = 0;
    while t < list.len()
        invariant
            t <= list@.len(),
            list@ == teams@,
            forall|i: int, p: int|
                0 <= i < t && 0 <= p < teams@[i].players@.len() ==> player_fits(
                    #[trigger] teams@[i].players@[p],
                    roles as nat,
                    characters as nat,
                ),
        decreases list@.len() - t,
    {
        if !list[t].fits(roles, characters) {
            return false;
        }
        t = t + 1;
    }
    true
}

/// Whether a round fits the gamemodes.
pub fn round_is_fit(round: &Round, gamemodes: &EntityStore<Gamemode>) -> (valid: bool)
    ensures
        valid == round_fits(*round, gamemodes@),
{
    match round.gamemode {
        None => round.map.is_none(),
        Some(g) => match gamemodes.get(g) {
            None => false,
            Some(gamemode) => refers_into(round.map, gamemode.maps.len()),
        },
    }
}

/// Whether every round fits the gamemodes.
pub fn rounds_are_fit(rounds: &Vec<Round>, gamemodes: &EntityStore<Gamemode>) -> (valid: bool)
    ensures
        valid == rounds_fit(rounds@, gamemodes@),
{
    let mut r: usize = 0;
    while r < rounds.len()
        invariant
            r <= rounds@.len(),
            forall|i: int| 0 <= i < r ==> round_fits(#[trigger] rounds@[i], gamemodes@),
        decreases rounds@.len() - r,
    {
        if !round_is_fit(&rounds[r], gamemodes) {
            return false;
        }
        r = r + 1;
    }
    true
}

/// Whether a bracket has the shape of a single-elimination bracket of
/// `count` stages.
pub fn bracket_has_shape(bracket: &Vec<Vec<Option<Matchup>>>, count: usize) -> (valid: bool)
    ensures
        valid == bracket_shaped(stages_of(*bracket), count as nat),
{
    if bracket.len() != count {
        return false;
    }
    let ghost stages = stages_of(*bracket);
    let mut i: usize = 0;
    while i < count
        invariant
            i <= count,
            bracket@.len() == count,
            stages == stages_of(*bracket),
            forall|j: int| 0 <= j < i ==> (#[trigger] stages[j]).len() == stage_size(count as nat, j),
        decreases count - i,
    {
        let slots: usize = bracket[i].len();
        assert(stages[i as int].len() == slots);
        match checked_two_to_the(count - 1 - i) {
            Some(size) => {
                if slots != size {
                    return false;
                }
            },
            None => {
                return false;
            },
        }
        i = i + 1;
    }
    true
}

impl SaveData {
    /// Whether every reference in the state is absent or points at an entity.
    pub fn check_references(&self) -> (valid: bool)
        ensures
            valid == self.references_valid(),
    {
        let teams: usize = self.division.teams.len();
        bracket_refers_below(&self.division.bracket, teams) && refers_into(
            self.current_match.team1,
            teams,
        ) && refers_into(self.current_match.team2, teams) && teams_fit(
            &self.division.teams,
            self.settings.roles.len(),
            self.settings.characters.len(),
        ) && rounds_are_fit(&self.current_match.rounds, &self.settings.gamemodes)
    }

    /// Whether the rounds and the bracket are as long as the settings ask
    /// for, and the stages of the bracket of the right sizes.
    pub fn check_sizes(&self) -> (valid: bool)
        ensures
            valid == self.sizes_synced(),
    {
        self.current_match.rounds.len() == self.settings.round_count && bracket_has_shape(
            &self.division.bracket,
            self.settings.bracket_stage_count,
        )
    }

    /// Whether the state is as it must be after every command.
    pub fn check_consistent(&self) -> (valid: bool)
        ensures
            valid == self.consistent(),
    {
        self.check_references() && self.check_sizes()
    }
}

} // verus!
