//! Rewriting every stored reference into a collection when that collection
//! is edited.
//!
//! There are five collections that something refers to: the teams, the
//! roles, the characters, the gamemodes, and the maps of one gamemode.

use vstd::prelude::*;
use crate::bracket::stages_of;
use crate::invariants::bracket_below;
use crate::models::{Match, Matchup, Player, Round, SaveData, Team, Division};
use crate::policy::{correct_index, corrected_reference, representable, ListEdit};
use crate::store::EntityStore;

verus! {

/// The collection that was edited, and so the references that need correcting.
#[derive(Clone, Copy, Debug, PartialEq, Eq, Structural)]
pub enum CorrectionTarget {
    /// The teams: the matchups of the bracket and the current match refer to them.
    Teams,
    /// The roles: the players refer to them.
    Roles,
    /// The characters: the players refer to them.
    Characters,
    /// The gamemodes: the rounds refer to them.
    Gamemodes,
    /// The maps of the gamemode at this position: the rounds that have
    /// chosen this gamemode refer to them.
    Maps(usize),
}

/// A matchup after an edit of the teams.
pub open spec fn corrected_matchup(matchup: Matchup, edit: ListEdit) -> Matchup {
    Matchup {
        team1: corrected_reference(matchup.team1, edit),
        team2: corrected_reference(matchup.team2, edit),
        ..matchup
    }
}

/// A slot of the bracket after an edit of the teams.
pub open spec fn corrected_slot(slot: Option<Matchup>, edit: ListEdit) -> Option<Matchup> {
    match slot {
        Some(matchup) => Some(corrected_matchup(matchup, edit)),
        None => None,
    }
}

/// The stages of a bracket after an edit of the teams.
pub open spec fn corrected_stages(stages: Seq<Seq<Option<Matchup>>>, edit: ListEdit) -> Seq<
    Seq<Option<Matchup>>,
> {
    stages.map_values(
        |stage: Seq<Option<Matchup>>|
            stage.map_values(|slot: Option<Matchup>| corrected_slot(slot, edit)),
    )
}

/// The current match after an edit of the teams.
pub open spec fn corrected_match(current: Match, edit: ListEdit) -> Match {
    Match {
        team1: corrected_reference(current.team1, edit),
        team2: corrected_reference(current.team2, edit),
        ..current
    }
}

/// A player after an edit of the roles (`roles`) or of the characters.
pub open spec fn corrected_player(player: Player, roles: bool, edit: ListEdit) -> Player {
    if roles {
        Player { role: corrected_reference(player.role, edit), ..player }
    } else {
        Player { character: corrected_reference(player.character, edit), ..player }
    }
}

/// Whether `after` is the team `before` with every player corrected for an
/// edit of the roles (`roles`) or of the characters.
pub open spec fn team_corrected(before: Team, after: Team, roles: bool, edit: ListEdit) -> bool {
    &&& after.name == before.name
    &&& after.icon == before.icon
    &&& after.players@ == before.players@.map_values(
        |player: Player| corrected_player(player, roles, edit),
    )
}

/// Whether `after` holds the teams of `before`, each with every player
/// corrected for an edit of the roles (`roles`) or of the characters.
pub open spec fn teams_corrected(
    before: Seq<Team>,
    after: Seq<Team>,
    roles: bool,
    edit: ListEdit,
) -> bool {
    &&& after.len() == before.len()
    &&& forall|t: int|
        0 <= t < before.len() ==> team_corrected(before[t], #[trigger] after[t], roles, edit)
}

/// A round after an edit of the gamemodes. A round whose gamemode is gone
/// loses its map with it: the map was one of that gamemode's.
pub open spec fn corrected_round_gamemode(round: Round, edit: ListEdit) -> Round {
    let gamemode = corrected_reference(round.gamemode, edit);
    Round {
        gamemode,
        map: if gamemode is None {
            None
        } else {
            round.map
        },
        ..round
    }
}

/// A round after an edit of the maps of the gamemode at `gamemode`. Only a
/// round that has chosen this gamemode changes.
pub open spec fn corrected_round_map(round: Round, gamemode: usize, edit: ListEdit) -> Round {
    if round.gamemode == Some(gamemode) {
        Round { map: corrected_reference(round.map, edit), ..round }
    } else {
        round
    }
}

/// Whether every role (`roles`) or every character of the players can be corrected.
pub open spec fn players_representable(teams: Seq<Team>, roles: bool, edit: ListEdit) -> bool {
    forall|t: int, p: int|
        0 <= t < teams.len() && 0 <= p < teams[t].players@.len() ==> representable(
            if roles {
                (#[trigger] teams[t].players@[p]).role
            } else {
                teams[t].players@[p].character
            },
            edit,
        )
}

/// Corrects the team references of every matchup in a bracket.
pub fn correct_bracket_teams(bracket: &mut Vec<Vec<Option<Matchup>>>, edit: ListEdit)
    requires
        edit is Inserted ==> bracket_below(*old(bracket), usize::MAX as nat),
    ensures
        stages_of(*final(bracket)) == corrected_stages(stages_of(*old(bracket)), edit),
{
    let ghost before = stages_of(*bracket);
    let stage_count: usize = bracket.len();
    let mut s: usize = 0;
    while s < stage_count
        invariant
            s <= stage_count,
            bracket@.len() == stage_count,
            before.len() == stage_count,
            edit is Inserted ==> bracket_below(*old(bracket), usize::MAX as nat),
            before == stages_of(*old(bracket)),
            forall|i: int|
                0 <= i < s ==> (#[trigger] bracket@[i])@ == before[i].map_values(
                    |slot: Option<Matchup>| corrected_slot(slot, edit),
                ),
            forall|i: int| s <= i < stage_count ==> (#[trigger] bracket@[i])@ == before[i],
        decreases stage_count - s,
    {
        let slot_count: usize = bracket[s].len();
        let mut k: usize = 0;
        while k < slot_count
            invariant
                s < stage_count,
                k <= slot_count,
                bracket@.len() == stage_count,
                before.len() == stage_count,
                before[s as int].len() == slot_count,
                bracket@[s as int]@.len() == slot_count,
                edit is Inserted ==> bracket_below(*old(bracket), usize::MAX as nat),
                before == stages_of(*old(bracket)),
                forall|i: int|
                    0 <= i < s ==> (#[trigger] bracket@[i])@ == before[i].map_values(
                        |slot: Option<Matchup>| corrected_slot(slot, edit),
                    ),
                forall|i: int| s < i < stage_count ==> (#[trigger] bracket@[i])@ == before[i],
                forall|j: int|
                    0 <= j < k ==> (#[trigger] bracket@[s as int]@[j]) == corrected_slot(
                        before[s as int][j],
                        edit,
                    ),
                forall|j: int|
                    k <= j < slot_count ==> (#[trigger] bracket@[s as int]@[j]) == before[s as int][j],
            decreases slot_count - k,
        {
            let slot = bracket[s][k];
            if let Some(matchup) = slot {
                proof {
                    assert(old(bracket)@[s as int]@[k as int] == slot);
                }
                let team1 = correct_index(matchup.team1, edit);
                let team2 = correct_index(matchup.team2, edit);
                bracket[s][k] = Some(
                    Matchup {
                        team1,
                        team2,
                        team1_score: matchup.team1_score,
                        team2_score: matchup.team2_score,
                        completed: matchup.completed,
                    },
                );
            }
            k = k + 1;
        }
        assert(bracket@[s as int]@ =~= before[s as int].map_values(
            |slot: Option<Matchup>| corrected_slot(slot, edit),
        ));
        s = s + 1;
    }
    assert(stages_of(*bracket) =~= corrected_stages(before, edit));
}

impl Match {
    /// Corrects the two team references of the match.
    pub fn correct_teams(&mut self, edit: ListEdit)
        requires
            representable(old(self).team1, edit),
            representable(old(self).team2, edit),
        ensures
            *final(self) == corrected_match(*old(self), edit),
    {
        self.team1 = correct_index(self.team1, edit);
        self.team2 = correct_index(self.team2, edit);
    }
}

/// Corrects the role (`roles`) or the character of every player of every team.
pub fn correct_players(teams: &mut EntityStore<Team>, roles: bool, edit: ListEdit)
    requires
        players_representable(old(teams)@, roles, edit),
    ensures
        teams_corrected(old(teams)@, final(teams)@, roles, edit),
{
    let ghost before = teams@;
    let team_count: usize = teams.len();
    let mut t: usize = 0;
    while t < team_count
        invariant
            t <= team_count,
            teams@.len() == team_count,
            before.len() == team_count,
            players_representable(before, roles, edit),
            forall|i: int| 0 <= i < t ==> team_corrected(before[i], #[trigger] teams@[i], roles, edit),
            forall|i: int| t <= i < team_count ==> (#[trigger] teams@[i]) == before[i],
        decreases team_count - t,
    {
        let team = teams.get_mut(t);
        let player_count: usize = team.players.len();
        let mut p: usize = 0;
        while p < player_count
            invariant
                t < team_count,
                p <= player_count,
                before.len() == team_count,
                players_representable(before, roles, edit),
                team.name == before[t as int].name,
                team.icon == before[t as int].icon,
                team.players@.len() == player_count,
                before[t as int].players@.len() == player_count,
                forall|j: int|
                    0 <= j < p ==> (#[trigger] team.players@[j]) == corrected_player(
                        before[t as int].players@[j],
                        roles,
                        edit,
                    ),
                forall|j: int|
                    p <= j < player_count ==> (#[trigger] team.players@[j])
                        == before[t as int].players@[j],
            decreases player_count - p,
        {
            let player = team.players.get_mut(p);
            if roles {
                player.role = correct_index(player.role, edit);
            } else {
                player.character = correct_index(player.character, edit);
            }
            p = p + 1;
        }
        assert(team.players@ =~= before[t as int].players@.map_values(
            |player: Player| corrected_player(player, roles, edit),
        ));
        t = t + 1;
    }
}

/// Corrects the gamemode of every round; a round whose gamemode is gone
/// loses its map.
pub fn correct_round_gamemodes(rounds: &mut Vec<Round>, edit: ListEdit)
    requires
        gamemodes_representable(old(rounds)@, edit),
    ensures
        final(rounds)@ == old(rounds)@.map_values(
            |round: Round| corrected_round_gamemode(round, edit),
        ),
{
    let ghost before = rounds@;
    let round_count: usize = rounds.len();
    let mut r: usize = 0;
    while r < round_count
        invariant
            r <= round_count,
            rounds@.len() == round_count,
            before.len() == round_count,
            forall|i: int| 0 <= i < before.len() ==> representable((#[trigger] before[i]).gamemode, edit),
            forall|i: int|
                0 <= i < r ==> (#[trigger] rounds@[i]) == corrected_round_gamemode(before[i], edit),
            forall|i: int| r <= i < round_count ==> (#[trigger] rounds@[i]) == before[i],
        decreases round_count - r,
    {
        let gamemode = correct_index(rounds[r].gamemode, edit);
        rounds[r].gamemode = gamemode;
        if gamemode.is_none() {
            rounds[r].map = None;
        }
        r = r + 1;
    }
    assert(rounds@ =~= before.map_values(|round: Round| corrected_round_gamemode(round, edit)));
}

/// Corrects the map of every round that has chosen the gamemode at `gamemode`.
pub fn correct_round_maps(rounds: &mut Vec<Round>, gamemode: usize, edit: ListEdit)
    requires
        maps_representable(old(rounds)@, gamemode, edit),
    ensures
        final(rounds)@ == old(rounds)@.map_values(
            |round: Round| corrected_round_map(round, gamemode, edit),
        ),
{
    let ghost before = rounds@;
    let round_count: usize = rounds.len();
    let mut r: usize = 0;
    while r < round_count
        invariant
            r <= round_count,
            rounds@.len() == round_count,
            before.len() == round_count,
            forall|i: int|
                0 <= i < before.len() && (#[trigger] before[i]).gamemode == Some(gamemode)
                    ==> representable(before[i].map, edit),
            forall|i: int|
                0 <= i < r ==> (#[trigger] rounds@[i]) == corrected_round_map(
                    before[i],
                    gamemode,
                    edit,
                ),
            forall|i: int| r <= i < round_count ==> (#[trigger] rounds@[i]) == before[i],
        decreases round_count - r,
    {
        let chosen = rounds[r].gamemode;
        let same = match chosen {
            Some(g) => g == gamemode,
            None => false,
        };
        if same {
            rounds[r].map = correct_index(rounds[r].map, edit);
        }
        r = r + 1;
    }
    assert(rounds@ =~= before.map_values(
        |round: Round| corrected_round_map(round, gamemode, edit),
    ));
}

/// Whether every gamemode of the rounds can be corrected.
pub open spec fn gamemodes_representable(rounds: Seq<Round>, edit: ListEdit) -> bool {
    forall|r: int| 0 <= r < rounds.len() ==> representable((#[trigger] rounds[r]).gamemode, edit)
}

/// Whether the map of every round that has chosen the gamemode at `gamemode`
/// can be corrected.
pub open spec fn maps_representable(rounds: Seq<Round>, gamemode: usize, edit: ListEdit) -> bool {
    forall|r: int|
        0 <= r < rounds.len() && (#[trigger] rounds[r]).gamemode == Some(gamemode)
            ==> representable(rounds[r].map, edit)
}

impl SaveData {
    /// Whether every reference into `target` can be corrected for `edit`. It
    /// can for every removal and every move, and for an insertion if no
    /// reference is the largest index there is.
    pub open spec fn correctable(&self, target: CorrectionTarget, edit: ListEdit) -> bool {
        match target {
            CorrectionTarget::Teams => edit is Inserted ==> self.team_refs_below(usize::MAX as nat),
            CorrectionTarget::Roles => players_representable(self.division.teams@, true, edit),
            CorrectionTarget::Characters => players_representable(
                self.division.teams@,
                false,
                edit,
            ),
            CorrectionTarget::Gamemodes => gamemodes_representable(self.current_match.rounds@, edit),
            CorrectionTarget::Maps(gamemode) => maps_representable(
                self.current_match.rounds@,
                gamemode,
                edit,
            ),
        }
    }

    /// Whether `after` is `before` with every reference into `target`
    /// corrected for `edit`, and nothing else changed.
    pub open spec fn references_corrected(
        before: SaveData,
        after: SaveData,
        target: CorrectionTarget,
        edit: ListEdit,
    ) -> bool {
        match target {
            CorrectionTarget::Teams => {
                &&& stages_of(after.division.bracket) == corrected_stages(
                    stages_of(before.division.bracket),
                    edit,
                )
                &&& after == (SaveData {
                    division: Division { bracket: after.division.bracket, ..before.division },
                    current_match: corrected_match(before.current_match, edit),
                    ..before
                })
            },
            CorrectionTarget::Roles => {
                &&& teams_corrected(before.division.teams@, after.division.teams@, true, edit)
                &&& after == (SaveData {
                    division: Division { teams: after.division.teams, ..before.division },
                    ..before
                })
            },
            CorrectionTarget::Characters => {
                &&& teams_corrected(before.division.teams@, after.division.teams@, false, edit)
                &&& after == (SaveData {
                    division: Division { teams: after.division.teams, ..before.division },
                    ..before
                })
            },
            CorrectionTarget::Gamemodes => {
                &&& after.current_match.rounds@ == before.current_match.rounds@.map_values(
                    |round: Round| corrected_round_gamemode(round, edit),
                )
                &&& after == (SaveData {
                    current_match: Match {
                        rounds: after.current_match.rounds,
                        ..before.current_match
                    },
                    ..before
                })
            },
            CorrectionTarget::Maps(gamemode) => {
                &&& after.current_match.rounds@ == before.current_match.rounds@.map_values(
                    |round: Round| corrected_round_map(round, gamemode, edit),
                )
                &&& after == (SaveData {
                    current_match: Match {
                        rounds: after.current_match.rounds,
                        ..before.current_match
                    },
                    ..before
                })
            },
        }
    }

    /// Corrects every team reference for an edit of the teams: the matchups
    /// of the bracket, and the two teams of the current match.
    pub fn correct_bracket(&mut self, edit: ListEdit)
        requires
            old(self).correctable(CorrectionTarget::Teams, edit),
        ensures
            Self::references_corrected(*old(self), *final(self), CorrectionTarget::Teams, edit),
    {
        correct_bracket_teams(&mut self.division.bracket, edit);
        self.current_match.correct_teams(edit);
    }

    /// Corrects every reference into the edited collection, and nothing else.
    pub fn correct_references(&mut self, target: CorrectionTarget, edit: ListEdit)
        requires
            old(self).correctable(target, edit),
        ensures
            Self::references_corrected(*old(self), *final(self), target, edit),
    {
        match target {
            CorrectionTarget::Teams => self.correct_bracket(edit),
            CorrectionTarget::Roles => correct_players(&mut self.division.teams, true, edit),
            CorrectionTarget::Characters => correct_players(&mut self.division.teams, false, edit),
            CorrectionTarget::Gamemodes => correct_round_gamemodes(
                &mut self.current_match.rounds,
                edit,
            ),
            CorrectionTarget::Maps(gamemode) => correct_round_maps(
                &mut self.current_match.rounds,
                gamemode,
                edit,
            ),
        }
    }
}

} // verus!
