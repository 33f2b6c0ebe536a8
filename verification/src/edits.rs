//! What an edit of a collection, with its corrections, does to the state,
//! and why the state stays as it must be.

use vstd::prelude::*;
use crate::bracket::{stage_size, stages_of};
use crate::corrector::{
    corrected_match, corrected_round_gamemode, corrected_round_map, corrected_slot,
    corrected_stages, team_corrected, teams_corrected, CorrectionTarget,
};
use crate::invariants::{player_fits, round_fits, slot_below, team_fits};
use crate::models::{Division, Match, Matchup, Round, SaveData, Settings};
use crate::policy::{
    follows, lemma_corrected_follows_entry, lemma_corrected_in_range,
    lemma_corrected_reference_follows, lemma_entry_comes_from, position, ListEdit,
};

verus! {

impl SaveData {
    /// Whether `after` is `before` with `edit` made on the collection
    /// `target`, every reference into that collection corrected for it, and
    /// nothing else changed.
    pub open spec fn collection_edited(
        before: SaveData,
        after: SaveData,
        target: CorrectionTarget,
        edit: ListEdit,
    ) -> bool {
        match target {
            CorrectionTarget::Teams => {
                &&& edit.turns(before.division.teams@, after.division.teams@)
                &&& stages_of(after.division.bracket) == corrected_stages(
                    stages_of(before.division.bracket),
                    edit,
                )
                &&& after == (SaveData {
                    division: after.division,
                    current_match: corrected_match(before.current_match, edit),
                    ..before
                })
            },
            CorrectionTarget::Roles => {
                &&& edit.turns(before.settings.roles@, after.settings.roles@)
                &&& teams_corrected(before.division.teams@, after.division.teams@, true, edit)
                &&& after == (SaveData {
                    settings: Settings { roles: after.settings.roles, ..before.settings },
                    division: Division { teams: after.division.teams, ..before.division },
                    ..before
                })
            },
            CorrectionTarget::Characters => {
                &&& edit.turns(before.settings.characters@, after.settings.characters@)
                &&& teams_corrected(before.division.teams@, after.division.teams@, false, edit)
                &&& after == (SaveData {
                    settings: Settings { characters: after.settings.characters, ..before.settings },
                    division: Division { teams: after.division.teams, ..before.division },
                    ..before
                })
            },
            CorrectionTarget::Gamemodes => {
                &&& edit.turns(before.settings.gamemodes@, after.settings.gamemodes@)
                &&& after.current_match.rounds@ == before.current_match.rounds@.map_values(
                    |round: Round| corrected_round_gamemode(round, edit),
                )
                &&& after == (SaveData {
                    settings: Settings { gamemodes: after.settings.gamemodes, ..before.settings },
                    current_match: Match {
                        rounds: after.current_match.rounds,
                        ..before.current_match
                    },
                    ..before
                })
            },
            CorrectionTarget::Maps(gamemode) => {
                &&& gamemode < before.settings.gamemodes@.len()
                &&& after.settings.gamemodes@.len() == before.settings.gamemodes@.len()
                &&& forall|g: int|
                    0 <= g < before.settings.gamemodes@.len() && g != gamemode
                        ==> #[trigger] after.settings.gamemodes@[g] == before.settings.gamemodes@[g]
                &&& after.settings.gamemodes@[gamemode as int].name
                    == before.settings.gamemodes@[gamemode as int].name
                &&& after.settings.gamemodes@[gamemode as int].icon
                    == before.settings.gamemodes@[gamemode as int].icon
                &&& edit.turns(
                    before.settings.gamemodes@[gamemode as int].maps@,
                    after.settings.gamemodes@[gamemode as int].maps@,
                )
                &&& after.current_match.rounds@ == before.current_match.rounds@.map_values(
                    |round: Round| corrected_round_map(round, gamemode, edit),
                )
                &&& after == (SaveData {
                    settings: Settings { gamemodes: after.settings.gamemodes, ..before.settings },
                    current_match: Match {
                        rounds: after.current_match.rounds,
                        ..before.current_match
                    },
                    ..before
                })
            },
        }
    }
}

/// Corrected team references that pointed at teams point at teams.
proof fn lemma_teams_edit_keeps_team_refs(before: SaveData, after: SaveData, edit: ListEdit)
    requires
        SaveData::collection_edited(before, after, CorrectionTarget::Teams, edit),
        before.team_refs_valid(),
    ensures
        after.team_refs_valid(),
{
    let len = before.division.teams@.len();
    let new_len = after.division.teams@.len();
    after.division.teams.lemma_len_fits();
    assert(edit.applies_to(len));
    assert(new_len == edit.len_after(len));
    let stages = stages_of(before.division.bracket);
    let new_stages = stages_of(after.division.bracket);
    assert(new_stages.len() == stages.len());
    assert forall|s: int, k: int|
        0 <= s < after.division.bracket@.len() && 0 <= k < after.division.bracket@[s]@.len()
        implies slot_below(#[trigger] after.division.bracket@[s]@[k], new_len) by {
        assert(new_stages[s] == after.division.bracket@[s]@);
        assert(stages[s] == before.division.bracket@[s]@);
        assert(new_stages[s][k] == corrected_slot(stages[s][k], edit));
        assert(slot_below(before.division.bracket@[s]@[k], len));
        match before.division.bracket@[s]@[k] {
            Some(matchup) => {
                lemma_corrected_in_range(position(matchup.team1), edit, len);
                lemma_corrected_in_range(position(matchup.team2), edit, len);
            },
            None => {},
        }
    }
    lemma_corrected_in_range(position(before.current_match.team1), edit, len);
    lemma_corrected_in_range(position(before.current_match.team2), edit, len);
}

/// The teams of an edited collection are the teams that were there, so their
/// players refer to what they referred to.
proof fn lemma_teams_edit_keeps_player_refs(before: SaveData, after: SaveData, edit: ListEdit)
    requires
        SaveData::collection_edited(before, after, CorrectionTarget::Teams, edit),
        before.player_refs_valid(),
        edit matches ListEdit::Inserted(p) ==> team_fits(
            after.division.teams@[p as int],
            before.settings.roles@.len(),
            before.settings.characters@.len(),
        ),
    ensures
        after.player_refs_valid(),
{
    let roles = before.settings.roles@.len();
    let characters = before.settings.characters@.len();
    assert forall|t: int, p: int|
        0 <= t < after.division.teams@.len() && 0 <= p < after.division.teams@[t].players@.len()
        implies player_fits(#[trigger] after.division.teams@[t].players@[p], roles, characters) by {
        let fresh = edit matches ListEdit::Inserted(at) && at == t;
        if fresh {
            assert(team_fits(after.division.teams@[t], roles, characters));
        } else {
            let i = lemma_entry_comes_from(before.division.teams@, after.division.teams@, edit, t);
            assert(player_fits(before.division.teams@[i].players@[p], roles, characters));
        }
    }
}

/// Corrected roles or characters that pointed into the vocabulary point into it.
proof fn lemma_vocabulary_edit_keeps_player_refs(
    before: SaveData,
    after: SaveData,
    roles: bool,
    edit: ListEdit,
)
    requires
        SaveData::collection_edited(
            before,
            after,
            if roles {
                CorrectionTarget::Roles
            } else {
                CorrectionTarget::Characters
            },
            edit,
        ),
        before.player_refs_valid(),
    ensures
        after.player_refs_valid(),
{
    let role_count = before.settings.roles@.len();
    let character_count = before.settings.characters@.len();
    after.settings.roles.lemma_len_fits();
    after.settings.characters.lemma_len_fits();
    assert forall|t: int, p: int|
        0 <= t < after.division.teams@.len() && 0 <= p < after.division.teams@[t].players@.len()
        implies player_fits(
        #[trigger] after.division.teams@[t].players@[p],
        after.settings.roles@.len(),
        after.settings.characters@.len(),
    ) by {
        let old_player = before.division.teams@[t].players@[p];
        assert(player_fits(old_player, role_count, character_count));
        if roles {
            lemma_corrected_in_range(position(old_player.role), edit, role_count);
        } else {
            lemma_corrected_in_range(position(old_player.character), edit, character_count);
        }
    }
}

/// A round whose gamemode was corrected has the gamemode it had, with the
/// maps it had, or none.
proof fn lemma_gamemodes_edit_keeps_round_refs(before: SaveData, after: SaveData, edit: ListEdit)
    requires
        SaveData::collection_edited(before, after, CorrectionTarget::Gamemodes, edit),
        before.round_refs_valid(),
    ensures
        after.round_refs_valid(),
{
    let gamemodes = before.settings.gamemodes@;
    let new_gamemodes = after.settings.gamemodes@;
    after.settings.gamemodes.lemma_len_fits();
    assert forall|r: int| 0 <= r < after.current_match.rounds@.len() implies round_fits(
        #[trigger] after.current_match.rounds@[r],
        new_gamemodes,
    ) by {
        let round = before.current_match.rounds@[r];
        assert(round_fits(round, gamemodes));
        assert(after.current_match.rounds@[r] == corrected_round_gamemode(round, edit));
        match round.gamemode {
            Some(g) => {
                lemma_corrected_follows_entry(gamemodes, new_gamemodes, edit, g as int);
            },
            None => {},
        }
    }
}

/// A round whose map was corrected has a map of its gamemode, or none.
proof fn lemma_maps_edit_keeps_round_refs(
    before: SaveData,
    after: SaveData,
    gamemode: usize,
    edit: ListEdit,
)
    requires
        SaveData::collection_edited(before, after, CorrectionTarget::Maps(gamemode), edit),
        before.round_refs_valid(),
    ensures
        after.round_refs_valid(),
{
    let gamemodes = before.settings.gamemodes@;
    let new_gamemodes = after.settings.gamemodes@;
    assert forall|r: int| 0 <= r < after.current_match.rounds@.len() implies round_fits(
        #[trigger] after.current_match.rounds@[r],
        new_gamemodes,
    ) by {
        let round = before.current_match.rounds@[r];
        assert(round_fits(round, gamemodes));
        assert(after.current_match.rounds@[r] == corrected_round_map(round, gamemode, edit));
        match round.gamemode {
            Some(g) => {
                if g == gamemode {
                    new_gamemodes[g as int].maps.lemma_len_fits();
                    lemma_corrected_in_range(
                        position(round.map),
                        edit,
                        gamemodes[g as int].maps@.len(),
                    );
                } else {
                    assert(new_gamemodes[g as int] == gamemodes[g as int]);
                }
            },
            None => {},
        }
    }
}

/// Correcting the matchups of a bracket changes no stage's size.
proof fn lemma_teams_edit_keeps_bracket_shape(before: SaveData, after: SaveData, edit: ListEdit)
    requires
        SaveData::collection_edited(before, after, CorrectionTarget::Teams, edit),
        before.bracket_synced(),
    ensures
        after.bracket_synced(),
{
    let count = before.settings.bracket_stage_count as nat;
    let stages = stages_of(before.division.bracket);
    let new_stages = stages_of(after.division.bracket);
    assert forall|i: int| 0 <= i < count implies (#[trigger] new_stages[i]).len()
        == stage_size(count, i) by {
        assert(new_stages[i].len() == stages[i].len());
    }
}

/// An edit of a collection with its corrections keeps every reference valid
/// and the rounds and the bracket as long as the settings ask for: each of
/// the five conditions that held before holds afterwards. A team that is
/// inserted must itself refer only to roles and characters that exist.
pub proof fn lemma_edit_keeps_consistency(
    before: SaveData,
    after: SaveData,
    target: CorrectionTarget,
    edit: ListEdit,
)
    requires
        SaveData::collection_edited(before, after, target, edit),
        target == CorrectionTarget::Teams ==> (edit matches ListEdit::Inserted(p) ==> team_fits(
            after.division.teams@[p as int],
            before.settings.roles@.len(),
            before.settings.characters@.len(),
        )),
    ensures
        before.team_refs_valid() ==> after.team_refs_valid(),
        before.player_refs_valid() ==> after.player_refs_valid(),
        before.round_refs_valid() ==> after.round_refs_valid(),
        before.rounds_synced() ==> after.rounds_synced(),
        before.bracket_synced() ==> after.bracket_synced(),
        before.references_valid() ==> after.references_valid(),
        before.consistent() ==> after.consistent(),
{
    match target {
        CorrectionTarget::Teams => {
            if before.team_refs_valid() {
                lemma_teams_edit_keeps_team_refs(before, after, edit);
            }
            if before.player_refs_valid() {
                lemma_teams_edit_keeps_player_refs(before, after, edit);
            }
            if before.bracket_synced() {
                lemma_teams_edit_keeps_bracket_shape(before, after, edit);
            }
        },
        CorrectionTarget::Roles => {
            if before.player_refs_valid() {
                lemma_vocabulary_edit_keeps_player_refs(before, after, true, edit);
            }
            assert(before.team_refs_valid() ==> after.team_refs_valid());
        },
        CorrectionTarget::Characters => {
            if before.player_refs_valid() {
                lemma_vocabulary_edit_keeps_player_refs(before, after, false, edit);
            }
            assert(before.team_refs_valid() ==> after.team_refs_valid());
        },
        CorrectionTarget::Gamemodes => {
            if before.round_refs_valid() {
                lemma_gamemodes_edit_keeps_round_refs(before, after, edit);
            }
        },
        CorrectionTarget::Maps(gamemode) => {
            if before.round_refs_valid() {
                lemma_maps_edit_keeps_round_refs(before, after, gamemode, edit);
            }
        },
    }
}

/// After an edit of the teams, every team reference stands for the team it
/// stood for: in the current match, and in every matchup of the bracket,
/// which is otherwise as it was.
pub proof fn lemma_team_references_follow(before: SaveData, after: SaveData, edit: ListEdit)
    requires
        SaveData::collection_edited(before, after, CorrectionTarget::Teams, edit),
        before.team_refs_valid(),
    ensures
        follows(
            before.current_match.team1,
            after.current_match.team1,
            before.division.teams@,
            after.division.teams@,
            edit,
        ),
        follows(
            before.current_match.team2,
            after.current_match.team2,
            before.division.teams@,
            after.division.teams@,
            edit,
        ),
        after.division.bracket@.len() == before.division.bracket@.len(),
        forall|s: int, k: int|
            0 <= s < before.division.bracket@.len() && 0 <= k < before.division.bracket@[s]@.len()
                ==> match #[trigger] before.division.bracket@[s]@[k] {
                Some(then) => {
                    &&& after.division.bracket@[s]@[k] matches Some(now)
                    &&& follows(then.team1, now.team1, before.division.teams@, after.division.teams@, edit)
                    &&& follows(then.team2, now.team2, before.division.teams@, after.division.teams@, edit)
                    &&& now == (Matchup { team1: now.team1, team2: now.team2, ..then })
                },
                None => after.division.bracket@[s]@[k] is None,
            },
{
    let teams = before.division.teams@;
    let new_teams = after.division.teams@;
    after.division.teams.lemma_len_fits();
    lemma_corrected_reference_follows(before.current_match.team1, teams, new_teams, edit);
    lemma_corrected_reference_follows(before.current_match.team2, teams, new_teams, edit);
    let stages = stages_of(before.division.bracket);
    let new_stages = stages_of(after.division.bracket);
    assert(new_stages.len() == stages.len());
    assert forall|s: int, k: int|
        0 <= s < before.division.bracket@.len() && 0 <= k < before.division.bracket@[s]@.len()
        implies match #[trigger] before.division.bracket@[s]@[k] {
        Some(then) => {
            &&& after.division.bracket@[s]@[k] matches Some(now)
            &&& follows(then.team1, now.team1, teams, new_teams, edit)
            &&& follows(then.team2, now.team2, teams, new_teams, edit)
            &&& now == (Matchup { team1: now.team1, team2: now.team2, ..then })
        },
        None => after.division.bracket@[s]@[k] is None,
    } by {
        assert(new_stages[s] == after.division.bracket@[s]@);
        assert(stages[s] == before.division.bracket@[s]@);
        assert(new_stages[s][k] == corrected_slot(stages[s][k], edit));
        assert(slot_below(before.division.bracket@[s]@[k], teams.len()));
        match before.division.bracket@[s]@[k] {
            Some(then) => {
                lemma_corrected_reference_follows(then.team1, teams, new_teams, edit);
                lemma_corrected_reference_follows(then.team2, teams, new_teams, edit);
            },
            None => {},
        }
    }
}

/// After an edit of the roles (`roles`) or of the characters, the role or
/// the character of every player stands for what it stood for.
pub proof fn lemma_player_references_follow(
    before: SaveData,
    after: SaveData,
    roles: bool,
    edit: ListEdit,
)
    requires
        SaveData::collection_edited(
            before,
            after,
            if roles {
                CorrectionTarget::Roles
            } else {
                CorrectionTarget::Characters
            },
            edit,
        ),
        before.player_refs_valid(),
    ensures
        after.division.teams@.len() == before.division.teams@.len(),
        forall|t: int, p: int|
            0 <= t < before.division.teams@.len() && 0 <= p
                < before.division.teams@[t].players@.len() ==> {
                let then = #[trigger] before.division.teams@[t].players@[p];
                let now = after.division.teams@[t].players@[p];
                &&& after.division.teams@[t].players@.len()
                    == before.division.teams@[t].players@.len()
                &&& if roles {
                    follows(then.role, now.role, before.settings.roles@, after.settings.roles@, edit)
                } else {
                    follows(
                        then.character,
                        now.character,
                        before.settings.characters@,
                        after.settings.characters@,
                        edit,
                    )
                }
            },
{
    after.settings.roles.lemma_len_fits();
    after.settings.characters.lemma_len_fits();
    assert forall|t: int, p: int|
        0 <= t < before.division.teams@.len() && 0 <= p < before.division.teams@[t].players@.len()
        implies {
        let then = #[trigger] before.division.teams@[t].players@[p];
        let now = after.division.teams@[t].players@[p];
        &&& after.division.teams@[t].players@.len() == before.division.teams@[t].players@.len()
        &&& if roles {
            follows(then.role, now.role, before.settings.roles@, after.settings.roles@, edit)
        } else {
            follows(
                then.character,
                now.character,
                before.settings.characters@,
                after.settings.characters@,
                edit,
            )
        }
    } by {
        let then = before.division.teams@[t].players@[p];
        assert(player_fits(
            then,
            before.settings.roles@.len(),
            before.settings.characters@.len(),
        ));
        assert(team_corrected(
            before.division.teams@[t],
            after.division.teams@[t],
            roles,
            edit,
        ));
        if roles {
            lemma_corrected_reference_follows(
                then.role,
                before.settings.roles@,
                after.settings.roles@,
                edit,
            );
        } else {
            lemma_corrected_reference_follows(
                then.character,
                before.settings.characters@,
                after.settings.characters@,
                edit,
            );
        }
    }
}

/// After an edit of the gamemodes, the gamemode of every round stands for
/// the gamemode it stood for, and a round that still has a gamemode has the
/// map it had.
pub proof fn lemma_gamemode_references_follow(before: SaveData, after: SaveData, edit: ListEdit)
    requires
        SaveData::collection_edited(before, after, CorrectionTarget::Gamemodes, edit),
        before.round_refs_valid(),
    ensures
        after.current_match.rounds@.len() == before.current_match.rounds@.len(),
        forall|r: int|
            0 <= r < before.current_match.rounds@.len() ==> {
                let then = #[trigger] before.current_match.rounds@[r];
                let now = after.current_match.rounds@[r];
                &&& follows(
                    then.gamemode,
                    now.gamemode,
                    before.settings.gamemodes@,
                    after.settings.gamemodes@,
                    edit,
                )
                &&& now.gamemode is Some ==> now.map == then.map
                &&& now.gamemode is None ==> now.map is None
            },
{
    after.settings.gamemodes.lemma_len_fits();
    assert forall|r: int| 0 <= r < before.current_match.rounds@.len() implies {
        let then = #[trigger] before.current_match.rounds@[r];
        let now = after.current_match.rounds@[r];
        &&& follows(
            then.gamemode,
            now.gamemode,
            before.settings.gamemodes@,
            after.settings.gamemodes@,
            edit,
        )
        &&& now.gamemode is Some ==> now.map == then.map
        &&& now.gamemode is None ==> now.map is None
    } by {
        let then = before.current_match.rounds@[r];
        assert(round_fits(then, before.settings.gamemodes@));
        assert(after.current_match.rounds@[r] == corrected_round_gamemode(then, edit));
        lemma_corrected_reference_follows(
            then.gamemode,
            before.settings.gamemodes@,
            after.settings.gamemodes@,
            edit,
        );
    }
}

/// After an edit of the maps of one gamemode, the map of every round that
/// has chosen this gamemode stands for the map it stood for, and no other
/// round has changed.
pub proof fn lemma_map_references_follow(
    before: SaveData,
    after: SaveData,
    gamemode: usize,
    edit: ListEdit,
)
    requires
        SaveData::collection_edited(before, after, CorrectionTarget::Maps(gamemode), edit),
        before.round_refs_valid(),
    ensures
        after.current_match.rounds@.len() == before.current_match.rounds@.len(),
        forall|r: int|
            0 <= r < before.current_match.rounds@.len() ==> {
                let then = #[trigger] before.current_match.rounds@[r];
                let now = after.current_match.rounds@[r];
                if then.gamemode == Some(gamemode) {
                    &&& now == (Round { map: now.map, ..then })
                    &&& follows(
                        then.map,
                        now.map,
                        before.settings.gamemodes@[gamemode as int].maps@,
                        after.settings.gamemodes@[gamemode as int].maps@,
                        edit,
                    )
                } else {
                    now == then
                }
            },
{
    after.settings.gamemodes@[gamemode as int].maps.lemma_len_fits();
    assert forall|r: int| 0 <= r < before.current_match.rounds@.len() implies {
        let then = #[trigger] before.current_match.rounds@[r];
        let now = after.current_match.rounds@[r];
        if then.gamemode == Some(gamemode) {
            &&& now == (Round { map: now.map, ..then })
            &&& follows(
                then.map,
                now.map,
                before.settings.gamemodes@[gamemode as int].maps@,
                after.settings.gamemodes@[gamemode as int].maps@,
                edit,
            )
        } else {
            now == then
        }
    } by {
        let then = before.current_match.rounds@[r];
        assert(round_fits(then, before.settings.gamemodes@));
        assert(after.current_match.rounds@[r] == corrected_round_map(then, gamemode, edit));
        if then.gamemode == Some(gamemode) {
            lemma_corrected_reference_follows(
                then.map,
                before.settings.gamemodes@[gamemode as int].maps@,
                after.settings.gamemodes@[gamemode as int].maps@,
                edit,
            );
        }
    }
}

} // verus!
