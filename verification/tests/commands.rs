use live_scoreboard::corrector::CorrectionTarget;
use live_scoreboard::error::StateError;
use live_scoreboard::models::{
    Asset, Character, Division, GameMap, Gamemode, Match, Matchup, Player, ResourcePair,
    Resources, Role, Round, SaveData, Settings, Team,
};
use live_scoreboard::policy::ListEdit;

fn named_maps(names: &[&str]) -> Vec<GameMap> {
    names.iter().map(|name| GameMap::new(name, None)).collect()
}

fn event() -> SaveData {
    let gamemodes = vec![
        Gamemode::new("Control", None, named_maps(&["Ilios", "Nepal", "Oasis"])),
        Gamemode::new("Escort", None, named_maps(&["Dorado", "Havana"])),
        Gamemode::new("Hybrid", None, named_maps(&["Numbani"])),
    ];
    let roles = vec![Role::new("Tank", None), Role::new("Damage", None), Role::new("Support", None)];
    let characters = vec![
        Character::new("Ana", None),
        Character::new("Mei", None),
        Character::new("Zarya", None),
        Character::new("Lucio", None),
    ];
    let teams = vec![
        Team::new(
            "Red",
            None,
            vec![Player::new("r1", Some(0), Some(2)), Player::new("r2", Some(2), Some(0))],
        ),
        Team::new("Green", None, vec![Player::new("g1", Some(1), Some(1))]),
        Team::new("Blue", None, vec![Player::new("b1", None, Some(3)), Player::new("b2", Some(2), None)]),
        Team::new("White", None, Vec::new()),
    ];
    let bracket = vec![
        vec![
            Some(Matchup::new(Some(0), Some(1), 2, 0, true)),
            Some(Matchup::new(Some(2), Some(3), 1, 2, true)),
        ],
        vec![Some(Matchup::new(Some(0), Some(3), 0, 0, false))],
    ];
    let rounds = vec![
        Round::new(Some(0), Some(2), 1, 0, true),
        Round::new(Some(1), Some(1), 0, 1, true),
        Round::new(Some(2), Some(0), 0, 0, false),
        Round::new(Some(1), None, 0, 0, false),
        Round::new(None, None, 0, 0, false),
    ];
    SaveData::new(
        Settings::new("Cup", 5, 2, gamemodes, roles, characters),
        Division::new(teams, Some(bracket)),
        vec![Asset::new("logo", "logo.png"), Asset::new("back", "back.png")],
        Resources::new(
            vec![ResourcePair::new("banner", "banner.png")],
            vec![ResourcePair::new("motto", "gg"), ResourcePair::new("host", "me")],
        ),
        Match::new(rounds, Some(1), Some(2), false),
    )
}

fn team_refs(data: &SaveData) -> Vec<(Option<usize>, Option<usize>)> {
    let mut refs = Vec::new();
    for stage in &data.division.bracket {
        for slot in stage {
            if let Some(matchup) = slot {
                refs.push((matchup.team1, matchup.team2));
            }
        }
    }
    refs.push((data.current_match.team1, data.current_match.team2));
    refs
}

fn roles_of(data: &SaveData) -> Vec<Option<usize>> {
    let mut refs = Vec::new();
    for team in data.division.teams.list() {
        for player in team.players.list() {
            refs.push(player.role);
        }
    }
    refs
}

fn characters_of(data: &SaveData) -> Vec<Option<usize>> {
    let mut refs = Vec::new();
    for team in data.division.teams.list() {
        for player in team.players.list() {
            refs.push(player.character);
        }
    }
    refs
}

fn round_refs(data: &SaveData) -> Vec<(Option<usize>, Option<usize>)> {
    data.current_match.rounds.iter().map(|round| (round.gamemode, round.map)).collect()
}

#[test]
fn the_event_is_consistent() {
    assert!(event().check_consistent());
}

#[test]
fn add_team_appends_a_neutral_team() {
    let mut data = event();
    assert_eq!(data.add_team(), 4);
    assert_eq!(data.division.teams.get(4), Some(&Team::default()));
    assert_eq!(team_refs(&data), team_refs(&event()));
    assert!(data.check_consistent());
}

#[test]
fn remove_team_corrects_bracket_and_match() {
    let mut data = event();
    assert_eq!(data.remove_team_at(0).map(|team| team.name), Ok(String::from("Red")));
    assert_eq!(
        team_refs(&data),
        vec![(None, Some(0)), (Some(1), Some(2)), (None, Some(2)), (Some(0), Some(1))]
    );
    assert_eq!(data.division.teams.len(), 3);
    assert!(data.check_consistent());
}

#[test]
fn move_team_corrects_bracket_and_match() {
    let mut data = event();
    assert_eq!(data.move_team(0, 2), Ok(2));
    assert_eq!(
        data.team_names(),
        vec![
            String::from("Green"),
            String::from("Blue"),
            String::from("Red"),
            String::from("White")
        ]
    );
    assert_eq!(
        team_refs(&data),
        vec![(Some(2), Some(0)), (Some(1), Some(3)), (Some(2), Some(3)), (Some(0), Some(1))]
    );
    assert_eq!(data.move_team(2, -2), Ok(0));
    assert_eq!(data, event());
}

#[test]
fn move_team_up_by_one_swaps_references() {
    let mut data = event();
    assert_eq!(data.move_team(3, -1), Ok(2));
    assert_eq!(
        team_refs(&data),
        vec![(Some(0), Some(1)), (Some(3), Some(2)), (Some(0), Some(2)), (Some(1), Some(3))]
    );
    assert!(data.check_consistent());
}

#[test]
fn replace_team_keeps_references() {
    let mut data = event();
    let team = Team::new("Crimson", None, vec![Player::new("c1", Some(2), Some(3))]);
    assert_eq!(data.replace_team_at(0, team.clone()), Ok(()));
    assert_eq!(data.division.teams.get(0), Some(&team));
    assert_eq!(team_refs(&data), team_refs(&event()));
    assert!(data.check_consistent());
}

#[test]
fn replace_team_refuses_players_with_unknown_roles() {
    let mut data = event();
    let team = Team::new("Crimson", None, vec![Player::new("c1", Some(3), None)]);
    assert_eq!(data.replace_team_at(0, team), Err(StateError::InvalidReference));
    let team = Team::new("Crimson", None, vec![Player::new("c1", None, Some(4))]);
    assert_eq!(data.replace_team_at(0, team), Err(StateError::InvalidReference));
    let team = Team::new("Crimson", None, vec![Player::new("c1", Some(9), None)]);
    assert_eq!(data.replace_team_at(9, team), Err(StateError::OutOfRange));
    assert_eq!(data, event());
}

#[test]
fn player_commands_work_on_one_team() {
    let mut data = event();
    assert_eq!(data.add_player(1), Ok(1));
    assert_eq!(data.division.teams.get(1).unwrap().players.get(1), Some(&Player::default()));
    assert_eq!(data.replace_player_at(1, 1, Player::new("g2", Some(2), Some(3))), Ok(()));
    assert_eq!(data.move_player(1, 1, -1), Ok(0));
    let names: Vec<String> =
        data.division.teams.get(1).unwrap().players.list().iter().map(|p| p.name.clone()).collect();
    assert_eq!(names, vec![String::from("g2"), String::from("g1")]);
    assert_eq!(data.remove_player_at(1, 0), Ok(Player::new("g2", Some(2), Some(3))));
    assert_eq!(data, event());
}

#[test]
fn player_commands_refuse_what_is_not_there() {
    let mut data = event();
    assert_eq!(data.add_player(4), Err(StateError::OutOfRange));
    assert_eq!(data.remove_player_at(4, 0), Err(StateError::OutOfRange));
    assert_eq!(data.remove_player_at(3, 0), Err(StateError::OutOfRange));
    assert_eq!(data.move_player(0, 1, 1), Err(StateError::OutOfRange));
    assert_eq!(data.move_player(4, 0, 0), Err(StateError::OutOfRange));
    assert_eq!(data.replace_player_at(0, 2, Player::default()), Err(StateError::OutOfRange));
    assert_eq!(
        data.replace_player_at(0, 0, Player::new("x", Some(3), None)),
        Err(StateError::InvalidReference)
    );
    assert_eq!(
        data.replace_player_at(0, 0, Player::new("x", None, Some(4))),
        Err(StateError::InvalidReference)
    );
    assert_eq!(data, event());
    assert!(data.player_exists(0, 1));
    assert!(!data.player_exists(0, 2));
    assert!(!data.player_exists(4, 0));
}

#[test]
fn remove_role_corrects_the_players() {
    let mut data = event();
    assert_eq!(data.remove_role_at(0), Ok(Role::new("Tank", None)));
    assert_eq!(roles_of(&data), vec![None, Some(1), Some(0), None, Some(1)]);
    assert_eq!(characters_of(&data), characters_of(&event()));
    assert!(data.check_consistent());
}

#[test]
fn move_role_corrects_the_players() {
    let mut data = event();
    assert_eq!(data.move_role(2, -2), Ok(0));
    assert_eq!(roles_of(&data), vec![Some(1), Some(0), Some(2), None, Some(0)]);
    assert!(data.check_consistent());
    assert_eq!(data.move_role(0, 2), Ok(2));
    assert_eq!(data, event());
}

#[test]
fn add_and_replace_role_keep_the_players() {
    let mut data = event();
    assert_eq!(data.add_role(), 3);
    assert_eq!(data.settings.roles.get(3), Some(&Role::default()));
    assert_eq!(data.replace_role_at(3, Role::new("Flex", None)), Ok(()));
    assert_eq!(data.settings.roles.get(3), Some(&Role::new("Flex", None)));
    assert_eq!(roles_of(&data), roles_of(&event()));
    assert_eq!(data.replace_role_at(4, Role::default()), Err(StateError::OutOfRange));
    assert_eq!(data.remove_role_at(4), Err(StateError::OutOfRange));
    assert_eq!(data.move_role(3, 1), Err(StateError::OutOfRange));
    assert!(data.check_consistent());
}

#[test]
fn remove_character_corrects_the_players() {
    let mut data = event();
    assert_eq!(data.remove_character_at(1), Ok(Character::new("Mei", None)));
    assert_eq!(characters_of(&data), vec![Some(1), Some(0), None, Some(2), None]);
    assert_eq!(roles_of(&data), roles_of(&event()));
    assert!(data.check_consistent());
}

#[test]
fn move_character_corrects_the_players() {
    let mut data = event();
    assert_eq!(data.move_character(0, 3), Ok(3));
    assert_eq!(characters_of(&data), vec![Some(1), Some(3), Some(0), Some(2), None]);
    assert!(data.check_consistent());
}

#[test]
fn add_and_replace_character_keep_the_players() {
    let mut data = event();
    assert_eq!(data.add_character(), 4);
    assert_eq!(data.replace_character_at(0, Character::new("Ana B", None)), Ok(()));
    assert_eq!(characters_of(&data), characters_of(&event()));
    assert_eq!(data.replace_character_at(5, Character::default()), Err(StateError::OutOfRange));
    assert_eq!(data.remove_character_at(5), Err(StateError::OutOfRange));
    assert_eq!(data.move_character(0, -1), Err(StateError::OutOfRange));
    assert!(data.check_consistent());
}

#[test]
fn remove_gamemode_clears_gamemode_and_map() {
    let mut data = event();
    assert_eq!(data.remove_gamemode_at(1).map(|gamemode| gamemode.name), Ok(String::from("Escort")));
    assert_eq!(
        round_refs(&data),
        vec![(Some(0), Some(2)), (None, None), (Some(1), Some(0)), (None, None), (None, None)]
    );
    assert!(data.check_consistent());
}

#[test]
fn move_gamemode_keeps_the_maps_of_the_rounds() {
    let mut data = event();
    assert_eq!(data.move_gamemode(0, 2), Ok(2));
    assert_eq!(
        round_refs(&data),
        vec![(Some(2), Some(2)), (Some(0), Some(1)), (Some(1), Some(0)), (Some(0), None), (None, None)]
    );
    assert!(data.check_consistent());
    assert_eq!(data.move_gamemode(2, -2), Ok(0));
    assert_eq!(data, event());
}

#[test]
fn add_gamemode_changes_no_round() {
    let mut data = event();
    assert_eq!(data.add_gamemode(), 3);
    assert_eq!(data.settings.gamemodes.get(3), Some(&Gamemode::default()));
    assert_eq!(round_refs(&data), round_refs(&event()));
    assert!(data.check_consistent());
}

#[test]
fn replace_gamemode_clears_the_maps_it_no_longer_has() {
    let mut data = event();
    let fewer = Gamemode::new("Control 2", None, named_maps(&["Ilios", "Nepal"]));
    assert_eq!(data.replace_gamemode_at(0, fewer), Ok(()));
    assert_eq!(round_refs(&data)[0], (Some(0), None));
    assert_eq!(round_refs(&data)[1..], round_refs(&event())[1..]);
    assert!(data.check_consistent());
    let mut data = event();
    let same = Gamemode::new("Control 2", None, named_maps(&["a", "b", "c"]));
    assert_eq!(data.replace_gamemode_at(0, same), Ok(()));
    assert_eq!(round_refs(&data), round_refs(&event()));
    assert_eq!(data.replace_gamemode_at(3, Gamemode::default()), Err(StateError::OutOfRange));
}

#[test]
fn remove_map_corrects_only_the_rounds_of_its_gamemode() {
    let mut data = event();
    assert_eq!(data.remove_map_at(1, 0), Ok(GameMap::new("Dorado", None)));
    assert_eq!(
        round_refs(&data),
        vec![(Some(0), Some(2)), (Some(1), Some(0)), (Some(2), Some(0)), (Some(1), None), (None, None)]
    );
    assert!(data.check_consistent());
    assert_eq!(data.remove_map_at(2, 0), Ok(GameMap::new("Numbani", None)));
    assert_eq!(round_refs(&data)[2], (Some(2), None));
    assert!(data.check_consistent());
}

#[test]
fn move_map_corrects_only_the_rounds_of_its_gamemode() {
    let mut data = event();
    assert_eq!(data.move_map(0, 2, -2), Ok(0));
    assert_eq!(round_refs(&data)[0], (Some(0), Some(0)));
    assert_eq!(round_refs(&data)[1..], round_refs(&event())[1..]);
    let maps: Vec<String> =
        data.settings.gamemodes.get(0).unwrap().maps.list().iter().map(|m| m.name.clone()).collect();
    assert_eq!(maps, vec![String::from("Oasis"), String::from("Ilios"), String::from("Nepal")]);
    assert!(data.check_consistent());
}

#[test]
fn add_and_replace_map_change_no_round() {
    let mut data = event();
    assert_eq!(data.add_map(2), Ok(1));
    assert_eq!(data.replace_map_at(2, 1, GameMap::new("Eichenwalde", None)), Ok(()));
    assert_eq!(
        data.settings.gamemodes.get(2).unwrap().maps.get(1),
        Some(&GameMap::new("Eichenwalde", None))
    );
    assert_eq!(round_refs(&data), round_refs(&event()));
    assert!(data.check_consistent());
}

#[test]
fn map_commands_refuse_what_is_not_there() {
    let mut data = event();
    assert_eq!(data.add_map(3), Err(StateError::OutOfRange));
    assert_eq!(data.remove_map_at(3, 0), Err(StateError::OutOfRange));
    assert_eq!(data.remove_map_at(2, 1), Err(StateError::OutOfRange));
    assert_eq!(data.move_map(2, 0, 1), Err(StateError::OutOfRange));
    assert_eq!(data.move_map(3, 0, 0), Err(StateError::OutOfRange));
    assert_eq!(data.replace_map_at(1, 2, GameMap::default()), Err(StateError::OutOfRange));
    assert_eq!(data, event());
    assert!(data.map_exists(1, 1));
    assert!(!data.map_exists(1, 2));
    assert!(!data.map_exists(3, 0));
}

#[test]
fn asset_commands_change_only_the_assets() {
    let mut data = event();
    assert_eq!(data.add_asset(), 2);
    assert_eq!(data.assets.get(2), Some(&Asset::default()));
    assert_eq!(data.replace_asset_at(2, Asset::new("icon", "icon.png")), Ok(()));
    assert_eq!(data.move_asset(2, -2), Ok(0));
    assert_eq!(
        data.assets.list(),
        &vec![
            Asset::new("icon", "icon.png"),
            Asset::new("logo", "logo.png"),
            Asset::new("back", "back.png")
        ]
    );
    assert_eq!(data.remove_asset_at(0), Ok(Asset::new("icon", "icon.png")));
    assert_eq!(data, event());
    assert_eq!(data.remove_asset_at(2), Err(StateError::OutOfRange));
    assert_eq!(data.move_asset(1, 1), Err(StateError::OutOfRange));
    assert_eq!(data.replace_asset_at(2, Asset::default()), Err(StateError::OutOfRange));
    assert_eq!(data, event());
}

#[test]
fn image_and_string_commands_change_only_their_list() {
    let mut data = event();
    assert_eq!(data.add_image(), 1);
    assert_eq!(data.resources.images.get(1), Some(&ResourcePair::default()));
    assert_eq!(data.move_image(1, -1), Ok(0));
    assert_eq!(data.replace_image_at(0, ResourcePair::new("flag", "flag.png")), Ok(()));
    assert_eq!(data.remove_image_at(0), Ok(ResourcePair::new("flag", "flag.png")));
    assert_eq!(data.add_string(), 2);
    assert_eq!(data.move_string(0, 2), Ok(2));
    assert_eq!(data.replace_string_at(1, ResourcePair::new("x", "y")), Ok(()));
    assert_eq!(data.remove_string_at(1), Ok(ResourcePair::new("x", "y")));
    assert_eq!(
        data.resources.strings.list(),
        &vec![ResourcePair::new("host", "me"), ResourcePair::new("motto", "gg")]
    );
    assert_eq!(data.remove_image_at(1), Err(StateError::OutOfRange));
    assert_eq!(data.move_image(0, 1), Err(StateError::OutOfRange));
    assert_eq!(data.replace_image_at(1, ResourcePair::default()), Err(StateError::OutOfRange));
    assert_eq!(data.remove_string_at(2), Err(StateError::OutOfRange));
    assert_eq!(data.move_string(0, -1), Err(StateError::OutOfRange));
    assert_eq!(data.replace_string_at(2, ResourcePair::default()), Err(StateError::OutOfRange));
    assert_eq!(data.division, event().division);
    assert_eq!(data.current_match, event().current_match);
}

#[test]
fn matchup_setters_enter_one_field() {
    let mut data = event();
    assert_eq!(data.set_matchup_team1(1, 0, Some(2)), Ok(()));
    assert_eq!(data.set_matchup_team2(1, 0, None), Ok(()));
    assert_eq!(data.set_matchup_team1_score(1, 0, 3), Ok(()));
    assert_eq!(data.set_matchup_team2_score(1, 0, 1), Ok(()));
    assert_eq!(data.set_matchup_completed(1, 0, true), Ok(()));
    assert_eq!(data.division.bracket[1][0], Some(Matchup::new(Some(2), None, 3, 1, true)));
    assert_eq!(data.division.bracket[0], event().division.bracket[0]);
    assert!(data.check_consistent());
}

#[test]
fn matchup_setters_fill_an_empty_slot() {
    let mut data = event();
    assert_eq!(data.set_matchup(0, 1, None), Ok(()));
    assert_eq!(data.division.bracket[0][1], None);
    assert_eq!(data.matchup_at(0, 1), Some(None));
    assert_eq!(data.set_matchup_team2_score(0, 1, 7), Ok(()));
    assert_eq!(data.division.bracket[0][1], Some(Matchup::new(None, None, 0, 7, false)));
    assert_eq!(data.set_matchup(0, 1, None), Ok(()));
    assert_eq!(data.set_matchup_team1(0, 1, Some(3)), Ok(()));
    assert_eq!(data.division.bracket[0][1], Some(Matchup::new(Some(3), None, 0, 0, false)));
    assert_eq!(data.set_matchup(0, 1, None), Ok(()));
    assert_eq!(data.set_matchup_completed(0, 1, true), Ok(()));
    assert_eq!(data.division.bracket[0][1], Some(Matchup::new(None, None, 0, 0, true)));
}

#[test]
fn matchup_setters_refuse_unknown_slots_and_teams() {
    let mut data = event();
    assert_eq!(data.set_matchup_team1(2, 0, None), Err(StateError::OutOfRange));
    assert_eq!(data.set_matchup_team2(1, 1, None), Err(StateError::OutOfRange));
    assert_eq!(data.set_matchup_team1_score(0, 2, 1), Err(StateError::OutOfRange));
    assert_eq!(data.set_matchup_team2_score(5, 0, 1), Err(StateError::OutOfRange));
    assert_eq!(data.set_matchup_completed(2, 2, true), Err(StateError::OutOfRange));
    assert_eq!(data.set_matchup(2, 0, None), Err(StateError::OutOfRange));
    assert_eq!(data.set_matchup_team1(0, 0, Some(4)), Err(StateError::InvalidReference));
    assert_eq!(data.set_matchup_team2(0, 0, Some(9)), Err(StateError::InvalidReference));
    assert_eq!(
        data.set_matchup(0, 0, Some(Matchup::new(Some(0), Some(4), 0, 0, false))),
        Err(StateError::InvalidReference)
    );
    assert_eq!(
        data.set_matchup(9, 9, Some(Matchup::new(Some(9), None, 0, 0, false))),
        Err(StateError::OutOfRange)
    );
    assert_eq!(data.matchup_at(2, 0), None);
    assert_eq!(data, event());
}

#[test]
fn round_setters_enter_one_field() {
    let mut data = event();
    assert_eq!(data.set_round_team1_score(4, 2), Ok(()));
    assert_eq!(data.set_round_team2_score(4, 3), Ok(()));
    assert_eq!(data.set_round_completed(4, true), Ok(()));
    assert_eq!(data.set_round_gamemode(4, Some(1)), Ok(()));
    assert_eq!(data.set_round_map(4, Some(1)), Ok(()));
    assert_eq!(data.current_match.rounds[4], Round::new(Some(1), Some(1), 2, 3, true));
    assert_eq!(data.round_at(4), Some(Round::new(Some(1), Some(1), 2, 3, true)));
    assert_eq!(data.current_match.rounds[..4], event().current_match.rounds[..4]);
    assert_eq!(data.set_round_map(4, None), Ok(()));
    assert_eq!(data.current_match.rounds[4].map, None);
    assert!(data.check_consistent());
}

#[test]
fn round_setters_refuse_unknown_rounds_and_references() {
    let mut data = event();
    assert_eq!(data.set_round_team1_score(5, 1), Err(StateError::OutOfRange));
    assert_eq!(data.set_round_team2_score(5, 1), Err(StateError::OutOfRange));
    assert_eq!(data.set_round_completed(5, true), Err(StateError::OutOfRange));
    assert_eq!(data.set_round_gamemode(5, Some(0)), Err(StateError::OutOfRange));
    assert_eq!(data.set_round_map(5, None), Err(StateError::OutOfRange));
    assert_eq!(data.set_round_gamemode(0, Some(3)), Err(StateError::InvalidReference));
    assert_eq!(data.set_round_map(0, Some(3)), Err(StateError::InvalidReference));
    assert_eq!(data.set_round_map(1, Some(2)), Err(StateError::InvalidReference));
    assert_eq!(data.set_round_map(4, Some(0)), Err(StateError::InvalidReference));
    assert_eq!(data.round_at(5), None);
    assert_eq!(data, event());
}

#[test]
fn match_setters_choose_teams() {
    let mut data = event();
    assert_eq!(data.set_match_team1(Some(3)), Ok(()));
    assert_eq!(data.set_match_team2(None), Ok(()));
    data.set_swap_scoreboard(true);
    assert_eq!(data.current_match.team1, Some(3));
    assert_eq!(data.current_match.team2, None);
    assert!(data.current_match.swap_scoreboard);
    assert_eq!(data.set_match_team1(Some(4)), Err(StateError::InvalidReference));
    assert_eq!(data.set_match_team2(Some(4)), Err(StateError::InvalidReference));
    assert_eq!(data.current_match.team1, Some(3));
    assert!(data.check_consistent());
}

#[test]
fn event_name_can_be_set() {
    let mut data = event();
    data.set_event_name("Finals Day");
    assert_eq!(data.settings.event_name, "Finals Day");
    assert_eq!(data.division, event().division);
}

#[test]
fn correct_references_reaches_every_dependent() {
    let mut data = event();
    data.correct_references(CorrectionTarget::Teams, ListEdit::Removed(3));
    assert_eq!(
        team_refs(&data),
        vec![(Some(0), Some(1)), (Some(2), None), (Some(0), None), (Some(1), Some(2))]
    );
    let mut data = event();
    data.correct_references(CorrectionTarget::Roles, ListEdit::Removed(2));
    assert_eq!(roles_of(&data), vec![Some(0), None, Some(1), None, None]);
    let mut data = event();
    data.correct_references(CorrectionTarget::Characters, ListEdit::Moved(3, 0));
    assert_eq!(characters_of(&data), vec![Some(3), Some(1), Some(2), Some(0), None]);
    let mut data = event();
    data.correct_references(CorrectionTarget::Gamemodes, ListEdit::Inserted(1));
    assert_eq!(
        round_refs(&data),
        vec![(Some(0), Some(2)), (Some(2), Some(1)), (Some(3), Some(0)), (Some(2), None), (None, None)]
    );
    let mut data = event();
    data.correct_references(CorrectionTarget::Maps(0), ListEdit::Removed(2));
    assert_eq!(round_refs(&data)[0], (Some(0), None));
    assert_eq!(round_refs(&data)[1..], round_refs(&event())[1..]);
    let mut data = event();
    data.correct_bracket(ListEdit::Inserted(0));
    assert_eq!(
        team_refs(&data),
        vec![(Some(1), Some(2)), (Some(3), Some(4)), (Some(1), Some(4)), (Some(2), Some(3))]
    );
}
