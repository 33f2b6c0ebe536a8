use live_scoreboard::error::StateError;
use live_scoreboard::models::{
    Division, GameMap, Gamemode, Match, Matchup, Resources, Round, SaveData, Settings, Team,
};

fn team(name: &str) -> Team {
    Team::new(name, None, Vec::new())
}

fn names(data: &SaveData) -> Vec<String> {
    data.team_names()
}

#[test]
fn removing_a_team_shifts_the_references_behind_it() {
    let matchup = Matchup::new(Some(0), Some(2), 0, 0, false);
    let mut data = SaveData::new(
        Settings::new("Cup", 0, 1, Vec::new(), Vec::new(), Vec::new()),
        Division::new(vec![team("A"), team("B"), team("C")], Some(vec![vec![Some(matchup)]])),
        Vec::new(),
        Resources::default(),
        Match::default(),
    );
    let removed = data.remove_team_at(1);
    assert_eq!(removed, Ok(team("B")));
    assert_eq!(
        data.division.bracket[0][0],
        Some(Matchup::new(Some(0), Some(1), 0, 0, false))
    );
    assert_eq!(names(&data), vec![String::from("A"), String::from("C")]);
}

#[test]
fn removing_a_team_clears_the_references_to_it() {
    let matchup = Matchup::new(Some(1), Some(2), 4, 2, true);
    let mut data = SaveData::new(
        Settings::new("Cup", 0, 1, Vec::new(), Vec::new(), Vec::new()),
        Division::new(vec![team("A"), team("B"), team("C")], Some(vec![vec![Some(matchup)]])),
        Vec::new(),
        Resources::default(),
        Match::new(Vec::new(), Some(1), Some(0), false),
    );
    assert!(data.remove_team_at(1).is_ok());
    assert_eq!(
        data.division.bracket[0][0],
        Some(Matchup::new(None, Some(1), 4, 2, true))
    );
    assert_eq!(data.current_match.team1, None);
    assert_eq!(data.current_match.team2, Some(0));
}

#[test]
fn growing_the_bracket_keeps_the_finals() {
    let finals = Matchup::new(Some(0), Some(1), 0, 0, false);
    let mut data = SaveData::new(
        Settings::new("Cup", 0, 2, Vec::new(), Vec::new(), Vec::new()),
        Division::new(
            vec![team("A"), team("B")],
            Some(vec![vec![None, None], vec![Some(finals)]]),
        ),
        Vec::new(),
        Resources::default(),
        Match::default(),
    );
    data.set_bracket_stage_count(3);
    let sizes: Vec<usize> = data.division.bracket.iter().map(|stage| stage.len()).collect();
    assert_eq!(sizes, vec![4, 2, 1]);
    assert_eq!(data.division.bracket[2][0], Some(finals));
    assert_eq!(data.division.bracket[2][0].unwrap().team1, Some(0));
    assert_eq!(data.division.bracket[2][0].unwrap().team2, Some(1));
    assert!(data.division.bracket[0].iter().all(|slot| slot.is_none()));
}

#[test]
fn changing_the_gamemode_of_a_round_clears_its_map() {
    let maps = vec![GameMap::default(), GameMap::default(), GameMap::default()];
    let gamemodes = vec![
        Gamemode::new("Control", None, maps),
        Gamemode::new("Escort", None, vec![GameMap::default()]),
    ];
    let mut data = SaveData::new(
        Settings::new("Cup", 1, 3, gamemodes, Vec::new(), Vec::new()),
        Division::default(),
        Vec::new(),
        Resources::default(),
        Match::new(vec![Round::new(Some(0), Some(2), 0, 0, false)], None, None, false),
    );
    assert!(data.check_consistent());
    assert_eq!(data.set_round_gamemode(0, Some(1)), Ok(()));
    assert_eq!(data.current_match.rounds[0], Round::new(Some(1), None, 0, 0, false));
    assert!(data.check_consistent());
}

#[test]
fn choosing_the_same_gamemode_again_keeps_the_map() {
    let maps = vec![GameMap::default(), GameMap::default(), GameMap::default()];
    let mut data = SaveData::new(
        Settings::new("Cup", 1, 3, vec![Gamemode::new("Control", None, maps)], Vec::new(), Vec::new()),
        Division::default(),
        Vec::new(),
        Resources::default(),
        Match::new(vec![Round::new(Some(0), Some(2), 1, 0, true)], None, None, false),
    );
    assert_eq!(data.set_round_gamemode(0, Some(0)), Ok(()));
    assert_eq!(data.current_match.rounds[0], Round::new(Some(0), Some(2), 1, 0, true));
    assert_eq!(data.set_round_gamemode(0, None), Ok(()));
    assert_eq!(data.current_match.rounds[0], Round::new(None, None, 1, 0, true));
}

#[test]
fn round_count_from_three_to_five_keeps_the_first_three() {
    let rounds = vec![
        Round::new(None, None, 2, 0, true),
        Round::new(None, None, 1, 2, true),
        Round::new(None, None, 0, 0, false),
    ];
    let mut data = SaveData::new(
        Settings::new("Cup", 3, 3, Vec::new(), Vec::new(), Vec::new()),
        Division::default(),
        Vec::new(),
        Resources::default(),
        Match::new(rounds.clone(), None, None, false),
    );
    data.set_round_count(5);
    assert_eq!(data.current_match.rounds[..3], rounds[..]);
    assert_eq!(data.current_match.rounds[3..], vec![Round::default(), Round::default()][..]);
}

#[test]
fn refused_commands_change_nothing() {
    let mut data = SaveData::default();
    data.synchronize();
    data.add_team();
    let before = data.clone();
    assert_eq!(data.remove_team_at(1), Err(StateError::OutOfRange));
    assert_eq!(data.move_team(0, 1), Err(StateError::OutOfRange));
    assert_eq!(data.replace_team_at(3, Team::default()), Err(StateError::OutOfRange));
    assert_eq!(data.set_match_team1(Some(1)), Err(StateError::InvalidReference));
    assert_eq!(data.set_round_gamemode(0, Some(0)), Err(StateError::InvalidReference));
    assert_eq!(data.set_round_gamemode(5, None), Err(StateError::OutOfRange));
    assert_eq!(data.set_round_map(0, Some(0)), Err(StateError::InvalidReference));
    assert_eq!(data.set_matchup_team1(0, 0, Some(1)), Err(StateError::InvalidReference));
    assert_eq!(data.set_matchup_team1(0, 4, None), Err(StateError::OutOfRange));
    assert_eq!(data.set_matchup_team1(3, 0, None), Err(StateError::OutOfRange));
    assert_eq!(data, before);
}
