use live_scoreboard::models::{
    Asset, Character, Division, GameMap, Gamemode, Match, Matchup, Player, ResourcePair,
    Resources, Role, Round, SaveData, Settings, Team,
};

#[test]
fn vocabulary_entries_hold_what_they_are_given() {
    let map = GameMap::new("Dust", Some(String::from("dust.png")));
    assert_eq!(map.name, "Dust");
    assert_eq!(map.icon, Some(String::from("dust.png")));
    let role = Role::new("Tank", None);
    assert_eq!(role.name, "Tank");
    assert_eq!(role.icon, None);
    let character = Character::new("Ana", Some(String::from("ana.png")));
    assert_eq!(character.name, "Ana");
    assert_eq!(character.icon, Some(String::from("ana.png")));
    let gamemode = Gamemode::new("Control", None, vec![map.clone()]);
    assert_eq!(gamemode.name, "Control");
    assert_eq!(gamemode.maps.list(), &vec![map]);
}

#[test]
fn vocabulary_entries_start_neutral() {
    assert_eq!(GameMap::default(), GameMap::new("New Map", None));
    assert_eq!(Role::default(), Role::new("New Role", None));
    assert_eq!(Character::default(), Character::new("New Character", None));
    assert_eq!(Gamemode::default(), Gamemode::new("New Gamemode", None, Vec::new()));
}

#[test]
fn assets_and_resources_hold_what_they_are_given() {
    let asset = Asset::new("logo", "/assets/logo.png");
    assert_eq!(asset.name, "logo");
    assert_eq!(asset.path, "/assets/logo.png");
    assert_eq!(Asset::default(), Asset::new("New Asset", "(none)"));
    let pair = ResourcePair::new("motto", "gg");
    assert_eq!(pair.name, "motto");
    assert_eq!(pair.value, "gg");
    assert_eq!(ResourcePair::default(), ResourcePair::new("New Resource", ""));
    let resources = Resources::new(vec![pair.clone()], Vec::new());
    assert_eq!(resources.images.list(), &vec![pair]);
    assert!(resources.strings.is_empty());
    let empty = Resources::default();
    assert!(empty.images.is_empty());
    assert!(empty.strings.is_empty());
}

#[test]
fn players_and_teams_hold_what_they_are_given() {
    let player = Player::new("Ann", Some(1), None);
    assert_eq!(player.name, "Ann");
    assert_eq!(player.role, Some(1));
    assert_eq!(player.character, None);
    assert_eq!(Player::default(), Player::new("New Player", None, None));
    let team = Team::new("Red", Some(String::from("red.png")), vec![player.clone()]);
    assert_eq!(team.name, "Red");
    assert_eq!(team.icon, Some(String::from("red.png")));
    assert_eq!(team.players.list(), &vec![player]);
    assert_eq!(Team::default(), Team::new("New Team", None, Vec::new()));
}

#[test]
fn matchup_is_filled_with_both_teams() {
    assert!(Matchup::new(Some(0), Some(1), 0, 0, false).is_filled());
    assert!(!Matchup::new(Some(0), None, 3, 1, true).is_filled());
    assert!(!Matchup::new(None, Some(1), 0, 0, false).is_filled());
    assert!(!Matchup::default().is_filled());
}

#[test]
fn matchup_and_round_start_neutral() {
    assert_eq!(Matchup::default(), Matchup::new(None, None, 0, 0, false));
    assert_eq!(Round::default(), Round::new(None, None, 0, 0, false));
    let round = Round::new(Some(1), Some(2), 3, 4, true);
    assert_eq!(round.gamemode, Some(1));
    assert_eq!(round.map, Some(2));
    assert_eq!(round.team1_score, 3);
    assert_eq!(round.team2_score, 4);
    assert!(round.completed);
}

#[test]
fn match_counts_the_rounds_that_were_strictly_won() {
    let rounds = vec![
        Round::new(None, None, 2, 1, true),
        Round::new(None, None, 0, 3, true),
        Round::new(None, None, 1, 1, true),
        Round::new(None, None, 5, 4, false),
        Round::new(None, None, 0, 0, false),
    ];
    let current = Match::new(rounds, Some(0), Some(1), false);
    assert_eq!(current.team1_score(), 2);
    assert_eq!(current.team2_score(), 1);
}

#[test]
fn match_without_rounds_has_no_score() {
    let current = Match::default();
    assert_eq!(current.team1_score(), 0);
    assert_eq!(current.team2_score(), 0);
    assert_eq!(current.team1, None);
    assert_eq!(current.team2, None);
    assert!(!current.swap_scoreboard);
}

#[test]
fn division_without_a_bracket_gets_three_empty_stages() {
    let division = Division::new(Vec::new(), None);
    assert_eq!(
        division.bracket,
        vec![vec![None, None, None, None], vec![None, None], vec![None]]
    );
    assert_eq!(division, Division::default());
}

#[test]
fn division_keeps_the_bracket_it_is_given() {
    let bracket = vec![vec![Some(Matchup::new(Some(0), Some(1), 1, 0, true))]];
    let division = Division::new(vec![Team::default(), Team::default()], Some(bracket.clone()));
    assert_eq!(division.bracket, bracket);
    assert_eq!(division.teams.len(), 2);
}

#[test]
fn settings_start_with_five_rounds_and_three_stages() {
    let settings = Settings::default();
    assert_eq!(settings.event_name, "New Event");
    assert_eq!(settings.round_count, 5);
    assert_eq!(settings.bracket_stage_count, 3);
    assert!(settings.gamemodes.is_empty());
    assert!(settings.roles.is_empty());
    assert!(settings.characters.is_empty());
    assert_eq!(settings, Settings::new("New Event", 5, 3, Vec::new(), Vec::new(), Vec::new()));
}

#[test]
fn save_data_is_made_of_its_parts() {
    let settings = Settings::new("Cup", 3, 2, Vec::new(), vec![Role::default()], Vec::new());
    let division = Division::new(vec![Team::default()], None);
    let assets = vec![Asset::new("logo", "logo.png")];
    let resources = Resources::default();
    let current = Match::new(vec![Round::default()], Some(0), None, true);
    let data = SaveData::new(
        settings.clone(),
        division.clone(),
        assets.clone(),
        resources.clone(),
        current.clone(),
    );
    assert_eq!(data.settings, settings);
    assert_eq!(data.division, division);
    assert_eq!(data.assets.list(), &assets);
    assert_eq!(data.resources, resources);
    assert_eq!(data.current_match, current);
}

#[test]
fn default_save_data_is_a_new_event() {
    let data = SaveData::default();
    assert_eq!(data.settings, Settings::default());
    assert_eq!(data.division, Division::default());
    assert!(data.assets.is_empty());
    assert_eq!(data.resources, Resources::default());
    assert_eq!(data.current_match, Match::default());
    assert!(data.check_references());
    assert!(!data.check_sizes());
}
