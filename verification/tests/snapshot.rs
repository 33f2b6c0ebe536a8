use live_scoreboard::models::{
    Asset, Character, Division, Gamemode, Match, Matchup, Player, ResourcePair, Resources, Role,
    SaveData, Settings, Team,
};
use live_scoreboard::snapshot::stage_is_entered;
use live_scoreboard::store::EntityStore;

fn data_with_bracket(bracket: Vec<Vec<Option<Matchup>>>) -> SaveData {
    SaveData::new(
        Settings::default(),
        Division::new(vec![Team::default(), Team::default()], Some(bracket)),
        Vec::new(),
        Resources::default(),
        Match::default(),
    )
}

fn filled() -> Option<Matchup> {
    Some(Matchup::new(Some(0), Some(1), 0, 0, false))
}

fn half() -> Option<Matchup> {
    Some(Matchup::new(Some(0), None, 0, 0, false))
}

#[test]
fn team_names_are_in_order() {
    let data = SaveData::new(
        Settings::default(),
        Division::new(
            vec![Team::new("B", None, Vec::new()), Team::new("A", None, Vec::new())],
            None,
        ),
        Vec::new(),
        Resources::default(),
        Match::default(),
    );
    assert_eq!(data.team_names(), vec![String::from("B"), String::from("A")]);
    assert_eq!(SaveData::default().team_names(), Vec::<String>::new());
}

#[test]
fn resource_lookups_find_values_by_name() {
    let data = SaveData::new(
        Settings::default(),
        Division::default(),
        vec![Asset::new("logo", "logo.png"), Asset::new("logo", "new.png")],
        Resources::new(
            vec![ResourcePair::new("banner", "banner.png")],
            vec![ResourcePair::new("motto", "gg"), ResourcePair::new("host", "me")],
        ),
        Match::default(),
    );
    let images = data.images_hashmap();
    assert_eq!(images.len(), 1);
    assert_eq!(images.get("banner"), Some(&String::from("banner.png")));
    assert_eq!(images.get("motto"), None);
    let strings = data.strings_hashmap();
    assert_eq!(strings.len(), 2);
    assert_eq!(strings.get("motto"), Some(&String::from("gg")));
    assert_eq!(strings.get("host"), Some(&String::from("me")));
    let assets = data.assets_hashmap();
    assert_eq!(assets.len(), 1);
    assert_eq!(assets.get("logo"), Some(&String::from("new.png")));
}

#[test]
fn vocabulary_lookups_find_icons_by_name() {
    let data = SaveData::new(
        Settings::new(
            "Cup",
            0,
            3,
            vec![Gamemode::new("Control", Some(String::from("c.png")), Vec::new())],
            vec![Role::new("Tank", None), Role::new("Support", Some(String::from("s.png")))],
            vec![Character::new("Ana", Some(String::from("ana.png")))],
        ),
        Division::default(),
        Vec::new(),
        Resources::default(),
        Match::default(),
    );
    let roles = data.roles_hashmap();
    assert_eq!(roles.get("Tank"), Some(&None));
    assert_eq!(roles.get("Support"), Some(&Some(String::from("s.png"))));
    assert_eq!(roles.get("Damage"), None);
    let characters = data.characters_hashmap();
    assert_eq!(characters.get("Ana"), Some(&Some(String::from("ana.png"))));
    let gamemodes = data.gamemodes_hashmap();
    assert_eq!(gamemodes.get("Control"), Some(&Some(String::from("c.png"))));
    assert!(!gamemodes.contains_key("Escort"));
}

#[test]
fn bracket_visibilities_tell_the_filled_slots() {
    let data = data_with_bracket(vec![vec![filled(), half(), None, filled()], vec![None, None], vec![half()]]);
    assert_eq!(
        data.bracket_visibilities(),
        vec![vec![true, false, false, true], vec![false, false], vec![false]]
    );
}

#[test]
fn stage_visibilities_tell_the_stages_with_a_filled_slot() {
    let data = data_with_bracket(vec![vec![None, half()], vec![None, filled()], vec![None]]);
    assert_eq!(data.stage_visibilities(), vec![false, true, false]);
    assert!(stage_is_entered(&vec![None, filled()]));
    assert!(!stage_is_entered(&vec![None, half()]));
    assert!(!stage_is_entered(&Vec::new()));
}

#[test]
fn shown_stage_count_starts_at_the_first_entered_stage() {
    let all = data_with_bracket(vec![vec![filled(), None], vec![None], vec![None]]);
    assert_eq!(all.bracket_stage_count(), 3);
    let two = data_with_bracket(vec![vec![None, half()], vec![filled()], vec![None]]);
    assert_eq!(two.bracket_stage_count(), 2);
    let one = data_with_bracket(vec![vec![None, None], vec![None], vec![filled()]]);
    assert_eq!(one.bracket_stage_count(), 1);
    let none = data_with_bracket(vec![vec![None, None], vec![None], vec![half()]]);
    assert_eq!(none.bracket_stage_count(), 0);
    assert_eq!(data_with_bracket(Vec::new()).bracket_stage_count(), 0);
}

#[test]
fn player_info_names_roles_and_characters() {
    let roles = EntityStore::from_vec(vec![Role::new("Tank", None), Role::new("Support", None)]);
    let characters = EntityStore::from_vec(vec![Character::new("Ana", None)]);
    let team = Team::new(
        "Red",
        None,
        vec![
            Player::new("r1", Some(1), Some(0)),
            Player::new("r2", None, Some(1)),
            Player::new("r3", Some(2), None),
        ],
    );
    let none = String::from("(none)");
    assert_eq!(
        team.player_info(&roles, &characters),
        vec![
            vec![String::from("r1"), String::from("Support"), String::from("Ana")],
            vec![String::from("r2"), none.clone(), none.clone()],
            vec![String::from("r3"), none.clone(), none],
        ]
    );
}
