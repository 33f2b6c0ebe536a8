use live_scoreboard::error::StateError;
use live_scoreboard::models::{Division, Match, Matchup, Resources, Round, SaveData, Settings};
use live_scoreboard::state::AppState;

fn document(round_count: usize, stage_count: usize) -> SaveData {
    SaveData::new(
        Settings::new("Cup", round_count, stage_count, Vec::new(), Vec::new(), Vec::new()),
        Division::new(
            Vec::new(),
            Some(vec![vec![None, None], vec![Some(Matchup::new(None, None, 2, 1, true))]]),
        ),
        Vec::new(),
        Resources::default(),
        Match::new(vec![Round::new(None, None, 1, 0, true)], None, None, true),
    )
}

#[test]
fn new_state_has_no_configuration() {
    let state = AppState::default();
    assert_eq!(state.loaded_config, None);
    assert_eq!(state.get_base_path(), None);
    assert_eq!(state.data, SaveData::default());
}

#[test]
fn state_holds_what_it_is_given() {
    let state = AppState::new(Some(String::from("/home/me/event/config.json")), document(1, 2));
    assert_eq!(state.loaded_config, Some(String::from("/home/me/event/config.json")));
    assert_eq!(state.get_base_path(), Some(String::from("/home/me/event")));
    assert_eq!(state.data, document(1, 2));
}

#[test]
fn load_synchronizes_the_document() {
    let mut state = AppState::default();
    assert_eq!(state.load("/tmp/event/config.json", Some(document(3, 3))), Ok(()));
    assert_eq!(state.loaded_config, Some(String::from("/tmp/event/config.json")));
    assert_eq!(state.data.current_match.rounds.len(), 3);
    assert_eq!(state.data.current_match.rounds[0], Round::new(None, None, 1, 0, true));
    assert_eq!(state.data.current_match.rounds[1], Round::default());
    let sizes: Vec<usize> = state.data.division.bracket.iter().map(|stage| stage.len()).collect();
    assert_eq!(sizes, vec![4, 2, 1]);
    assert_eq!(state.data.division.bracket[2][0], Some(Matchup::new(None, None, 2, 1, true)));
    assert!(state.data.current_match.swap_scoreboard);
    assert!(state.data.check_consistent());
}

#[test]
fn load_without_a_document_fails_and_keeps_the_state() {
    let mut state = AppState::new(Some(String::from("/a/b.json")), document(1, 2));
    assert_eq!(state.load("/c/d.json", None), Err(StateError::SerializationError));
    assert_eq!(state.loaded_config, Some(String::from("/a/b.json")));
    assert_eq!(state.data, document(1, 2));
}

#[test]
fn load_of_a_bracket_that_cannot_be_held_fails() {
    let mut state = AppState::default();
    let result = state.load("/c/d.json", Some(document(1, usize::MAX)));
    assert_eq!(result, Err(StateError::SerializationError));
    assert_eq!(state.loaded_config, None);
    assert_eq!(state.data, SaveData::default());
}

#[test]
fn saving_sets_the_configuration_file() {
    let mut state = AppState::default();
    state.saved("/home/me/event/config.json");
    assert_eq!(state.loaded_config, Some(String::from("/home/me/event/config.json")));
    assert_eq!(state.data, SaveData::default());
}
