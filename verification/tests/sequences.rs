use live_scoreboard::models::{Matchup, Player, SaveData};

struct Dice(u64);

impl Dice {
    fn roll(&mut self, sides: usize) -> usize {
        self.0 = self.0.wrapping_mul(6364136223846793005).wrapping_add(1442695040888963407);
        ((self.0 >> 33) as usize) % sides
    }

    fn reference(&mut self, len: usize) -> Option<usize> {
        match self.roll(len + 2) {
            0 => None,
            n => Some(n - 1),
        }
    }

    fn delta(&mut self) -> i32 {
        self.roll(7) as i32 - 3
    }
}

fn step(data: &mut SaveData, dice: &mut Dice) {
    let teams = data.division.teams.len();
    let roles = data.settings.roles.len();
    let characters = data.settings.characters.len();
    let gamemodes = data.settings.gamemodes.len();
    match dice.roll(30) {
        0 => {
            data.add_team();
        }
        1 => {
            let _ = data.remove_team_at(dice.roll(teams + 1));
        }
        2 => {
            let _ = data.move_team(dice.roll(teams + 1), dice.delta());
        }
        3 => {
            let _ = data.add_player(dice.roll(teams + 1));
        }
        4 => {
            let _ = data.remove_player_at(dice.roll(teams + 1), dice.roll(3));
        }
        5 => {
            let _ = data.move_player(dice.roll(teams + 1), dice.roll(3), dice.delta());
        }
        6 => {
            let player = Player::new("p", dice.reference(roles), dice.reference(characters));
            let _ = data.replace_player_at(dice.roll(teams + 1), dice.roll(3), player);
        }
        7 => {
            data.add_role();
        }
        8 => {
            let _ = data.remove_role_at(dice.roll(roles + 1));
        }
        9 => {
            let _ = data.move_role(dice.roll(roles + 1), dice.delta());
        }
        10 => {
            data.add_character();
        }
        11 => {
            let _ = data.remove_character_at(dice.roll(characters + 1));
        }
        12 => {
            let _ = data.move_character(dice.roll(characters + 1), dice.delta());
        }
        13 => {
            data.add_gamemode();
        }
        14 => {
            let _ = data.remove_gamemode_at(dice.roll(gamemodes + 1));
        }
        15 => {
            let _ = data.move_gamemode(dice.roll(gamemodes + 1), dice.delta());
        }
        16 => {
            let _ = data.add_map(dice.roll(gamemodes + 1));
        }
        17 => {
            let _ = data.remove_map_at(dice.roll(gamemodes + 1), dice.roll(3));
        }
        18 => {
            let _ = data.move_map(dice.roll(gamemodes + 1), dice.roll(3), dice.delta());
        }
        19 => {
            data.set_round_count(dice.roll(7));
        }
        20 => {
            data.set_bracket_stage_count(dice.roll(5));
        }
        21 => {
            let round = dice.roll(7);
            let _ = data.set_round_gamemode(round, dice.reference(gamemodes));
        }
        22 => {
            let round = dice.roll(7);
            let _ = data.set_round_map(round, dice.reference(2));
        }
        23 => {
            let _ = data.set_match_team1(dice.reference(teams));
        }
        24 => {
            let _ = data.set_match_team2(dice.reference(teams));
        }
        25 => {
            let (stage, slot) = (dice.roll(5), dice.roll(9));
            let _ = data.set_matchup_team1(stage, slot, dice.reference(teams));
        }
        26 => {
            let (stage, slot) = (dice.roll(5), dice.roll(9));
            let _ = data.set_matchup_team2(stage, slot, dice.reference(teams));
        }
        27 => {
            let (stage, slot) = (dice.roll(5), dice.roll(9));
            let matchup = Matchup::new(dice.reference(teams), dice.reference(teams), 1, 2, true);
            let _ = data.set_matchup(stage, slot, Some(matchup));
        }
        28 => {
            let (stage, slot) = (dice.roll(5), dice.roll(9));
            let _ = data.set_matchup_team1_score(stage, slot, dice.roll(9));
        }
        _ => {
            let round = dice.roll(7);
            let _ = data.set_round_team2_score(round, dice.roll(9));
        }
    }
}

#[test]
fn every_command_sequence_keeps_the_state_consistent() {
    for seed in 0..40u64 {
        let mut dice = Dice(seed.wrapping_mul(0x9E3779B97F4A7C15).wrapping_add(7));
        let mut data = SaveData::default();
        data.synchronize();
        assert!(data.check_consistent());
        for _ in 0..400 {
            step(&mut data, &mut dice);
            assert!(data.check_references());
            assert!(data.check_sizes());
        }
    }
}

#[test]
fn references_follow_their_teams_through_command_sequences() {
    for seed in 0..20u64 {
        let mut dice = Dice(seed.wrapping_mul(0x2545F4914F6CDD1D).wrapping_add(3));
        let mut data = SaveData::default();
        data.synchronize();
        for n in 0..6 {
            let at = data.add_team();
            let mut team = data.division.teams.get(at).unwrap().clone();
            team.name = format!("team {}", n);
            assert!(data.replace_team_at(at, team).is_ok());
        }
        assert!(data.set_match_team1(Some(2)).is_ok());
        assert!(data.set_match_team2(Some(4)).is_ok());
        let mut first = Some(String::from("team 2"));
        let mut second = Some(String::from("team 4"));
        for _ in 0..60 {
            let teams = data.division.teams.len();
            if dice.roll(3) == 0 {
                let at = dice.roll(teams + 1);
                if let Ok(removed) = data.remove_team_at(at) {
                    if first.as_ref() == Some(&removed.name) {
                        first = None;
                    }
                    if second.as_ref() == Some(&removed.name) {
                        second = None;
                    }
                }
            } else {
                let _ = data.move_team(dice.roll(teams + 1), dice.delta());
            }
            let names = data.team_names();
            assert_eq!(data.current_match.team1.map(|t| names[t].clone()), first);
            assert_eq!(data.current_match.team2.map(|t| names[t].clone()), second);
        }
    }
}
