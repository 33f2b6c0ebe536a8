//! The entities of a tournament and how they refer to each other.
//!
//! A reference is the position of an entity in the collection that owns it: a
//! team in the division's teams, a role or a character in the settings'
//! vocabularies, a gamemode in the settings' gamemodes, a map in the maps of
//! the gamemode that the same round has chosen.

use vstd::prelude::*;
use crate::store::EntityStore;
use vstd::arithmetic::power2::lemma2_to64;
use crate::bracket::{empty_slots, empty_stage, stages_of};

verus! {

/// A map that a gamemode can be played on.
#[derive(Debug, Clone, PartialEq, Eq, Hash)]
pub struct GameMap {
    pub name: String,
    pub icon: Option<String>,
}

impl GameMap {
    pub fn new(name: &str, icon: Option<String>) -> (map: Self)
        ensures
            map.name@ == name@,
            map.icon == icon,
    {
        GameMap { name: name.to_owned(), icon }
    }
}

impl GameMap {
    /// Whether this is the map that a new entry starts as.
    pub open spec fn is_neutral(self) -> bool {
        self.name@ == "New Map"@ && self.icon is None
    }
}

impl Default for GameMap {
    fn default() -> (map: Self)
        ensures
            map.is_neutral(),
    {
        GameMap::new("New Map", None)
    }
}

/// A gamemode, with the maps that belong to it. Its maps are counted on their
/// own: the third map of one gamemode has nothing to do with the third of another.
#[derive(Debug, Clone, PartialEq, Eq, Hash)]
pub struct Gamemode {
    pub name: String,
    pub icon: Option<String>,
    pub maps: EntityStore<GameMap>,
}

impl Gamemode {
    pub fn new(name: &str, icon: Option<String>, maps: Vec<GameMap>) -> (gamemode: Self)
        ensures
            gamemode.name@ == name@,
            gamemode.icon == icon,
            gamemode.maps@ == maps@,
    {
        Gamemode { name: name.to_owned(), icon, maps: EntityStore::from_vec(maps) }
    }
}

impl Gamemode {
    /// Whether this is the gamemode that a new entry starts as.
    pub open spec fn is_neutral(self) -> bool {
        self.name@ == "New Gamemode"@ && self.icon is None && self.maps@.len() == 0
    }
}

impl Default for Gamemode {
    fn default() -> (gamemode: Self)
        ensures
            gamemode.is_neutral(),
    {
        Gamemode::new("New Gamemode", None, Vec::new())
    }
}

/// A role that a player can have.
#[derive(Debug, Clone, PartialEq, Eq, Hash)]
pub struct Role {
    pub name: String,
    pub icon: Option<String>,
}

impl Role {
    pub fn new(name: &str, icon: Option<String>) -> (role: Self)
        ensures
            role.name@ == name@,
            role.icon == icon,
    {
        Role { name: name.to_owned(), icon }
    }
}

impl Role {
    /// Whether this is the role that a new entry starts as.
    pub open spec fn is_neutral(self) -> bool {
        self.name@ == "New Role"@ && self.icon is None
    }
}

impl Default for Role {
    fn default() -> (role: Self)
        ensures
            role.is_neutral(),
    {
        Role::new("New Role", None)
    }
}

/// A character that a player can play.
#[derive(Debug, Clone, PartialEq, Eq, Hash)]
pub struct Character {
    pub name: String,
    pub icon: Option<String>,
}

impl Character {
    pub fn new(name: &str, icon: Option<String>) -> (character: Self)
        ensures
            character.name@ == name@,
            character.icon == icon,
    {
        Character { name: name.to_owned(), icon }
    }
}

impl Character {
    /// Whether this is the character that a new entry starts as.
    pub open spec fn is_neutral(self) -> bool {
        self.name@ == "New Character"@ && self.icon is None
    }
}

impl Default for Character {
    fn default() -> (character: Self)
        ensures
            character.is_neutral(),
    {
        Character::new("New Character", None)
    }
}

/// A file that the overlay shows, under the name by which templates ask for it.
#[derive(Debug, Clone, PartialEq, Eq, Hash)]
pub struct Asset {
    pub name: String,
    pub path: String,
}

impl Asset {
    pub fn new(name: &str, path: &str) -> (asset: Self)
        ensures
            asset.name@ == name@,
            asset.path@ == path@,
    {
        Asset { name: name.to_owned(), path: path.to_owned() }
    }
}

impl Asset {
    /// Whether this is the asset that a new entry starts as.
    pub open spec fn is_neutral(self) -> bool {
        self.name@ == "New Asset"@ && self.path@ == "(none)"@
    }
}

impl Default for Asset {
    fn default() -> (asset: Self)
        ensures
            asset.is_neutral(),
    {
        Asset::new("New Asset", "(none)")
    }
}

/// A named value that templates can ask for.
#[derive(Debug, Clone, PartialEq, Eq, Hash)]
pub struct ResourcePair {
    pub name: String,
    pub value: String,
}

impl ResourcePair {
    pub fn new(name: &str, value: &str) -> (pair: Self)
        ensures
            pair.name@ == name@,
            pair.value@ == value@,
    {
        ResourcePair { name: name.to_owned(), value: value.to_owned() }
    }
}

impl ResourcePair {
    /// Whether this is the pair that a new entry starts as.
    pub open spec fn is_neutral(self) -> bool {
        self.name@ == "New Resource"@ && self.value@.len() == 0
    }
}

impl Default for ResourcePair {
    fn default() -> (pair: Self)
        ensures
            pair.is_neutral(),
    {
        proof {
            reveal_strlit("");
        }
        ResourcePair::new("New Resource", "")
    }
}

/// The named images and texts of an event.
#[derive(Debug, Clone, PartialEq, Eq, Hash)]
pub struct Resources {
    pub images: EntityStore<ResourcePair>,
    pub strings: EntityStore<ResourcePair>,
}

impl Resources {
    pub fn new(images: Vec<ResourcePair>, strings: Vec<ResourcePair>) -> (resources: Self)
        ensures
            resources.images@ == images@,
            resources.strings@ == strings@,
    {
        Resources {
            images: EntityStore::from_vec(images),
            strings: EntityStore::from_vec(strings),
        }
    }
}

impl Default for Resources {
    fn default() -> (resources: Self)
        ensures
            resources.images@.len() == 0,
            resources.strings@.len() == 0,
    {
        Resources::new(Vec::new(), Vec::new())
    }
}

/// A player of a team. `role` and `character` are positions in the settings'
/// roles and characters.
#[derive(Debug, Clone, PartialEq, Eq, Hash)]
pub struct Player {
    pub name: String,
    pub role: Option<usize>,
    pub character: Option<usize>,
}

impl Player {
    pub fn new(name: &str, role: Option<usize>, character: Option<usize>) -> (player: Self)
        ensures
            player.name@ == name@,
            player.role == role,
            player.character == character,
    {
        Player { name: name.to_owned(), role, character }
    }
}

impl Player {
    /// Whether this is the player that a new entry starts as.
    pub open spec fn is_neutral(self) -> bool {
        self.name@ == "New Player"@ && self.role is None && self.character is None
    }
}

impl Default for Player {
    fn default() -> (player: Self)
        ensures
            player.is_neutral(),
    {
        Player::new("New Player", None, None)
    }
}

/// A team and its players.
#[derive(Debug, Clone, PartialEq, Eq, Hash)]
pub struct Team {
    pub name: String,
    pub icon: Option<String>,
    pub players: EntityStore<Player>,
}

impl Team {
    pub fn new(name: &str, icon: Option<String>, players: Vec<Player>) -> (team: Self)
        ensures
            team.name@ == name@,
            team.icon == icon,
            team.players@ == players@,
    {
        Team { name: name.to_owned(), icon, players: EntityStore::from_vec(players) }
    }
}

impl Team {
    /// Whether this is the team that a new entry starts as.
    pub open spec fn is_neutral(self) -> bool {
        self.name@ == "New Team"@ && self.icon is None && self.players@.len() == 0
    }
}

impl Default for Team {
    fn default() -> (team: Self)
        ensures
            team.is_neutral(),
    {
        Team::new("New Team", None, Vec::new())
    }
}

/// Two teams that meet in the bracket, by their positions in the division's teams.
#[derive(Debug, Clone, Copy, PartialEq, Eq, Hash)]
pub struct Matchup {
    pub team1: Option<usize>,
    pub team2: Option<usize>,
    pub team1_score: usize,
    pub team2_score: usize,
    pub completed: bool,
}

impl Matchup {
    pub fn new(
        team1: Option<usize>,
        team2: Option<usize>,
        team1_score: usize,
        team2_score: usize,
        completed: bool,
    ) -> (matchup: Self)
        ensures
            matchup == (Matchup { team1, team2, team1_score, team2_score, completed }),
    {
        Matchup { team1, team2, team1_score, team2_score, completed }
    }

    /// The matchup in which nothing has been entered.
    pub open spec fn neutral() -> Matchup {
        Matchup { team1: None, team2: None, team1_score: 0, team2_score: 0, completed: false }
    }

    /// Whether both teams have been entered.
    pub open spec fn filled(self) -> bool {
        self.team1 is Some && self.team2 is Some
    }

    /// Whether both teams have been entered.
    pub fn is_filled(&self) -> (filled: bool)
        ensures
            filled == self.filled(),
    {
        self.team1.is_some() && self.team2.is_some()
    }
}

impl Default for Matchup {
    fn default() -> (matchup: Self)
        ensures
            matchup == Matchup::neutral(),
    {
        Matchup::new(None, None, 0, 0, false)
    }
}

/// One round of the current match. `gamemode` is a position in the settings'
/// gamemodes, `map` a position in the maps of that gamemode.
#[derive(Debug, Clone, Copy, PartialEq, Eq, Hash)]
pub struct Round {
    pub gamemode: Option<usize>,
    pub map: Option<usize>,
    pub team1_score: usize,
    pub team2_score: usize,
    pub completed: bool,
}

impl Round {
    pub fn new(
        gamemode: Option<usize>,
        map: Option<usize>,
        team1_score: usize,
        team2_score: usize,
        completed: bool,
    ) -> (round: Self)
        ensures
            round == (Round { gamemode, map, team1_score, team2_score, completed }),
    {
        Round { gamemode, map, team1_score, team2_score, completed }
    }

    /// The round in which nothing has been entered.
    pub open spec fn neutral() -> Round {
        Round { gamemode: None, map: None, team1_score: 0, team2_score: 0, completed: false }
    }
}

impl Default for Round {
    fn default() -> (round: Self)
        ensures
            round == Round::neutral(),
    {
        Round::new(None, None, 0, 0, false)
    }
}

/// The match that is being played: two teams, by their positions in the
/// division's teams, and the rounds they play.
#[derive(Debug, Clone, PartialEq, Eq, Hash)]
pub struct Match {
    pub rounds: Vec<Round>,
    pub team1: Option<usize>,
    pub team2: Option<usize>,
    pub swap_scoreboard: bool,
}

/// The rounds of `rounds` that the first team won (`first`) or the second.
/// A round is won by the team with strictly more points; a draw counts for nobody.
pub open spec fn rounds_won(rounds: Seq<Round>, first: bool) -> Seq<Round> {
    rounds.filter(
        |round: Round|
            if first {
                round.team1_score > round.team2_score
            } else {
                round.team2_score > round.team1_score
            },
    )
}

impl Match {
    pub fn new(
        rounds: Vec<Round>,
        team1: Option<usize>,
        team2: Option<usize>,
        swap_scoreboard: bool,
    ) -> (current: Self)
        ensures
            current.rounds == rounds,
            current.team1 == team1,
            current.team2 == team2,
            current.swap_scoreboard == swap_scoreboard,
    {
        Match { rounds, team1, team2, swap_scoreboard }
    }

    /// The number of rounds that the first team won.
    pub fn team1_score(&self) -> (score: usize)
        ensures
            score == rounds_won(self.rounds@, true).len(),
    {
        self.count_won(true)
    }

    /// The number of rounds that the second team won.
    pub fn team2_score(&self) -> (score: usize)
        ensures
            score == rounds_won(self.rounds@, false).len(),
    {
        self.count_won(false)
    }

    fn count_won(&self, first: bool) -> (score: usize)
        ensures
            score == rounds_won(self.rounds@, first).len(),
    {
        let mut score: usize = 0;
        let mut i: usize = 0;
        proof {
            reveal(Seq::filter);
            assert(self.rounds@.take(0) =~= Seq::<Round>::empty());
        }
        while i < self.rounds.len()
            invariant
                i <= self.rounds.len(),
                score <= i,
                score == rounds_won(self.rounds@.take(i as int), first).len(),
            decreases self.rounds.len() - i,
        {
            let round = &self.rounds[i];
            let won = if first {
                round.team1_score > round.team2_score
            } else {
                round.team2_score > round.team1_score
            };
            proof {
                reveal(Seq::filter);
                assert(self.rounds@.take(i + 1).drop_last() =~= self.rounds@.take(i as int));
            }
            if won {
                score = score + 1;
            }
            i = i + 1;
        }
        proof {
            assert(self.rounds@.take(i as int) =~= self.rounds@);
        }
        score
    }
}

impl Default for Match {
    fn default() -> (current: Self)
        ensures
            current.rounds@.len() == 0,
            current.team1 is None,
            current.team2 is None,
            !current.swap_scoreboard,
    {
        Match::new(Vec::new(), None, None, false)
    }
}

/// The teams of an event and their bracket. A stage of the bracket is a list
/// of slots; a slot is empty or holds a matchup. The last stage is the final.
#[derive(Debug, Clone, PartialEq, Eq, Hash)]
pub struct Division {
    pub teams: EntityStore<Team>,
    pub bracket: Vec<Vec<Option<Matchup>>>,
}

impl Division {
    /// A division with the given teams and bracket. Without a bracket it gets
    /// one of three empty stages: four slots, two, and the final.
    pub fn new(teams: Vec<Team>, bracket: Option<Vec<Vec<Option<Matchup>>>>) -> (division: Self)
        ensures
            division.teams@ == teams@,
            bracket matches Some(given) ==> division.bracket == given,
            bracket is None ==> {
                &&& division.bracket@.len() == 3
                &&& division.bracket@[0]@ == empty_slots(4)
                &&& division.bracket@[1]@ == empty_slots(2)
                &&& division.bracket@[2]@ == empty_slots(1)
            },
    {
        let bracket = match bracket {
            Some(given) => given,
            None => {
                let mut stages: Vec<Vec<Option<Matchup>>> = Vec::new();
                stages.push(empty_stage(4));
                stages.push(empty_stage(2));
                stages.push(empty_stage(1));
                stages
            },
        };
        Division { teams: EntityStore::from_vec(teams), bracket }
    }
}

impl Default for Division {
    fn default() -> (division: Self)
        ensures
            division.teams@.len() == 0,
            division.bracket@.len() == 3,
            division.bracket@[0]@ == empty_slots(4),
            division.bracket@[1]@ == empty_slots(2),
            division.bracket@[2]@ == empty_slots(1),
    {
        Division::new(Vec::new(), None)
    }
}

/// What the operator has configured: the event's name, how many rounds a
/// match has, how many stages the bracket has, and the vocabularies.
#[derive(Debug, Clone, PartialEq, Eq, Hash)]
pub struct Settings {
    pub event_name: String,
    pub round_count: usize,
    pub bracket_stage_count: usize,
    pub gamemodes: EntityStore<Gamemode>,
    pub roles: EntityStore<Role>,
    pub characters: EntityStore<Character>,
}

impl Settings {
    pub fn new(
        event_name: &str,
        round_count: usize,
        bracket_stage_count: usize,
        gamemodes: Vec<Gamemode>,
        roles: Vec<Role>,
        characters: Vec<Character>,
    ) -> (settings: Self)
        ensures
            settings.event_name@ == event_name@,
            settings.round_count == round_count,
            settings.bracket_stage_count == bracket_stage_count,
            settings.gamemodes@ == gamemodes@,
            settings.roles@ == roles@,
            settings.characters@ == characters@,
    {
        Settings {
            event_name: event_name.to_owned(),
            round_count,
            bracket_stage_count,
            gamemodes: EntityStore::from_vec(gamemodes),
            roles: EntityStore::from_vec(roles),
            characters: EntityStore::from_vec(characters),
        }
    }
}

impl Default for Settings {
    fn default() -> (settings: Self)
        ensures
            settings.event_name@ == "New Event"@,
            settings.round_count == 5,
            settings.bracket_stage_count == 3,
            settings.gamemodes@.len() == 0,
            settings.roles@.len() == 0,
            settings.characters@.len() == 0,
    {
        Settings::new("New Event", 5, 3, Vec::new(), Vec::new(), Vec::new())
    }
}

/// Everything that is saved and loaded as one: the root of the state.
#[derive(Debug, Clone, PartialEq, Eq, Hash)]
pub struct SaveData {
    pub settings: Settings,
    pub division: Division,
    pub assets: EntityStore<Asset>,
    pub resources: Resources,
    pub current_match: Match,
}

impl SaveData {
    pub fn new(
        settings: Settings,
        division: Division,
        assets: Vec<Asset>,
        resources: Resources,
        current_match: Match,
    ) -> (data: Self)
        ensures
            data.settings == settings,
            data.division == division,
            data.assets@ == assets@,
            data.resources == resources,
            data.current_match == current_match,
    {
        SaveData {
            settings,
            division,
            assets: EntityStore::from_vec(assets),
            resources,
            current_match,
        }
    }

    /// Whether this is the state of a new event: an event named `New Event`
    /// of five rounds and three stages, no teams and no vocabulary, an empty
    /// bracket of three stages, and a match without teams and without rounds.
    pub open spec fn is_new_event(&self) -> bool {
        &&& self.settings.event_name@ == "New Event"@
        &&& self.settings.round_count == 5
        &&& self.settings.bracket_stage_count == 3
        &&& self.settings.gamemodes@.len() == 0
        &&& self.settings.roles@.len() == 0
        &&& self.settings.characters@.len() == 0
        &&& self.division.teams@.len() == 0
        &&& self.division.bracket@.len() == 3
        &&& self.division.bracket@[0]@ == empty_slots(4)
        &&& self.division.bracket@[1]@ == empty_slots(2)
        &&& self.division.bracket@[2]@ == empty_slots(1)
        &&& self.assets@.len() == 0
        &&& self.resources.images@.len() == 0
        &&& self.resources.strings@.len() == 0
        &&& self.current_match.rounds@.len() == 0
        &&& self.current_match.team1 is None
        &&& self.current_match.team2 is None
        &&& !self.current_match.swap_scoreboard
    }

    /// The state of a new event. Its references are valid, for it has none,
    /// and its bracket is as the settings ask for; its rounds are not yet:
    /// the settings ask for five, and the match has none.
    pub fn default() -> (data: Self)
        ensures
            data.is_new_event(),
            data.references_valid(),
            data.bracket_synced(),
    {
        let data = SaveData {
            settings: Settings::default(),
            division: Division::default(),
            assets: EntityStore::new(),
            resources: Resources::default(),
            current_match: Match::default(),
        };
        proof {
            lemma2_to64();
            let stages = stages_of(data.division.bracket);
            assert(stages[0] == data.division.bracket@[0]@);
            assert(stages[1] == data.division.bracket@[1]@);
            assert(stages[2] == data.division.bracket@[2]@);
        }
        data
    }
}

} // verus!
