//! What the overlay reads from the state: names, lookups by name, which
//! parts of the bracket have something to show, and who plays what.

use vstd::prelude::*;
use vstd::hash_map::StringHashMap;
use crate::bracket::stages_of;
use crate::models::{Asset, Character, Gamemode, Matchup, ResourcePair, Role, SaveData, Team};
use crate::store::EntityStore;

verus! {

/// The lookup that a list of named values gives: each name finds its value;
/// where a name occurs twice, it finds the later value.
pub open spec fn lookup_of<V>(entries: Seq<(Seq<char>, V)>) -> Map<Seq<char>, V>
    decreases entries.len(),
{
    if entries.len() == 0 {
        Map::empty()
    } else {
        lookup_of(entries.drop_last()).insert(entries.last().0, entries.last().1)
    }
}

/// A name is found in a lookup exactly if an entry has it, and what it finds
/// is the value of the last entry that has it.
pub proof fn lemma_lookup_finds_last<V>(entries: Seq<(Seq<char>, V)>, name: Seq<char>)
    ensures
        lookup_of(entries).contains_key(name) <==> exists|i: int|
            0 <= i < entries.len() && (#[trigger] entries[i]).0 == name,
        forall|i: int|
            0 <= i < entries.len() && (#[trigger] entries[i]).0 == name && (forall|j: int|
                i < j < entries.len() ==> (#[trigger] entries[j]).0 != name) ==> lookup_of(
                entries,
            )[name] == entries[i].1,
    decreases entries.len(),
{
    if entries.len() > 0 {
        let front = entries.drop_last();
        lemma_lookup_finds_last(front, name);
        if entries.last().0 == name {
            assert(entries[entries.len() - 1].0 == name);
        } else {
            if lookup_of(entries).contains_key(name) {
                let i = choose|i: int| 0 <= i < front.len() && (#[trigger] front[i]).0 == name;
                assert(entries[i].0 == name);
            }
            if exists|i: int| 0 <= i < entries.len() && (#[trigger] entries[i]).0 == name {
                let i = choose|i: int| 0 <= i < entries.len() && (#[trigger] entries[i]).0 == name;
                assert(front[i].0 == name);
            }
        }
        assert forall|i: int|
            0 <= i < entries.len() && (#[trigger] entries[i]).0 == name && (forall|j: int|
                i < j < entries.len() ==> (#[trigger] entries[j]).0 != name) implies lookup_of(
            entries,
        )[name] == entries[i].1 by {
            if i < entries.len() - 1 {
                assert(entries[entries.len() - 1].0 != name);
                assert(front[i].0 == name);
                assert forall|j: int| i < j < front.len() implies (#[trigger] front[j]).0 != name by {
                    assert(entries[j].0 != name);
                }
            }
        }
    }
}

/// The name and the value of a resource pair.
pub open spec fn pair_entry(pair: ResourcePair) -> (Seq<char>, String) {
    (pair.name@, pair.value)
}

/// The name and the path of an asset.
pub open spec fn asset_entry(asset: Asset) -> (Seq<char>, String) {
    (asset.name@, asset.path)
}

/// The name and the icon of a role.
pub open spec fn role_entry(role: Role) -> (Seq<char>, Option<String>) {
    (role.name@, role.icon)
}

/// The name and the icon of a character.
pub open spec fn character_entry(character: Character) -> (Seq<char>, Option<String>) {
    (character.name@, character.icon)
}

/// The name and the icon of a gamemode.
pub open spec fn gamemode_entry(gamemode: Gamemode) -> (Seq<char>, Option<String>) {
    (gamemode.name@, gamemode.icon)
}

/// Whether a slot of the bracket holds a matchup with both teams entered.
pub open spec fn slot_filled(slot: Option<Matchup>) -> bool {
    slot matches Some(matchup) && matchup.filled()
}

/// Whether a stage has a slot with both teams entered.
pub open spec fn stage_entered(stage: Seq<Option<Matchup>>) -> bool {
    exists|k: int| 0 <= k < stage.len() && slot_filled(#[trigger] stage[k])
}

/// The number of stages from the first one that has something entered to
/// the final; none if nothing is entered anywhere.
pub open spec fn shown_stages(stages: Seq<Seq<Option<Matchup>>>) -> nat
    decreases stages.len(),
{
    if stages.len() == 0 {
        0
    } else if stage_entered(stages[0]) {
        stages.len()
    } else {
        shown_stages(stages.skip(1))
    }
}

/// The text that stands for a reference into a vocabulary: the name of the
/// entry it points at, or `(none)`.
pub open spec fn label_of(reference: Option<usize>, names: Seq<Seq<char>>) -> Seq<char> {
    match reference {
        Some(i) if i < names.len() => names[i as int],
        _ => "(none)"@,
    }
}

fn pair_lookup(pairs: &EntityStore<ResourcePair>) -> (lookup: StringHashMap<String>)
    ensures
        lookup@ == lookup_of(pairs@.map_values(|pair: ResourcePair| pair_entry(pair))),
{
    let list = pairs.list();
    let ghost entries = pairs@.map_values(|pair: ResourcePair| pair_entry(pair));
    let mut lookup: StringHashMap<String> = StringHashMap::new();
    let mut i: usize = 0;
    while i < list.len()
        invariant
            i <= list@.len(),
            list@ == pairs@,
            entries == pairs@.map_values(|pair: ResourcePair| pair_entry(pair)),
            lookup@ == lookup_of(entries.take(i as int)),
        decreases list@.len() - i,
    {
        proof {
            assert(entries.take(i + 1).drop_last() =~= entries.take(i as int));
        }
        lookup.insert(list[i].name.clone(), list[i].value.clone());
        i = i + 1;
    }
    proof {
        assert(entries.take(i as int) =~= entries);
    }
    lookup
}

/// Where a stage has a slot with both teams entered.
pub fn stage_is_entered(stage: &Vec<Option<Matchup>>) -> (entered: bool)
    ensures
        entered == stage_entered(stage@),
{
    let mut k: usize = 0;
    while k < stage.len()
        invariant
            k <= stage@.len(),
            forall|j: int| 0 <= j < k ==> !slot_filled(#[trigger] stage@[j]),
        decreases stage@.len() - k,
    {
        let filled = match stage[k] {
            Some(matchup) => matchup.is_filled(),
            None => false,
        };
        if filled {
            assert(slot_filled(stage@[k as int]));
            return true;
        }
        k = k + 1;
    }
    false
}

impl SaveData {
    /// The names of the teams, in their order.
    pub fn team_names(&self) -> (names: Vec<String>)
        ensures
            names@ == self.division.teams@.map_values(|team: Team| team.name),
    {
        let teams = self.division.teams.list();
        let mut names: Vec<String> = Vec::new();
        let mut t: usize = 0;
        while t < teams.len()
            invariant
                t <= teams@.len(),
                teams@ == self.division.teams@,
                names@ == self.division.teams@.take(t as int).map_values(|team: Team| team.name),
            decreases teams@.len() - t,
        {
            names.push(teams[t].name.clone());
            proof {
                assert(names@ =~= self.division.teams@.take(t + 1).map_values(
                    |team: Team| team.name,
                ));
            }
            t = t + 1;
        }
        proof {
            assert(self.division.teams@.take(t as int) =~= self.division.teams@);
        }
        names
    }

    /// The named images: each name finds its value.
    pub fn images_hashmap(&self) -> (lookup: StringHashMap<String>)
        ensures
            lookup@ == lookup_of(
                self.resources.images@.map_values(|pair: ResourcePair| pair_entry(pair)),
            ),
    {
        pair_lookup(&self.resources.images)
    }

    /// The named texts: each name finds its value.
    pub fn strings_hashmap(&self) -> (lookup: StringHashMap<String>)
        ensures
            lookup@ == lookup_of(
                self.resources.strings@.map_values(|pair: ResourcePair| pair_entry(pair)),
            ),
    {
        pair_lookup(&self.resources.strings)
    }

    /// The assets: each name finds its path.
    pub fn assets_hashmap(&self) -> (lookup: StringHashMap<String>)
        ensures
            lookup@ == lookup_of(self.assets@.map_values(|asset: Asset| asset_entry(asset))),
    {
        let list = self.assets.list();
        let ghost entries = self.assets@.map_values(|asset: Asset| asset_entry(asset));
        let mut lookup: StringHashMap<String> = StringHashMap::new();
        let mut i: usize = 0;
        while i < list.len()
            invariant
                i <= list@.len(),
                list@ == self.assets@,
                entries == self.assets@.map_values(|asset: Asset| asset_entry(asset)),
                lookup@ == lookup_of(entries.take(i as int)),
            decreases list@.len() - i,
        {
            proof {
                assert(entries.take(i + 1).drop_last() =~= entries.take(i as int));
            }
            lookup.insert(list[i].name.clone(), list[i].path.clone());
            i = i + 1;
        }
        proof {
            assert(entries.take(i as int) =~= entries);
        }
        lookup
    }

    /// The roles: each name finds its icon.
    pub fn roles_hashmap(&self) -> (lookup: StringHashMap<Option<String>>)
        ensures
            lookup@ == lookup_of(self.settings.roles@.map_values(|role: Role| role_entry(role))),
    {
        let list = self.settings.roles.list();
        let ghost entries = self.settings.roles@.map_values(|role: Role| role_entry(role));
        let mut lookup: StringHashMap<Option<String>> = StringHashMap::new();
        let mut i: usize = 0;
        while i < list.len()
            invariant
                i <= list@.len(),
                list@ == self.settings.roles@,
                entries == self.settings.roles@.map_values(|role: Role| role_entry(role)),
                lookup@ == lookup_of(entries.take(i as int)),
            decreases list@.len() - i,
        {
            proof {
                assert(entries.take(i + 1).drop_last() =~= entries.take(i as int));
            }
            lookup.insert(list[i].name.clone(), list[i].icon.clone());
            i = i + 1;
        }
        proof {
            assert(entries.take(i as int) =~= entries);
        }
        lookup
    }

    /// The characters: each name finds its icon.
    pub fn characters_hashmap(&self) -> (lookup: StringHashMap<Option<String>>)
        ensures
            lookup@ == lookup_of(
                self.settings.characters@.map_values(
                    |character: Character| character_entry(character),
                ),
            ),
    {
        let list = self.settings.characters.list();
        let ghost entries = self.settings.characters@.map_values(
            |character: Character| character_entry(character),
        );
        let mut lookup: StringHashMap<Option<String>> = StringHashMap::new();
        let mut i: usize = 0;
        while i < list.len()
            invariant
                i <= list@.len(),
                list@ == self.settings.characters@,
                entries == self.settings.characters@.map_values(
                    |character: Character| character_entry(character),
                ),
                lookup@ == lookup_of(entries.take(i as int)),
            decreases list@.len() - i,
        {
            proof {
                assert(entries.take(i + 1).drop_last() =~= entries.take(i as int));
            }
            lookup.insert(list[i].name.clone(), list[i].icon.clone());
            i = i + 1;
        }
        proof {
            assert(entries.take(i as int) =~= entries);
        }
        lookup
    }

    /// The gamemodes: each name finds its icon.
    pub fn gamemodes_hashmap(&self) -> (lookup: StringHashMap<Option<String>>)
        ensures
            lookup@ == lookup_of(
                self.settings.gamemodes@.map_values(|gamemode: Gamemode| gamemode_entry(gamemode)),
            ),
    {
        let list = self.settings.gamemodes.list();
        let ghost entries = self.settings.gamemodes@.map_values(
            |gamemode: Gamemode| gamemode_entry(gamemode),
        );
        let mut lookup: StringHashMap<Option<String>> = StringHashMap::new();
        let mut i: usize = 0;
        while i < list.len()
            invariant
                i <= list@.len(),
                list@ == self.settings.gamemodes@,
                entries == self.settings.gamemodes@.map_values(
                    |gamemode: Gamemode| gamemode_entry(gamemode),
                ),
                lookup@ == lookup_of(entries.take(i as int)),
            decreases list@.len() - i,
        {
            proof {
                assert(entries.take(i + 1).drop_last() =~= entries.take(i as int));
            }
            lookup.insert(list[i].name.clone(), list[i].icon.clone());
            i = i + 1;
        }
        proof {
            assert(entries.take(i as int) =~= entries);
        }
        lookup
    }

    /// For every slot of the bracket, whether both its teams are entered.
    pub fn bracket_visibilities(&self) -> (visibilities: Vec<Vec<bool>>)
        ensures
            visibilities@.len() == self.division.bracket@.len(),
            forall|s: int|
                0 <= s < visibilities@.len() ==> (#[trigger] visibilities@[s])@
                    == self.division.bracket@[s]@.map_values(
                    |slot: Option<Matchup>| slot_filled(slot),
                ),
    {
        let bracket = &self.division.bracket;
        let mut visibilities: Vec<Vec<bool>> = Vec::new();
        let mut s: usize = 0;
        while s < bracket.len()
            invariant
                s <= bracket@.len(),
                visibilities@.len() == s,
                forall|i: int|
                    0 <= i < s ==> (#[trigger] visibilities@[i])@ == bracket@[i]@.map_values(
                        |slot: Option<Matchup>| slot_filled(slot),
                    ),
            decreases bracket@.len() - s,
        {
            let stage = &bracket[s];
            let mut row: Vec<bool> = Vec::new();
            let mut k: usize = 0;
            while k < stage.len()
                invariant
                    k <= stage@.len(),
                    row@ == stage@.take(k as int).map_values(
                        |slot: Option<Matchup>| slot_filled(slot),
                    ),
                decreases stage@.len() - k,
            {
                let filled = match stage[k] {
                    Some(matchup) => matchup.is_filled(),
                    None => false,
                };
                row.push(filled);
                proof {
                    assert(row@ =~= stage@.take(k + 1).map_values(
                        |slot: Option<Matchup>| slot_filled(slot),
                    ));
                }
                k = k + 1;
            }
            proof {
                assert(stage@.take(k as int) =~= stage@);
            }
            visibilities.push(row);
            s = s + 1;
        }
        visibilities
    }

    /// For every stage of the bracket, whether it has a slot with both teams entered.
    pub fn stage_visibilities(&self) -> (visibilities: Vec<bool>)
        ensures
            visibilities@ == stages_of(self.division.bracket).map_values(
                |stage: Seq<Option<Matchup>>| stage_entered(stage),
            ),
    {
        let bracket = &self.division.bracket;
        let ghost stages = stages_of(self.division.bracket);
        let mut visibilities: Vec<bool> = Vec::new();
        let mut s: usize = 0;
        while s < bracket.len()
            invariant
                s <= bracket@.len(),
                stages == stages_of(self.division.bracket),
                bracket == &self.division.bracket,
                visibilities@ == stages.take(s as int).map_values(
                    |stage: Seq<Option<Matchup>>| stage_entered(stage),
                ),
            decreases bracket@.len() - s,
        {
            let entered = stage_is_entered(&bracket[s]);
            visibilities.push(entered);
            proof {
                assert(stages[s as int] == bracket@[s as int]@);
                assert(visibilities@ =~= stages.take(s + 1).map_values(
                    |stage: Seq<Option<Matchup>>| stage_entered(stage),
                ));
            }
            s = s + 1;
        }
        proof {
            assert(stages.take(s as int) =~= stages);
        }
        visibilities
    }

    /// The number of stages that the overlay shows: those from the first one
    /// that has a slot with both teams entered, to the final.
    pub fn bracket_stage_count(&self) -> (count: usize)
        ensures
            count == shown_stages(stages_of(self.division.bracket)),
    {
        let bracket = &self.division.bracket;
        let ghost stages = stages_of(self.division.bracket);
        let mut s: usize = 0;
        proof {
            assert(stages.skip(0) =~= stages);
        }
        while s < bracket.len()
            invariant
                s <= bracket@.len(),
                stages == stages_of(self.division.bracket),
                bracket == &self.division.bracket,
                shown_stages(stages) == shown_stages(stages.skip(s as int)),
            decreases bracket@.len() - s,
        {
            proof {
                assert(stages.skip(s as int)[0] == bracket@[s as int]@);
                assert(stages.skip(s as int).skip(1) =~= stages.skip(s + 1));
            }
            if stage_is_entered(&bracket[s]) {
                return bracket.len() - s;
            }
            s = s + 1;
        }
        0
    }
}

impl Team {
    /// For every player, three texts: the player's name, the name of the
    /// player's role and the name of the player's character. Where a player
    /// has none, or one that does not exist, the text is `(none)`.
    pub fn player_info(&self, roles: &EntityStore<Role>, characters: &EntityStore<Character>) -> (info:
        Vec<Vec<String>>)
        ensures
            info@.len() == self.players@.len(),
            forall|p: int|
                0 <= p < info@.len() ==> {
                    &&& (#[trigger] info@[p])@.len() == 3
                    &&& info@[p]@[0]@ == self.players@[p].name@
                    &&& info@[p]@[1]@ == label_of(
                        self.players@[p].role,
                        roles@.map_values(|role: Role| role.name@),
                    )
                    &&& info@[p]@[2]@ == label_of(
                        self.players@[p].character,
                        characters@.map_values(|character: Character| character.name@),
                    )
                },
    {
        let players = self.players.list();
        let mut info: Vec<Vec<String>> = Vec::new();
        let mut p: usize = 0;
        while p < players.len()
            invariant
                p <= players@.len(),
                players@ == self.players@,
                info@.len() == p,
                forall|i: int|
                    0 <= i < p ==> {
                        &&& (#[trigger] info@[i])@.len() == 3
                        &&& info@[i]@[0]@ == self.players@[i].name@
                        &&& info@[i]@[1]@ == label_of(
                            self.players@[i].role,
                            roles@.map_values(|role: Role| role.name@),
                        )
                        &&& info@[i]@[2]@ == label_of(
                            self.players@[i].character,
                            characters@.map_values(|character: Character| character.name@),
                        )
                    },
            decreases players@.len() - p,
        {
            let player = &players[p];
            let role = match player.role {
                Some(i) => match roles.get(i) {
                    Some(found) => found.name.clone(),
                    None => "(none)".to_owned(),
                },
                None => "(none)".to_owned(),
            };
            let character = match player.character {
                Some(i) => match characters.get(i) {
                    Some(found) => found.name.clone(),
                    None => "(none)".to_owned(),
                },
                None => "(none)".to_owned(),
            };
            let mut row: Vec<String> = Vec::new();
            row.push(player.name.clone());
            row.push(role);
            row.push(character);
            info.push(row);
            p = p + 1;
        }
        info
    }
}

} // verus!
