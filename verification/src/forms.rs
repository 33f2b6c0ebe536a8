//! What an entry form asks and what its answers mean: the fields that
//! stand for an entity, the entity that a filled form stands for, and how a
//! choice in a list of options stands for a reference.
//!
//! In a list of options the first entry is always `(none)`; the entities
//! follow in their order. So choice 0 is no reference, and choice `n + 1` is
//! the reference to the entity at `n`.

use vstd::prelude::*;
use vstd::hash_map::StringHashMap;
use crate::models::{Asset, Character, GameMap, Gamemode, Player, Role, Team};
use crate::snapshot::lookup_of;
use crate::store::EntityStore;

verus! {

/// One field of an entry form.
#[derive(Debug, Clone, PartialEq, Eq, Hash)]
pub enum EntryWindowField {
    /// A line of text.
    Text { label: String, prefill: Option<String> },
    /// One of `options`, or none.
    DropDown { label: String, options: Vec<String>, prefill: Option<String> },
    /// A file; `filters` are pairs of a name and the patterns it stands for.
    File { label: String, filters: Vec<(String, Vec<String>)>, prefill: Option<String> },
}

impl EntryWindowField {
    /// The label of the field, by which its answer is found.
    pub open spec fn label_text(&self) -> String {
        match *self {
            EntryWindowField::Text { label, .. } => label,
            EntryWindowField::DropDown { label, .. } => label,
            EntryWindowField::File { label, .. } => label,
        }
    }

    /// The label of the field, by which its answer is found.
    pub fn label(&self) -> (label: &str)
        ensures
            label@ == self.label_text()@,
    {
        match self {
            EntryWindowField::Text { label, .. } => label.as_str(),
            EntryWindowField::DropDown { label, .. } => label.as_str(),
            EntryWindowField::File { label, .. } => label.as_str(),
        }
    }
}

/// The reference that a choice in a list of options stands for.
pub open spec fn chosen_reference(selected: u32) -> Option<usize> {
    if selected == 0 {
        None
    } else {
        Some((selected - 1) as usize)
    }
}

/// The reference that a choice in a list of options stands for.
pub fn reference_of_selection(selected: u32) -> (reference: Option<usize>)
    ensures
        reference == chosen_reference(selected),
{
    if selected == 0 {
        None
    } else {
        Some((selected - 1) as usize)
    }
}

/// The choice in a list of options that stands for a reference.
pub fn selection_of_reference(reference: Option<usize>) -> (selected: u32)
    requires
        reference matches Some(i) ==> i < u32::MAX,
    ensures
        chosen_reference(selected) == reference,
{
    match reference {
        Some(i) => (i + 1) as u32,
        None => 0,
    }
}

/// The options of a list: `(none)`, then `options` in their order.
pub fn options_with_none(options: &Vec<String>) -> (list: Vec<String>)
    ensures
        list@.len() == options@.len() + 1,
        list@[0]@ == "(none)"@,
        forall|i: int| 0 <= i < options@.len() ==> (#[trigger] list@[i + 1]) == options@[i],
{
    let mut list: Vec<String> = Vec::new();
    list.push("(none)".to_owned());
    let mut i: usize = 0;
    while i < options.len()
        invariant
            i <= options@.len(),
            list@.len() == i + 1,
            list@[0]@ == "(none)"@,
            forall|j: int| 0 <= j < i ==> (#[trigger] list@[j + 1]) == options@[j],
        decreases options@.len() - i,
    {
        list.push(options[i].clone());
        i = i + 1;
    }
    list
}

/// Whether `found` is the first position in `list` of the text `item`, or
/// absent where `item` is absent or not in the list.
pub open spec fn is_first_position(
    list: Seq<String>,
    item: Option<String>,
    found: Option<usize>,
) -> bool {
    match found {
        Some(i) => {
            &&& item matches Some(text)
            &&& i < list.len()
            &&& list[i as int]@ == text@
            &&& forall|j: int| 0 <= j < i ==> (#[trigger] list[j])@ != text@
        },
        None => item matches Some(text) ==> forall|j: int|
            0 <= j < list.len() ==> (#[trigger] list[j])@ != text@,
    }
}

/// The first position of `item` in `list`; none if `item` is absent or not
/// in the list.
pub fn index_of_or_none(list: &Vec<String>, item: &Option<String>) -> (found: Option<usize>)
    ensures
        is_first_position(list@, *item, found),
{
    match item {
        None => None,
        Some(text) => {
            let mut i: usize = 0;
            while i < list.len()
                invariant
                    i <= list@.len(),
                    *item == Some(*text),
                    forall|j: int| 0 <= j < i ==> (#[trigger] list@[j])@ != text@,
                decreases list@.len() - i,
            {
                if list[i] == *text {
                    return Some(i);
                }
                i = i + 1;
            }
            None
        },
    }
}

/// What a line of text answers: the text, or nothing if it is empty.
pub fn text_answer(text: &str) -> (answer: Option<String>)
    ensures
        text@.len() == 0 ==> answer is None,
        text@.len() > 0 ==> (answer matches Some(given) && given@ == text@),
{
    if text.unicode_len() == 0 {
        None
    } else {
        Some(text.to_owned())
    }
}

/// What a choice among `options` answers: the option that was chosen, or
/// nothing for choice 0 and for a choice that the list does not have.
pub fn choice_answer(options: &Vec<String>, selected: u32) -> (answer: Option<String>)
    ensures
        match chosen_reference(selected) {
            Some(i) if i < options@.len() => answer == Some(options@[i as int]),
            _ => answer is None,
        },
{
    match reference_of_selection(selected) {
        None => None,
        Some(i) => if i < options.len() {
            Some(options[i].clone())
        } else {
            None
        },
    }
}

/// What a form answers under `label`: nothing if it has no such field, or if
/// the field was left empty.
pub open spec fn answer_of(answers: Map<Seq<char>, Option<String>>, label: Seq<char>) -> Option<
    String,
> {
    if answers.contains_key(label) {
        answers[label]
    } else {
        None
    }
}

/// The answers of a form, from the pairs of a label and what was entered
/// under it. Where a label occurs twice, the later answer counts.
pub fn answers_from(pairs: Vec<(String, Option<String>)>) -> (answers: StringHashMap<Option<String>>)
    ensures
        answers@ == lookup_of(
            pairs@.map_values(|pair: (String, Option<String>)| (pair.0@, pair.1)),
        ),
{
    let ghost entries = pairs@.map_values(|pair: (String, Option<String>)| (pair.0@, pair.1));
    let mut answers: StringHashMap<Option<String>> = StringHashMap::new();
    let mut i: usize = 0;
    while i < pairs.len()
        invariant
            i <= pairs@.len(),
            entries == pairs@.map_values(|pair: (String, Option<String>)| (pair.0@, pair.1)),
            answers@ == lookup_of(entries.take(i as int)),
        decreases pairs@.len() - i,
    {
        proof {
            assert(entries.take(i + 1).drop_last() =~= entries.take(i as int));
        }
        answers.insert(pairs[i].0.clone(), pairs[i].1.clone());
        i = i + 1;
    }
    proof {
        assert(entries.take(i as int) =~= entries);
    }
    answers
}

/// What a form answers under `label`, or `fallback`.
pub fn answer_or(answers: &StringHashMap<Option<String>>, label: &str, fallback: &str) -> (text:
    String)
    ensures
        text@ == match answer_of(answers@, label@) {
            Some(given) => given@,
            None => fallback@,
        },
{
    match answers.get(label) {
        Some(Some(given)) => given.clone(),
        _ => fallback.to_owned(),
    }
}

/// What a form answers under `label`, if anything.
pub fn answer(answers: &StringHashMap<Option<String>>, label: &str) -> (given: Option<String>)
    ensures
        given == answer_of(answers@, label@),
{
    match answers.get(label) {
        Some(Some(given)) => Some(given.clone()),
        _ => None,
    }
}

/// The names of the roles, in their order.
pub fn role_names(roles: &EntityStore<Role>) -> (names: Vec<String>)
    ensures
        names@ == roles@.map_values(|role: Role| role.name),
{
    let list = roles.list();
    let mut names: Vec<String> = Vec::new();
    let mut i: usize = 0;
    while i < list.len()
        invariant
            i <= list@.len(),
            list@ == roles@,
            names@ == roles@.take(i as int).map_values(|role: Role| role.name),
        decreases list@.len() - i,
    {
        names.push(list[i].name.clone());
        proof {
            assert(names@ =~= roles@.take(i + 1).map_values(|role: Role| role.name));
        }
        i = i + 1;
    }
    proof {
        assert(roles@.take(i as int) =~= roles@);
    }
    names
}

/// The names of the characters, in their order.
pub fn character_names(characters: &EntityStore<Character>) -> (names: Vec<String>)
    ensures
        names@ == characters@.map_values(|character: Character| character.name),
{
    let list = characters.list();
    let mut names: Vec<String> = Vec::new();
    let mut i: usize = 0;
    while i < list.len()
        invariant
            i <= list@.len(),
            list@ == characters@,
            names@ == characters@.take(i as int).map_values(
                |character: Character| character.name,
            ),
        decreases list@.len() - i,
    {
        names.push(list[i].name.clone());
        proof {
            assert(names@ =~= characters@.take(i + 1).map_values(
                |character: Character| character.name,
            ));
        }
        i = i + 1;
    }
    proof {
        assert(characters@.take(i as int) =~= characters@);
    }
    names
}

/// The names of the gamemodes, in their order.
pub fn gamemode_names(gamemodes: &EntityStore<Gamemode>) -> (names: Vec<String>)
    ensures
        names@ == gamemodes@.map_values(|gamemode: Gamemode| gamemode.name),
{
    let list = gamemodes.list();
    let mut names: Vec<String> = Vec::new();
    let mut i: usize = 0;
    while i < list.len()
        invariant
            i <= list@.len(),
            list@ == gamemodes@,
            names@ == gamemodes@.take(i as int).map_values(|gamemode: Gamemode| gamemode.name),
        decreases list@.len() - i,
    {
        names.push(list[i].name.clone());
        proof {
            assert(names@ =~= gamemodes@.take(i + 1).map_values(
                |gamemode: Gamemode| gamemode.name,
            ));
        }
        i = i + 1;
    }
    proof {
        assert(gamemodes@.take(i as int) =~= gamemodes@);
    }
    names
}

/// The names of the maps that a round can choose among: those of the
/// gamemode it has chosen, in their order; none if it has chosen no
/// gamemode, or one that does not exist.
pub fn map_names(gamemodes: &EntityStore<Gamemode>, chosen: Option<usize>) -> (names: Vec<String>)
    ensures
        match chosen {
            Some(g) if g < gamemodes@.len() => names@ == gamemodes@[g as int].maps@.map_values(
                |map: GameMap| map.name,
            ),
            _ => names@.len() == 0,
        },
{
    let mut names: Vec<String> = Vec::new();
    let found = match chosen {
        Some(g) => gamemodes.get(g),
        None => None,
    };
    if let Some(gamemode) = found {
        let list = gamemode.maps.list();
        let mut i: usize = 0;
        while i < list.len()
            invariant
                i <= list@.len(),
                list@ == gamemode.maps@,
                names@ == gamemode.maps@.take(i as int).map_values(|map: GameMap| map.name),
            decreases list@.len() - i,
        {
            names.push(list[i].name.clone());
            proof {
                assert(names@ =~= gamemode.maps@.take(i + 1).map_values(
                    |map: GameMap| map.name,
                ));
            }
            i = i + 1;
        }
        proof {
            assert(gamemode.maps@.take(i as int) =~= gamemode.maps@);
        }
    }
    names
}

/// The name that a reference into `names` stands for, if it points at one.
pub fn name_of(names: &Vec<String>, reference: Option<usize>) -> (name: Option<String>)
    ensures
        match reference {
            Some(i) if i < names@.len() => name == Some(names@[i as int]),
            _ => name is None,
        },
{
    match reference {
        Some(i) => if i < names.len() {
            Some(names[i].clone())
        } else {
            None
        },
        None => None,
    }
}

/// The players of a store, copied.
pub fn players_of(players: &EntityStore<Player>) -> (copies: Vec<Player>)
    ensures
        copies@ == players@,
{
    let list = players.list();
    let mut copies: Vec<Player> = Vec::new();
    let mut i: usize = 0;
    while i < list.len()
        invariant
            i <= list@.len(),
            list@ == players@,
            copies@ == players@.take(i as int),
        decreases list@.len() - i,
    {
        let player = &list[i];
        copies.push(
            Player { name: player.name.clone(), role: player.role, character: player.character },
        );
        proof {
            assert(copies@ =~= players@.take(i + 1));
        }
        i = i + 1;
    }
    proof {
        assert(players@.take(i as int) =~= players@);
    }
    copies
}

impl Team {
    /// The form for a team: its name and its icon, filled in from `team` if
    /// there is one.
    pub fn entry_fields(team: Option<&Team>) -> (fields: Vec<EntryWindowField>)
        ensures
            fields@.len() == 2,
            fields@[0] matches EntryWindowField::Text { label, prefill } && label@ == "Name"@
                && match team {
                Some(given) => prefill == Some(given.name),
                None => prefill is None,
            },
            fields@[1] matches EntryWindowField::File { label, filters, prefill } && label@
                == "Icon"@ && filters@.len() == 0 && match team {
                Some(given) => prefill == given.icon,
                None => prefill is None,
            },
    {
        let name = match team {
            Some(given) => Some(given.name.clone()),
            None => None,
        };
        let icon = match team {
            Some(given) => given.icon.clone(),
            None => None,
        };
        let mut fields: Vec<EntryWindowField> = Vec::new();
        fields.push(EntryWindowField::Text { label: "Name".to_owned(), prefill: name });
        fields.push(
            EntryWindowField::File { label: "Icon".to_owned(), filters: Vec::new(), prefill: icon },
        );
        fields
    }

    /// The team that a filled form stands for. A form without a name gives
    /// the name `New Team`. The players are those of `old`, the team that
    /// was edited; a new team has none.
    pub fn from_entry(answers: &StringHashMap<Option<String>>, old: Option<&Team>) -> (team: Team)
        ensures
            team.name@ == match answer_of(answers@, "Name"@) {
                Some(given) => given@,
                None => "New Team"@,
            },
            team.icon == answer_of(answers@, "Icon"@),
            team.players@ == match old {
                Some(edited) => edited.players@,
                None => Seq::<Player>::empty(),
            },
    {
        let name = answer_or(answers, "Name", "New Team");
        let icon = answer(answers, "Icon");
        let players = match old {
            Some(edited) => players_of(&edited.players),
            None => Vec::new(),
        };
        Team { name, icon, players: EntityStore::from_vec(players) }
    }
}

impl Player {
    /// The form for a player: name, role and character, filled in from
    /// `player` if there is one. The roles and the characters are offered by name.
    pub fn entry_fields(
        player: Option<&Player>,
        roles: &EntityStore<Role>,
        characters: &EntityStore<Character>,
    ) -> (fields: Vec<EntryWindowField>)
        ensures
            fields@.len() == 3,
            fields@[0] matches EntryWindowField::Text { label, prefill } && label@ == "Name"@
                && match player {
                Some(given) => prefill == Some(given.name),
                None => prefill is None,
            },
            fields@[1] matches EntryWindowField::DropDown { label, options, prefill } && label@
                == "Role"@ && options@ == roles@.map_values(|role: Role| role.name) && match player {
                Some(Player { role: Some(i), .. }) if i < roles@.len() => prefill == Some(
                    roles@[i as int].name,
                ),
                _ => prefill is None,
            },
            fields@[2] matches EntryWindowField::DropDown { label, options, prefill } && label@
                == "Character"@ && options@ == characters@.map_values(
                |character: Character| character.name,
            ) && match player {
                Some(Player { character: Some(i), .. }) if i < characters@.len() => prefill
                    == Some(characters@[i as int].name),
                _ => prefill is None,
            },
    {
        let name = match player {
            Some(given) => Some(given.name.clone()),
            None => None,
        };
        let role_options = role_names(roles);
        let character_options = character_names(characters);
        let role = match player {
            Some(given) => name_of(&role_options, given.role),
            None => None,
        };
        let character = match player {
            Some(given) => name_of(&character_options, given.character),
            None => None,
        };
        let mut fields: Vec<EntryWindowField> = Vec::new();
        fields.push(EntryWindowField::Text { label: "Name".to_owned(), prefill: name });
        fields.push(
            EntryWindowField::DropDown {
                label: "Role".to_owned(),
                options: role_options,
                prefill: role,
            },
        );
        fields.push(
            EntryWindowField::DropDown {
                label: "Character".to_owned(),
                options: character_options,
                prefill: character,
            },
        );
        fields
    }

    /// The player that a filled form stands for. A form without a name
    /// gives the name `New Player`. The role and the character are the first
    /// ones with the names that were chosen; none where nothing was chosen or
    /// the name is not known.
    pub fn from_entry(
        answers: &StringHashMap<Option<String>>,
        roles: &EntityStore<Role>,
        characters: &EntityStore<Character>,
    ) -> (player: Player)
        ensures
            player.name@ == match answer_of(answers@, "Name"@) {
                Some(given) => given@,
                None => "New Player"@,
            },
            is_first_position(
                roles@.map_values(|role: Role| role.name),
                answer_of(answers@, "Role"@),
                player.role,
            ),
            is_first_position(
                characters@.map_values(|character: Character| character.name),
                answer_of(answers@, "Character"@),
                player.character,
            ),
    {
        let name = answer_or(answers, "Name", "New Player");
        let role = index_of_or_none(&role_names(roles), &answer(answers, "Role"));
        let character = index_of_or_none(&character_names(characters), &answer(answers, "Character"));
        Player { name, role, character }
    }
}

impl Asset {
    /// The form for an asset: its name and its file, filled in from `asset`
    /// if there is one.
    pub fn entry_fields(asset: Option<&Asset>) -> (fields: Vec<EntryWindowField>)
        ensures
            fields@.len() == 2,
            fields@[0] matches EntryWindowField::Text { label, prefill } && label@ == "Name"@
                && match asset {
                Some(given) => prefill == Some(given.name),
                None => prefill is None,
            },
            fields@[1] matches EntryWindowField::File { label, filters, prefill } && label@
                == "Path"@ && filters@.len() == 0 && match asset {
                Some(given) => prefill == Some(given.path),
                None => prefill is None,
            },
    {
        let name = match asset {
            Some(given) => Some(given.name.clone()),
            None => None,
        };
        let path = match asset {
            Some(given) => Some(given.path.clone()),
            None => None,
        };
        let mut fields: Vec<EntryWindowField> = Vec::new();
        fields.push(EntryWindowField::Text { label: "Name".to_owned(), prefill: name });
        fields.push(
            EntryWindowField::File { label: "Path".to_owned(), filters: Vec::new(), prefill: path },
        );
        fields
    }

    /// The asset that a filled form stands for. A form without a name gives
    /// the name `New Asset`, one without a file the path `(none)`.
    pub fn from_entry(answers: &StringHashMap<Option<String>>) -> (asset: Asset)
        ensures
            asset.name@ == match answer_of(answers@, "Name"@) {
                Some(given) => given@,
                None => "New Asset"@,
            },
            asset.path@ == match answer_of(answers@, "Path"@) {
                Some(given) => given@,
                None => "(none)"@,
            },
    {
        Asset {
            name: answer_or(answers, "Name", "New Asset"),
            path: answer_or(answers, "Path", "(none)"),
        }
    }
}

} // verus!
