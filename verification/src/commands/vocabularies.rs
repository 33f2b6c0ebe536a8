//! Commands on the roles and the characters that players refer to.

use vstd::prelude::*;
use crate::corrector::{correct_players, CorrectionTarget};
use crate::edits::lemma_edit_keeps_consistency;
use crate::error::StateError;
use crate::invariants::player_fits;
use crate::models::{Character, Role, SaveData, Settings};
use crate::policy::{appended, ListEdit};
use crate::store::EntityStore;

verus! {

/// Players that referred to roles and characters that exist still do when
/// there are no fewer roles and characters and the players are the same.
pub proof fn lemma_wider_vocabulary_keeps_player_refs(before: SaveData, after: SaveData)
    requires
        after.division.teams == before.division.teams,
        before.settings.roles@.len() <= after.settings.roles@.len(),
        before.settings.characters@.len() <= after.settings.characters@.len(),
    ensures
        before.player_refs_valid() ==> after.player_refs_valid(),
{
    if before.player_refs_valid() {
        assert forall|t: int, p: int|
            0 <= t < after.division.teams@.len() && 0 <= p
                < after.division.teams@[t].players@.len() implies player_fits(
            #[trigger] after.division.teams@[t].players@[p],
            after.settings.roles@.len(),
            after.settings.characters@.len(),
        ) by {
            assert(player_fits(
                before.division.teams@[t].players@[p],
                before.settings.roles@.len(),
                before.settings.characters@.len(),
            ));
        }
    }
}

impl SaveData {
    /// Adds a new, neutral role behind all others and returns its position.
    pub fn add_role(&mut self) -> (index: usize)
        ensures
            index == old(self).settings.roles@.len(),
            appended(old(self).settings.roles@, final(self).settings.roles@),
            final(self).settings.roles@[index as int].is_neutral(),
            *final(self) == (SaveData {
                settings: Settings { roles: final(self).settings.roles, ..old(self).settings },
                ..*old(self)
            }),
            old(self).references_valid() ==> final(self).references_valid(),
            old(self).sizes_synced() ==> final(self).sizes_synced(),
    {
        let index = self.settings.roles.append(Role::default());
        proof {
            assert(self.settings.roles@.drop_last() =~= old(self).settings.roles@);
            lemma_wider_vocabulary_keeps_player_refs(*old(self), *self);
        }
        index
    }

    /// Removes the role at `index` and returns it. Every player who had it
    /// has none afterwards, and every reference to a later role follows
    /// that role down by one.
    pub fn remove_role_at(&mut self, index: usize) -> (result: Result<Role, StateError>)
        ensures
            index < old(self).settings.roles@.len() ==> {
                &&& result == Ok::<Role, StateError>(old(self).settings.roles@[index as int])
                &&& Self::collection_edited(
                    *old(self),
                    *final(self),
                    CorrectionTarget::Roles,
                    ListEdit::Removed(index),
                )
            },
            index >= old(self).settings.roles@.len() ==> {
                &&& result == Err::<Role, StateError>(StateError::OutOfRange)
                &&& *final(self) == *old(self)
            },
            old(self).references_valid() ==> final(self).references_valid(),
            old(self).sizes_synced() ==> final(self).sizes_synced(),
    {
        match self.settings.roles.remove_at(index) {
            Err(error) => Err(error),
            Ok(removed) => {
                let edit = ListEdit::Removed(index);
                correct_players(&mut self.division.teams, true, edit);
                proof {
                    lemma_edit_keeps_consistency(
                        *old(self),
                        *self,
                        CorrectionTarget::Roles,
                        edit,
                    );
                }
                Ok(removed)
            },
        }
    }

    /// Moves the role at `index` by `delta` positions and returns its new
    /// position. Every reference to a role follows that role.
    pub fn move_role(&mut self, index: usize, delta: i32) -> (result: Result<usize, StateError>)
        ensures
            EntityStore::<Role>::can_move(old(self).settings.roles@.len(), index, delta) ==> {
                &&& result matches Ok(new_index)
                &&& new_index == index + delta
                &&& Self::collection_edited(
                    *old(self),
                    *final(self),
                    CorrectionTarget::Roles,
                    ListEdit::Moved(index, new_index),
                )
            },
            !EntityStore::<Role>::can_move(old(self).settings.roles@.len(), index, delta) ==> {
                &&& result == Err::<usize, StateError>(StateError::OutOfRange)
                &&& *final(self) == *old(self)
            },
            old(self).references_valid() ==> final(self).references_valid(),
            old(self).sizes_synced() ==> final(self).sizes_synced(),
    {
        match self.settings.roles.move_by(index, delta) {
            Err(error) => Err(error),
            Ok(new_index) => {
                let edit = ListEdit::Moved(index, new_index);
                correct_players(&mut self.division.teams, true, edit);
                proof {
                    lemma_edit_keeps_consistency(
                        *old(self),
                        *self,
                        CorrectionTarget::Roles,
                        edit,
                    );
                }
                Ok(new_index)
            },
        }
    }

    /// Puts `role` in the place of the role at `index`. The players who
    /// have the role at `index` keep it.
    pub fn replace_role_at(&mut self, index: usize, role: Role) -> (result: Result<(), StateError>)
        ensures
            index < old(self).settings.roles@.len() ==> {
                &&& result == Ok::<(), StateError>(())
                &&& final(self).settings.roles@ == old(self).settings.roles@.update(
                    index as int,
                    role,
                )
                &&& *final(self) == (SaveData {
                    settings: Settings {
                        roles: final(self).settings.roles,
                        ..old(self).settings
                    },
                    ..*old(self)
                })
            },
            index >= old(self).settings.roles@.len() ==> {
                &&& result == Err::<(), StateError>(StateError::OutOfRange)
                &&& *final(self) == *old(self)
            },
            old(self).references_valid() ==> final(self).references_valid(),
            old(self).sizes_synced() ==> final(self).sizes_synced(),
    {
        let result = self.settings.roles.replace_at(index, role);
        proof {
            if result is Ok {
                lemma_wider_vocabulary_keeps_player_refs(*old(self), *self);
            }
        }
        result
    }

    /// Adds a new, neutral character behind all others and returns its position.
    pub fn add_character(&mut self) -> (index: usize)
        ensures
            index == old(self).settings.characters@.len(),
            appended(old(self).settings.characters@, final(self).settings.characters@),
            final(self).settings.characters@[index as int].is_neutral(),
            *final(self) == (SaveData {
                settings: Settings { characters: final(self).settings.characters, ..old(self).settings },
                ..*old(self)
            }),
            old(self).references_valid() ==> final(self).references_valid(),
            old(self).sizes_synced() ==> final(self).sizes_synced(),
    {
        let index = self.settings.characters.append(Character::default());
        proof {
            assert(self.settings.characters@.drop_last() =~= old(self).settings.characters@);
            lemma_wider_vocabulary_keeps_player_refs(*old(self), *self);
        }
        index
    }

    /// Removes the character at `index` and returns it. Every player who had it
    /// has none afterwards, and every reference to a later character follows
    /// that character down by one.
    pub fn remove_character_at(&mut self, index: usize) -> (result: Result<Character, StateError>)
        ensures
            index < old(self).settings.characters@.len() ==> {
                &&& result == Ok::<Character, StateError>(old(self).settings.characters@[index as int])
                &&& Self::collection_edited(
                    *old(self),
                    *final(self),
                    CorrectionTarget::Characters,
                    ListEdit::Removed(index),
                )
            },
            index >= old(self).settings.characters@.len() ==> {
                &&& result == Err::<Character, StateError>(StateError::OutOfRange)
                &&& *final(self) == *old(self)
            },
            old(self).references_valid() ==> final(self).references_valid(),
            old(self).sizes_synced() ==> final(self).sizes_synced(),
    {
        match self.settings.characters.remove_at(index) {
            Err(error) => Err(error),
            Ok(removed) => {
                let edit = ListEdit::Removed(index);
                correct_players(&mut self.division.teams, false, edit);
                proof {
                    lemma_edit_keeps_consistency(
                        *old(self),
                        *self,
                        CorrectionTarget::Characters,
                        edit,
                    );
                }
                Ok(removed)
            },
        }
    }

    /// Moves the character at `index` by `delta` positions and returns its new
    /// position. Every reference to a character follows that character.
    pub fn move_character(&mut self, index: usize, delta: i32) -> (result: Result<usize, StateError>)
        ensures
            EntityStore::<Character>::can_move(old(self).settings.characters@.len(), index, delta) ==> {
                &&& result matches Ok(new_index)
                &&& new_index == index + delta
                &&& Self::collection_edited(
                    *old(self),
                    *final(self),
                    CorrectionTarget::Characters,
                    ListEdit::Moved(index, new_index),
                )
            },
            !EntityStore::<Character>::can_move(old(self).settings.characters@.len(), index, delta) ==> {
                &&& result == Err::<usize, StateError>(StateError::OutOfRange)
                &&& *final(self) == *old(self)
            },
            old(self).references_valid() ==> final(self).references_valid(),
            old(self).sizes_synced() ==> final(self).sizes_synced(),
    {
        match self.settings.characters.move_by(index, delta) {
            Err(error) => Err(error),
            Ok(new_index) => {
                let edit = ListEdit::Moved(index, new_index);
                correct_players(&mut self.division.teams, false, edit);
                proof {
                    lemma_edit_keeps_consistency(
                        *old(self),
                        *self,
                        CorrectionTarget::Characters,
                        edit,
                    );
                }
                Ok(new_index)
            },
        }
    }

    /// Puts `character` in the place of the character at `index`. The players who
    /// have the character at `index` keep it.
    pub fn replace_character_at(&mut self, index: usize, character: Character) -> (result: Result<(), StateError>)
        ensures
            index < old(self).settings.characters@.len() ==> {
                &&& result == Ok::<(), StateError>(())
                &&& final(self).settings.characters@ == old(self).settings.characters@.update(
                    index as int,
                    character,
                )
                &&& *final(self) == (SaveData {
                    settings: Settings {
                        characters: final(self).settings.characters,
                        ..old(self).settings
                    },
                    ..*old(self)
                })
            },
            index >= old(self).settings.characters@.len() ==> {
                &&& result == Err::<(), StateError>(StateError::OutOfRange)
                &&& *final(self) == *old(self)
            },
            old(self).references_valid() ==> final(self).references_valid(),
            old(self).sizes_synced() ==> final(self).sizes_synced(),
    {
        let result = self.settings.characters.replace_at(index, character);
        proof {
            if result is Ok {
                lemma_wider_vocabulary_keeps_player_refs(*old(self), *self);
            }
        }
        result
    }
}

} // verus!
