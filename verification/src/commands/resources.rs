//! Commands on the assets, the named images and the named texts. Nothing
//! refers to them by position: the overlay asks for them by name.

use vstd::prelude::*;
use crate::error::StateError;
use crate::models::{Asset, ResourcePair, Resources, SaveData};
use crate::policy::{appended, moved};
use crate::store::EntityStore;

verus! {

impl SaveData {
    /// Adds a new, neutral asset behind all others and returns its position.
    pub fn add_asset(&mut self) -> (index: usize)
        ensures
            index == old(self).assets@.len(),
            appended(old(self).assets@, final(self).assets@),
            final(self).assets@[index as int].is_neutral(),
            *final(self) == (SaveData { assets: final(self).assets, ..*old(self) }),
            old(self).references_valid() ==> final(self).references_valid(),
            old(self).sizes_synced() ==> final(self).sizes_synced(),
    {
        let index = self.assets.append(Asset::default());
        proof {
            assert(self.assets@.drop_last() =~= old(self).assets@);
        }
        index
    }

    /// Removes the asset at `index` and returns it. Nothing refers to assets
    /// by position, so nothing else changes.
    pub fn remove_asset_at(&mut self, index: usize) -> (result: Result<Asset, StateError>)
        ensures
            index < old(self).assets@.len() ==> {
                &&& result == Ok::<Asset, StateError>(old(self).assets@[index as int])
                &&& final(self).assets@ == old(self).assets@.remove(index as int)
                &&& *final(self) == (SaveData { assets: final(self).assets, ..*old(self) })
            },
            index >= old(self).assets@.len() ==> {
                &&& result == Err::<Asset, StateError>(StateError::OutOfRange)
                &&& *final(self) == *old(self)
            },
            old(self).references_valid() ==> final(self).references_valid(),
            old(self).sizes_synced() ==> final(self).sizes_synced(),
    {
        self.assets.remove_at(index)
    }

    /// Moves the asset at `index` by `delta` positions and returns its new position.
    pub fn move_asset(&mut self, index: usize, delta: i32) -> (result: Result<usize, StateError>)
        ensures
            EntityStore::<Asset>::can_move(old(self).assets@.len(), index, delta) ==> {
                &&& result matches Ok(new_index)
                &&& new_index == index + delta
                &&& final(self).assets@ == moved(old(self).assets@, index as int, index + delta)
                &&& *final(self) == (SaveData { assets: final(self).assets, ..*old(self) })
            },
            !EntityStore::<Asset>::can_move(old(self).assets@.len(), index, delta) ==> {
                &&& result == Err::<usize, StateError>(StateError::OutOfRange)
                &&& *final(self) == *old(self)
            },
            old(self).references_valid() ==> final(self).references_valid(),
            old(self).sizes_synced() ==> final(self).sizes_synced(),
    {
        self.assets.move_by(index, delta)
    }

    /// Puts `asset` in the place of the asset at `index`.
    pub fn replace_asset_at(&mut self, index: usize, asset: Asset) -> (result: Result<(), StateError>)
        ensures
            index < old(self).assets@.len() ==> {
                &&& result == Ok::<(), StateError>(())
                &&& final(self).assets@ == old(self).assets@.update(index as int, asset)
                &&& *final(self) == (SaveData { assets: final(self).assets, ..*old(self) })
            },
            index >= old(self).assets@.len() ==> {
                &&& result == Err::<(), StateError>(StateError::OutOfRange)
                &&& *final(self) == *old(self)
            },
            old(self).references_valid() ==> final(self).references_valid(),
            old(self).sizes_synced() ==> final(self).sizes_synced(),
    {
        self.assets.replace_at(index, asset)
    }

    /// Adds a new, neutral image behind all others and returns its position.
    pub fn add_image(&mut self) -> (index: usize)
        ensures
            index == old(self).resources.images@.len(),
            appended(old(self).resources.images@, final(self).resources.images@),
            final(self).resources.images@[index as int].is_neutral(),
            *final(self) == (SaveData {
                resources: Resources { images: final(self).resources.images, ..old(self).resources },
                ..*old(self)
            }),
            old(self).references_valid() ==> final(self).references_valid(),
            old(self).sizes_synced() ==> final(self).sizes_synced(),
    {
        let index = self.resources.images.append(ResourcePair::default());
        proof {
            assert(self.resources.images@.drop_last() =~= old(self).resources.images@);
        }
        index
    }

    /// Removes the image at `index` and returns it. Nothing refers to images
    /// by position, so nothing else changes.
    pub fn remove_image_at(&mut self, index: usize) -> (result: Result<ResourcePair, StateError>)
        ensures
            index < old(self).resources.images@.len() ==> {
                &&& result == Ok::<ResourcePair, StateError>(old(self).resources.images@[index as int])
                &&& final(self).resources.images@ == old(self).resources.images@.remove(index as int)
                &&& *final(self) == (SaveData {
                resources: Resources { images: final(self).resources.images, ..old(self).resources },
                ..*old(self)
            })
            },
            index >= old(self).resources.images@.len() ==> {
                &&& result == Err::<ResourcePair, StateError>(StateError::OutOfRange)
                &&& *final(self) == *old(self)
            },
            old(self).references_valid() ==> final(self).references_valid(),
            old(self).sizes_synced() ==> final(self).sizes_synced(),
    {
        self.resources.images.remove_at(index)
    }

    /// Moves the image at `index` by `delta` positions and returns its new position.
    pub fn move_image(&mut self, index: usize, delta: i32) -> (result: Result<usize, StateError>)
        ensures
            EntityStore::<ResourcePair>::can_move(old(self).resources.images@.len(), index, delta) ==> {
                &&& result matches Ok(new_index)
                &&& new_index == index + delta
                &&& final(self).resources.images@ == moved(old(self).resources.images@, index as int, index + delta)
                &&& *final(self) == (SaveData {
                resources: Resources { images: final(self).resources.images, ..old(self).resources },
                ..*old(self)
            })
            },
            !EntityStore::<ResourcePair>::can_move(old(self).resources.images@.len(), index, delta) ==> {
                &&& result == Err::<usize, StateError>(StateError::OutOfRange)
                &&& *final(self) == *old(self)
            },
            old(self).references_valid() ==> final(self).references_valid(),
            old(self).sizes_synced() ==> final(self).sizes_synced(),
    {
        self.resources.images.move_by(index, delta)
    }

    /// Puts `image` in the place of the image at `index`.
    pub fn replace_image_at(&mut self, index: usize, image: ResourcePair) -> (result: Result<(), StateError>)
        ensures
            index < old(self).resources.images@.len() ==> {
                &&& result == Ok::<(), StateError>(())
                &&& final(self).resources.images@ == old(self).resources.images@.update(index as int, image)
                &&& *final(self) == (SaveData {
                resources: Resources { images: final(self).resources.images, ..old(self).resources },
                ..*old(self)
            })
            },
            index >= old(self).resources.images@.len() ==> {
                &&& result == Err::<(), StateError>(StateError::OutOfRange)
                &&& *final(self) == *old(self)
            },
            old(self).references_valid() ==> final(self).references_valid(),
            old(self).sizes_synced() ==> final(self).sizes_synced(),
    {
        self.resources.images.replace_at(index, image)
    }

    /// Adds a new, neutral string behind all others and returns its position.
    pub fn add_string(&mut self) -> (index: usize)
        ensures
            index == old(self).resources.strings@.len(),
            appended(old(self).resources.strings@, final(self).resources.strings@),
            final(self).resources.strings@[index as int].is_neutral(),
            *final(self) == (SaveData {
                resources: Resources { strings: final(self).resources.strings, ..old(self).resources },
                ..*old(self)
            }),
            old(self).references_valid() ==> final(self).references_valid(),
            old(self).sizes_synced() ==> final(self).sizes_synced(),
    {
        let index = self.resources.strings.append(ResourcePair::default());
        proof {
            assert(self.resources.strings@.drop_last() =~= old(self).resources.strings@);
        }
        index
    }

    /// Removes the string at `index` and returns it. Nothing refers to texts
    /// by position, so nothing else changes.
    pub fn remove_string_at(&mut self, index: usize) -> (result: Result<ResourcePair, StateError>)
        ensures
            index < old(self).resources.strings@.len() ==> {
                &&& result == Ok::<ResourcePair, StateError>(old(self).resources.strings@[index as int])
                &&& final(self).resources.strings@ == old(self).resources.strings@.remove(index as int)
                &&& *final(self) == (SaveData {
                resources: Resources { strings: final(self).resources.strings, ..old(self).resources },
                ..*old(self)
            })
            },
            index >= old(self).resources.strings@.len() ==> {
                &&& result == Err::<ResourcePair, StateError>(StateError::OutOfRange)
                &&& *final(self) == *old(self)
            },
            old(self).references_valid() ==> final(self).references_valid(),
            old(self).sizes_synced() ==> final(self).sizes_synced(),
    {
        self.resources.strings.remove_at(index)
    }

    /// Moves the string at `index` by `delta` positions and returns its new position.
    pub fn move_string(&mut self, index: usize, delta: i32) -> (result: Result<usize, StateError>)
        ensures
            EntityStore::<ResourcePair>::can_move(old(self).resources.strings@.len(), index, delta) ==> {
                &&& result matches Ok(new_index)
                &&& new_index == index + delta
                &&& final(self).resources.strings@ == moved(old(self).resources.strings@, index as int, index + delta)
                &&& *final(self) == (SaveData {
                resources: Resources { strings: final(self).resources.strings, ..old(self).resources },
                ..*old(self)
            })
            },
            !EntityStore::<ResourcePair>::can_move(old(self).resources.strings@.len(), index, delta) ==> {
                &&& result == Err::<usize, StateError>(StateError::OutOfRange)
                &&& *final(self) == *old(self)
            },
            old(self).references_valid() ==> final(self).references_valid(),
            old(self).sizes_synced() ==> final(self).sizes_synced(),
    {
        self.resources.strings.move_by(index, delta)
    }

    /// Puts `string` in the place of the string at `index`.
    pub fn replace_string_at(&mut self, index: usize, string: ResourcePair) -> (result: Result<(), StateError>)
        ensures
            index < old(self).resources.strings@.len() ==> {
                &&& result == Ok::<(), StateError>(())
                &&& final(self).resources.strings@ == old(self).resources.strings@.update(index as int, string)
                &&& *final(self) == (SaveData {
                resources: Resources { strings: final(self).resources.strings, ..old(self).resources },
                ..*old(self)
            })
            },
            index >= old(self).resources.strings@.len() ==> {
                &&& result == Err::<(), StateError>(StateError::OutOfRange)
                &&& *final(self) == *old(self)
            },
            old(self).references_valid() ==> final(self).references_valid(),
            old(self).sizes_synced() ==> final(self).sizes_synced(),
    {
        self.resources.strings.replace_at(index, string)
    }
}

} // verus!
