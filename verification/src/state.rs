//! The state of the running program: the tournament, and the file it was
//! loaded from or saved to.

use vstd::prelude::*;
use crate::error::StateError;
use crate::models::SaveData;
use crate::paths::remove_file_from_path;

verus! {

/// The tournament, and the path of its configuration file if it has one.
#[derive(Debug, Clone)]
pub struct AppState {
    pub loaded_config: Option<String>,
    pub data: SaveData,
}

impl AppState {
    pub fn new(loaded_config: Option<String>, data: SaveData) -> (state: Self)
        ensures
            state.loaded_config == loaded_config,
            state.data == data,
    {
        AppState { loaded_config, data }
    }

    /// The directory of the configuration file, below which the assets and
    /// the templates lie; none while no configuration is loaded.
    pub fn get_base_path(&self) -> (base: Option<String>)
        ensures
            base is Some == self.loaded_config is Some,
    {
        match &self.loaded_config {
            Some(path) => Some(remove_file_from_path(path.as_str())),
            None => None,
        }
    }

    /// Takes over a document that was read from the file at `path`. The
    /// document's rounds and bracket are first brought to the numbers that
    /// its settings ask for. The load fails, and the state stays as it is,
    /// if there is no document because the file could not be understood, or
    /// if the document asks for a bracket that the machine cannot hold.
    pub fn load(&mut self, path: &str, document: Option<SaveData>) -> (result: Result<
        (),
        StateError,
    >)
        ensures
            match document {
                Some(data) if data.can_synchronize() => {
                    &&& result == Ok::<(), StateError>(())
                    &&& final(self).loaded_config matches Some(loaded)
                    &&& loaded@ == path@
                    &&& SaveData::synchronized_from(data, final(self).data)
                    &&& final(self).data.rounds_synced()
                    &&& data.references_valid() ==> final(self).data.references_valid()
                },
                _ => {
                    &&& result == Err::<(), StateError>(StateError::SerializationError)
                    &&& *final(self) == *old(self)
                },
            },
    {
        match document {
            None => Err(StateError::SerializationError),
            Some(data) => {
                if !data.check_can_synchronize() {
                    return Err(StateError::SerializationError);
                }
                let mut data = data;
                data.synchronize();
                self.loaded_config = Some(path.to_owned());
                self.data = data;
                Ok(())
            },
        }
    }

    /// Notes that the state was saved to the file at `path`: that file is
    /// the configuration file from now on.
    pub fn saved(&mut self, path: &str)
        ensures
            final(self).loaded_config matches Some(loaded) && loaded@ == path@,
            final(self).data == old(self).data,
    {
        self.loaded_config = Some(path.to_owned());
    }
}

impl Default for AppState {
    fn default() -> (state: Self)
        ensures
            state.loaded_config is None,
            state.data.is_new_event(),
            state.data.references_valid(),
            state.data.bracket_synced(),
    {
        AppState::new(None, SaveData::default())
    }
}

} // verus!
