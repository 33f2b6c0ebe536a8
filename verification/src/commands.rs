//! The commands that change the state. Each one either does all of its work,
//! corrections included, or refuses and changes nothing.

pub mod teams;
pub mod players;
pub mod vocabularies;
pub mod gamemodes;
pub mod resources;
pub mod contents;
pub mod settings;
