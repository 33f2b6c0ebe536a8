//! Commands on the settings, and what follows from them for the rounds and
//! the bracket.

use vstd::prelude::*;
use crate::bracket::{
    bracket_shaped, reconciled_bracket, stage_count_fits, stage_count_supported, stages_of,
};
use crate::models::{Division, Match, SaveData, Settings};
use crate::rounds::reconciled_rounds;

verus! {

impl SaveData {
    /// Gives the event its name.
    pub fn set_event_name(&mut self, name: &str)
        ensures
            final(self).settings.event_name@ == name@,
            *final(self) == (SaveData {
                settings: Settings {
                    event_name: final(self).settings.event_name,
                    ..old(self).settings
                },
                ..*old(self)
            }),
            old(self).references_valid() ==> final(self).references_valid(),
            old(self).sizes_synced() ==> final(self).sizes_synced(),
    {
        self.settings.event_name = name.to_owned();
    }

    /// Says how many rounds a match has, and brings the rounds of the
    /// current match to that number: the last rounds are dropped, or neutral
    /// rounds are added at the end.
    pub fn set_round_count(&mut self, count: usize)
        ensures
            final(self).current_match.rounds@ == reconciled_rounds(
                old(self).current_match.rounds@,
                count as nat,
            ),
            *final(self) == (SaveData {
                settings: Settings { round_count: count, ..old(self).settings },
                current_match: Match {
                    rounds: final(self).current_match.rounds,
                    ..old(self).current_match
                },
                ..*old(self)
            }),
            final(self).rounds_synced(),
            old(self).references_valid() ==> final(self).references_valid(),
            old(self).bracket_synced() ==> final(self).bracket_synced(),
    {
        self.settings.round_count = count;
        self.correct_rounds_to_count();
    }

    /// Says how many stages the bracket has, and brings the bracket to that
    /// number: the earliest stages are dropped, or empty stages are put in
    /// front. The stages that stay, the final among them, are not touched.
    pub fn set_bracket_stage_count(&mut self, count: usize)
        requires
            old(self).division.bracket@.len() < count ==> stage_count_fits(count as nat),
        ensures
            stages_of(final(self).division.bracket) == reconciled_bracket(
                stages_of(old(self).division.bracket),
                count as nat,
            ),
            *final(self) == (SaveData {
                settings: Settings { bracket_stage_count: count, ..old(self).settings },
                division: Division {
                    bracket: final(self).division.bracket,
                    ..old(self).division
                },
                ..*old(self)
            }),
            bracket_shaped(
                stages_of(old(self).division.bracket),
                old(self).division.bracket@.len(),
            ) ==> final(self).bracket_synced(),
            old(self).references_valid() ==> final(self).references_valid(),
            old(self).rounds_synced() ==> final(self).rounds_synced(),
    {
        self.settings.bracket_stage_count = count;
        self.correct_bracket_to_count();
    }

    /// Whether the rounds and the bracket of a state can be brought to the
    /// numbers that its settings ask for: the bracket need not grow, or it
    /// grows to a number of stages that the machine can hold.
    pub open spec fn can_synchronize(&self) -> bool {
        self.division.bracket@.len() < self.settings.bracket_stage_count ==> stage_count_fits(
            self.settings.bracket_stage_count as nat,
        )
    }

    /// Whether the rounds and the bracket of a state can be brought to the
    /// numbers that its settings ask for.
    pub fn check_can_synchronize(&self) -> (possible: bool)
        ensures
            possible == self.can_synchronize(),
    {
        self.division.bracket.len() >= self.settings.bracket_stage_count || stage_count_supported(
            self.settings.bracket_stage_count,
        )
    }

    /// Whether `after` is `before` with the rounds and the bracket brought to
    /// the numbers that the settings ask for, and nothing else changed.
    pub open spec fn synchronized_from(before: SaveData, after: SaveData) -> bool {
        &&& after.current_match.rounds@ == reconciled_rounds(
            before.current_match.rounds@,
            before.settings.round_count as nat,
        )
        &&& stages_of(after.division.bracket) == reconciled_bracket(
            stages_of(before.division.bracket),
            before.settings.bracket_stage_count as nat,
        )
        &&& after == (SaveData {
            division: Division { bracket: after.division.bracket, ..before.division },
            current_match: Match { rounds: after.current_match.rounds, ..before.current_match },
            ..before
        })
    }

    /// Brings the rounds and the bracket to the numbers that the settings
    /// ask for. This is what a state that was read from a document needs
    /// first: the document's lists may not be as long as its settings say.
    pub fn synchronize(&mut self)
        requires
            old(self).can_synchronize(),
        ensures
            Self::synchronized_from(*old(self), *final(self)),
            final(self).rounds_synced(),
            bracket_shaped(
                stages_of(old(self).division.bracket),
                old(self).division.bracket@.len(),
            ) ==> final(self).bracket_synced(),
            old(self).references_valid() ==> final(self).references_valid(),
    {
        let round_count: usize = self.settings.round_count;
        let stage_count: usize = self.settings.bracket_stage_count;
        self.set_round_count(round_count);
        self.set_bracket_stage_count(stage_count);
    }
}

} // verus!
