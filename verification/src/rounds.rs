//! How the rounds of the current match follow the number of rounds that the
//! settings ask for.

use vstd::prelude::*;
use crate::invariants::{round_fits, rounds_fit};
use crate::models::{Gamemode, Match, Round, SaveData};

verus! {

/// `n` rounds in which nothing has been entered.
pub open spec fn neutral_rounds(n: nat) -> Seq<Round> {
    Seq::new(n, |i: int| Round::neutral())
}

/// A list of rounds brought to `count` rounds: rounds are dropped at the end,
/// or neutral rounds are added at the end.
pub open spec fn reconciled_rounds(rounds: Seq<Round>, count: nat) -> Seq<Round> {
    if count <= rounds.len() {
        rounds.take(count as int)
    } else {
        rounds + neutral_rounds((count - rounds.len()) as nat)
    }
}

/// Brings a list of rounds to `count` rounds. Rounds that are too many are
/// dropped at the end, with what was entered in them. Rounds that are missing
/// are added at the end, with nothing entered. The rounds that stay are not touched.
pub fn reconcile_rounds(rounds: &mut Vec<Round>, count: usize)
    ensures
        final(rounds)@ == reconciled_rounds(old(rounds)@, count as nat),
{
    let ghost before = rounds@;
    if count <= rounds.len() {
        assert(before.take(before.len() as int) =~= before);
        while count < rounds.len()
            invariant
                count <= rounds@.len() <= before.len(),
                rounds@ == before.take(rounds@.len() as int),
            decreases rounds@.len(),
        {
            rounds.pop();
            assert(rounds@ =~= before.take(rounds@.len() as int));
        }
    } else {
        assert(before + neutral_rounds(0) =~= before);
        while count > rounds.len()
            invariant
                before.len() <= rounds@.len() <= count,
                rounds@ == before + neutral_rounds((rounds@.len() - before.len()) as nat),
            decreases count - rounds@.len(),
        {
            rounds.push(Round::default());
            assert(rounds@ =~= before + neutral_rounds((rounds@.len() - before.len()) as nat));
        }
    }
}

/// A list that is brought to the length it has stays as it is.
pub proof fn lemma_reconcile_rounds_settled(rounds: Seq<Round>)
    ensures
        reconciled_rounds(rounds, rounds.len()) == rounds,
{
    assert(rounds.take(rounds.len() as int) =~= rounds);
}

/// The result has `count` rounds.
pub proof fn lemma_reconcile_rounds_len(rounds: Seq<Round>, count: nat)
    ensures
        reconciled_rounds(rounds, count).len() == count,
{
}

/// Bringing a list to `count` rounds twice gives what doing it once gives.
pub proof fn lemma_reconcile_rounds_idempotent(rounds: Seq<Round>, count: nat)
    ensures
        reconciled_rounds(reconciled_rounds(rounds, count), count) == reconciled_rounds(
            rounds,
            count,
        ),
{
    lemma_reconcile_rounds_settled(reconciled_rounds(rounds, count));
}

/// The rounds at the positions that the list has before and after are the
/// same before and after; the rounds behind them are neutral.
pub proof fn lemma_reconcile_rounds_keeps_front(rounds: Seq<Round>, count: nat, i: int)
    requires
        0 <= i < count,
    ensures
        i < rounds.len() ==> reconciled_rounds(rounds, count)[i] == rounds[i],
        i >= rounds.len() ==> reconciled_rounds(rounds, count)[i] == Round::neutral(),
{
}

/// A list that is cut to `fewer` rounds and then brought back to its old
/// length has its first `fewer` rounds where they were, as they were; the
/// rounds behind them are neutral, whatever they were before.
pub proof fn lemma_reconcile_rounds_shrink_then_grow(rounds: Seq<Round>, fewer: nat)
    requires
        fewer <= rounds.len(),
    ensures
        reconciled_rounds(reconciled_rounds(rounds, fewer), rounds.len()) == rounds.take(
            fewer as int,
        ) + neutral_rounds((rounds.len() - fewer) as nat),
{
    assert(rounds.take(rounds.len() as int) =~= rounds);
    assert(rounds + neutral_rounds(0) =~= rounds);
}

/// Rounds that fit the gamemodes still do when they are brought to another number.
pub proof fn lemma_reconciled_rounds_fit(rounds: Seq<Round>, count: nat, gamemodes: Seq<Gamemode>)
    requires
        rounds_fit(rounds, gamemodes),
    ensures
        rounds_fit(reconciled_rounds(rounds, count), gamemodes),
{
    let after = reconciled_rounds(rounds, count);
    assert forall|r: int| 0 <= r < after.len() implies round_fits(#[trigger] after[r], gamemodes) by {
        if r < rounds.len() {
            assert(after[r] == rounds[r]);
        }
    }
}

impl SaveData {
    /// Whether the current match has as many rounds as the settings ask for.
    pub open spec fn rounds_synced(&self) -> bool {
        self.current_match.rounds@.len() == self.settings.round_count
    }

    /// Brings the rounds of the current match to the number that the settings
    /// ask for. Nothing else changes. A new round refers to nothing, so every
    /// reference that was valid stays valid.
    pub fn correct_rounds_to_count(&mut self)
        ensures
            final(self).current_match.rounds@ == reconciled_rounds(
                old(self).current_match.rounds@,
                old(self).settings.round_count as nat,
            ),
            *final(self) == (SaveData {
                current_match: Match {
                    rounds: final(self).current_match.rounds,
                    ..old(self).current_match
                },
                ..*old(self)
            }),
            final(self).rounds_synced(),
            old(self).references_valid() ==> final(self).references_valid(),
            old(self).bracket_synced() ==> final(self).bracket_synced(),
    {
        reconcile_rounds(&mut self.current_match.rounds, self.settings.round_count);
        proof {
            if old(self).round_refs_valid() {
                lemma_reconciled_rounds_fit(
                    old(self).current_match.rounds@,
                    old(self).settings.round_count as nat,
                    old(self).settings.gamemodes@,
                );
            }
        }
    }
}

} // verus!
