//! The shape of a single-elimination bracket, and how it follows the number
//! of stages that the settings ask for.
//!
//! The last stage is the final and has one slot; every stage before it has
//! twice the slots of the next. The bracket grows and shrinks at its front,
//! so what has been entered near the final is never lost.

use vstd::prelude::*;
use vstd::arithmetic::power2::{lemma2_to64, lemma_pow2_strictly_increases, lemma_pow2_unfold, pow2};
use crate::invariants::{bracket_below, slot_below};
use crate::models::{Division, Matchup, SaveData};

verus! {

/// A stage of `n` slots in which nothing has been entered.
pub open spec fn empty_slots(n: nat) -> Seq<Option<Matchup>> {
    Seq::new(n, |i: int| None::<Matchup>)
}

/// The stages of a bracket, each as the sequence of its slots.
pub open spec fn stages_of(bracket: Vec<Vec<Option<Matchup>>>) -> Seq<Seq<Option<Matchup>>> {
    bracket@.map_values(|stage: Vec<Option<Matchup>>| stage@)
}

/// The number of slots that stage `stage` has in a bracket of `count` stages.
pub open spec fn stage_size(count: nat, stage: int) -> nat {
    pow2((count - 1 - stage) as nat)
}

/// Whether a bracket has `count` stages of the sizes that a single-elimination
/// bracket of `count` stages has.
pub open spec fn bracket_shaped(stages: Seq<Seq<Option<Matchup>>>, count: nat) -> bool {
    &&& stages.len() == count
    &&& forall|i: int| 0 <= i < count ==> (#[trigger] stages[i]).len() == stage_size(count, i)
}

/// The stages that a bracket of `count` stages gets in front of the `kept`
/// stages it already has: all empty, the first one the largest.
pub open spec fn fresh_stages(count: nat, kept: nat) -> Seq<Seq<Option<Matchup>>> {
    Seq::new((count - kept) as nat, |i: int| empty_slots(stage_size(count, i)))
}

/// A bracket brought to `count` stages: stages are dropped at the front, or
/// empty stages are put in front of it.
pub open spec fn reconciled_bracket(stages: Seq<Seq<Option<Matchup>>>, count: nat) -> Seq<
    Seq<Option<Matchup>>,
> {
    if count <= stages.len() {
        stages.skip(stages.len() - count)
    } else {
        fresh_stages(count, stages.len()) + stages
    }
}

/// Whether a bracket of `count` stages can be held: its first stage has
/// `2^(count - 1)` slots, which must be a length that the machine can index.
pub open spec fn stage_count_fits(count: nat) -> bool {
    count > 0 ==> pow2((count - 1) as nat) <= usize::MAX
}

/// What a stage is called, by how far it is from the final.
pub open spec fn stage_name(count: nat, stage: int) -> Seq<char> {
    if stage == count - 1 {
        "Finals"@
    } else if stage == count - 2 {
        "Semifinals"@
    } else if stage == count - 3 {
        "Quarterfinals"@
    } else {
        "Preliminaries"@
    }
}

/// What stage `stage` of a bracket of `count` stages is called: the last
/// three are the quarterfinals, the semifinals and the finals.
pub fn stage_title(count: usize, stage: usize) -> (title: &'static str)
    requires
        stage < count,
    ensures
        title@ == stage_name(count as nat, stage as int),
{
    let distance: usize = count - 1 - stage;
    if distance == 0 {
        "Finals"
    } else if distance == 1 {
        "Semifinals"
    } else if distance == 2 {
        "Quarterfinals"
    } else {
        "Preliminaries"
    }
}

/// A stage of `n` empty slots.
pub fn empty_stage(n: usize) -> (stage: Vec<Option<Matchup>>)
    ensures
        stage@ == empty_slots(n as nat),
{
    let mut stage: Vec<Option<Matchup>> = Vec::new();
    let mut i: usize = 0;
    while i < n
        invariant
            i <= n,
            stage@ == empty_slots(i as nat),
        decreases n - i,
    {
        stage.push(None);
        i = i + 1;
    }
    stage
}

/// `2^exponent`, or `None` if that is more than the machine can index.
pub fn checked_two_to_the(exponent: usize) -> (power: Option<usize>)
    ensures
        pow2(exponent as nat) <= usize::MAX ==> power == Some(pow2(exponent as nat) as usize),
        pow2(exponent as nat) > usize::MAX ==> power is None,
{
    let mut power: usize = 1;
    let mut i: usize = 0;
    proof {
        lemma2_to64();
    }
    while i < exponent
        invariant
            i <= exponent,
            power == pow2(i as nat),
        decreases exponent - i,
    {
        proof {
            lemma_pow2_unfold((i + 1) as nat);
        }
        if power > usize::MAX / 2 {
            proof {
                if i + 1 < exponent {
                    lemma_pow2_strictly_increases((i + 1) as nat, exponent as nat);
                }
            }
            return None;
        }
        power = power * 2;
        i = i + 1;
    }
    Some(power)
}

/// Whether a bracket of `count` stages can be held on this machine.
pub fn stage_count_supported(count: usize) -> (supported: bool)
    ensures
        supported == stage_count_fits(count as nat),
{
    if count == 0 {
        true
    } else {
        checked_two_to_the(count - 1).is_some()
    }
}

/// Brings a bracket to `count` stages. Stages that are too many are dropped
/// at the front. Stages that are missing are put in front, all their slots
/// empty, each twice as large as the one behind it was when it was added.
/// The stages that stay are not touched.
pub fn reconcile_bracket(bracket: &mut Vec<Vec<Option<Matchup>>>, count: usize)
    requires
        old(bracket)@.len() < count ==> stage_count_fits(count as nat),
    ensures
        stages_of(*final(bracket)) == reconciled_bracket(stages_of(*old(bracket)), count as nat),
{
    let ghost before = stages_of(*bracket);
    if count <= bracket.len() {
        assert(before.skip(0) =~= before);
        while count < bracket.len()
            invariant
                count <= bracket@.len() <= before.len(),
                stages_of(*bracket) == before.skip(before.len() - bracket@.len()),
            decreases bracket@.len(),
        {
            let ghost previous = stages_of(*bracket);
            bracket.remove(0);
            assert(stages_of(*bracket) =~= previous.skip(1));
            assert(previous.skip(1) =~= before.skip(before.len() - bracket@.len()));
        }
    } else {
        assert(fresh_stages(count as nat, before.len()).skip(count - before.len()) + before
            =~= before);
        while count > bracket.len()
            invariant
                before.len() <= bracket@.len() <= count,
                before.len() < count,
                stage_count_fits(count as nat),
                stages_of(*bracket) == fresh_stages(count as nat, before.len()).skip(
                    count - bracket@.len(),
                ) + before,
            decreases count - bracket@.len(),
        {
            let ghost previous = stages_of(*bracket);
            let ghost held = bracket@.len();
            proof {
                if held < count - 1 {
                    lemma_pow2_strictly_increases(held, (count - 1) as nat);
                }
            }
            let size = checked_two_to_the(bracket.len());
            let stage = empty_stage(size.unwrap());
            bracket.insert(0, stage);
            assert(stages_of(*bracket) =~= seq![empty_slots(pow2(held))] + previous);
            assert(stages_of(*bracket) =~= fresh_stages(count as nat, before.len()).skip(
                count - bracket@.len(),
            ) + before);
        }
        assert(fresh_stages(count as nat, before.len()).skip(0) =~= fresh_stages(
            count as nat,
            before.len(),
        ));
    }
}

/// A bracket that is brought to the number of stages it has stays as it is.
pub proof fn lemma_reconcile_bracket_settled(stages: Seq<Seq<Option<Matchup>>>)
    ensures
        reconciled_bracket(stages, stages.len()) == stages,
{
    assert(stages.skip(0) =~= stages);
}

/// Bringing a bracket to `count` stages twice gives what doing it once gives.
pub proof fn lemma_reconcile_bracket_idempotent(stages: Seq<Seq<Option<Matchup>>>, count: nat)
    ensures
        reconciled_bracket(reconciled_bracket(stages, count), count) == reconciled_bracket(
            stages,
            count,
        ),
{
    lemma_reconcile_bracket_settled(reconciled_bracket(stages, count));
}

/// The stages nearest the final, as many as both brackets have, are the same
/// before and after: counted from the final, stage `back` is untouched.
pub proof fn lemma_reconcile_bracket_keeps_late_stages(
    stages: Seq<Seq<Option<Matchup>>>,
    count: nat,
    back: int,
)
    requires
        0 <= back < stages.len(),
        back < count,
    ensures
        reconciled_bracket(stages, count).len() == count,
        reconciled_bracket(stages, count)[count - 1 - back] == stages[stages.len() - 1 - back],
{
}

/// The stages that are put in front of a bracket are empty.
pub proof fn lemma_reconcile_bracket_adds_empty_stages(
    stages: Seq<Seq<Option<Matchup>>>,
    count: nat,
    i: int,
)
    requires
        0 <= i < count - stages.len(),
    ensures
        reconciled_bracket(stages, count)[i] == empty_slots(stage_size(count, i)),
{
}

/// A bracket of the right shape for its own length has the right shape for
/// `count` stages once it is brought to `count` stages.
pub proof fn lemma_reconcile_bracket_keeps_shape(stages: Seq<Seq<Option<Matchup>>>, count: nat)
    requires
        bracket_shaped(stages, stages.len()),
    ensures
        bracket_shaped(reconciled_bracket(stages, count), count),
{
    let after = reconciled_bracket(stages, count);
    assert forall|i: int| 0 <= i < count implies (#[trigger] after[i]).len() == stage_size(
        count,
        i,
    ) by {
        if count <= stages.len() {
            assert(after[i] == stages[i + stages.len() - count]);
        } else if i < count - stages.len() {
        } else {
            assert(after[i] == stages[i - (count - stages.len())]);
        }
    }
}

/// As long as the settings ask for at least one stage, the final is kept.
pub proof fn lemma_reconcile_bracket_keeps_final(stages: Seq<Seq<Option<Matchup>>>, count: nat)
    requires
        stages.len() >= 1,
        count >= 1,
    ensures
        reconciled_bracket(stages, count).last() == stages.last(),
{
    lemma_reconcile_bracket_keeps_late_stages(stages, count, 0);
}

/// A bracket whose team references are all below `bound` still is such a
/// bracket when it is brought to another number of stages.
pub proof fn lemma_reconciled_bracket_below(
    before: Vec<Vec<Option<Matchup>>>,
    after: Vec<Vec<Option<Matchup>>>,
    count: nat,
    bound: nat,
)
    requires
        bracket_below(before, bound),
        stages_of(after) == reconciled_bracket(stages_of(before), count),
    ensures
        bracket_below(after, bound),
{
    let old_stages = stages_of(before);
    let new_stages = stages_of(after);
    assert(new_stages.len() == after@.len());
    assert(old_stages.len() == before@.len());
    assert forall|s: int, k: int| 0 <= s < after@.len() && 0 <= k < after@[s]@.len() implies slot_below(
        #[trigger] after@[s]@[k],
        bound,
    ) by {
        assert(new_stages[s] == after@[s]@);
        assert(new_stages.len() == count);
        if count <= old_stages.len() {
            let from = s + old_stages.len() - count;
            assert(new_stages[s] == old_stages[from]);
            assert(old_stages[from] == before@[from]@);
            assert(slot_below(before@[from]@[k], bound));
        } else if s < count - old_stages.len() {
        } else {
            let from = s - (count - old_stages.len());
            assert(new_stages[s] == old_stages[from]);
            assert(old_stages[from] == before@[from]@);
            assert(slot_below(before@[from]@[k], bound));
        }
    }
}

impl SaveData {
    /// Whether the bracket has as many stages as the settings ask for, each of
    /// the size that its place in the bracket gives it.
    pub open spec fn bracket_synced(&self) -> bool {
        bracket_shaped(stages_of(self.division.bracket), self.settings.bracket_stage_count as nat)
    }

    /// Brings the bracket to the number of stages that the settings ask for.
    /// Nothing else changes. A bracket that had the right shape for the
    /// stages it had has the right shape afterwards; a new slot refers to
    /// nothing, so every reference that was valid stays valid.
    pub fn correct_bracket_to_count(&mut self)
        requires
            old(self).division.bracket@.len() < old(self).settings.bracket_stage_count
                ==> stage_count_fits(old(self).settings.bracket_stage_count as nat),
        ensures
            stages_of(final(self).division.bracket) == reconciled_bracket(
                stages_of(old(self).division.bracket),
                old(self).settings.bracket_stage_count as nat,
            ),
            *final(self) == (SaveData {
                division: Division {
                    bracket: final(self).division.bracket,
                    ..old(self).division
                },
                ..*old(self)
            }),
            bracket_shaped(
                stages_of(old(self).division.bracket),
                old(self).division.bracket@.len(),
            ) ==> final(self).bracket_synced(),
            old(self).references_valid() ==> final(self).references_valid(),
            old(self).rounds_synced() ==> final(self).rounds_synced(),
    {
        reconcile_bracket(&mut self.division.bracket, self.settings.bracket_stage_count);
        proof {
            let stages = stages_of(old(self).division.bracket);
            let count = old(self).settings.bracket_stage_count as nat;
            if bracket_shaped(stages, stages.len()) {
                lemma_reconcile_bracket_keeps_shape(stages, count);
            }
            if old(self).team_refs_valid() {
                lemma_reconciled_bracket_below(
                    old(self).division.bracket,
                    self.division.bracket,
                    count,
                    old(self).division.teams@.len(),
                );
            }
        }
    }
}

} // verus!
