//! How one stored position changes when the collection it points into is edited.

use vstd::prelude::*;

verus! {

/// A structural change of an ordered collection, by position.
#[derive(Clone, Copy, Debug, PartialEq, Eq, Structural)]
pub enum ListEdit {
    /// A new entry now stands at this position; what stood there or later moved up by one.
    Inserted(usize),
    /// The entry at this position is gone; what stood later moved down by one.
    Removed(usize),
    /// The entry at the first position was taken out and put back at the second.
    Moved(usize, usize),
}

impl ListEdit {
    /// Whether the edit can be made on a collection of `len` entries.
    pub open spec fn applies_to(self, len: nat) -> bool {
        match self {
            ListEdit::Inserted(p) => p <= len,
            ListEdit::Removed(p) => p < len,
            ListEdit::Moved(a, b) => a < len && b < len,
        }
    }

    /// The length of a collection of `len` entries after the edit.
    pub open spec fn len_after(self, len: nat) -> nat {
        match self {
            ListEdit::Inserted(_) => len + 1,
            ListEdit::Removed(_) => (len - 1) as nat,
            ListEdit::Moved(_, _) => len,
        }
    }

    /// The edit that undoes this one.
    pub open spec fn inverse(self) -> ListEdit {
        match self {
            ListEdit::Inserted(p) => ListEdit::Removed(p),
            ListEdit::Removed(p) => ListEdit::Inserted(p),
            ListEdit::Moved(a, b) => ListEdit::Moved(b, a),
        }
    }

    /// Whether the edit turns the collection `before` into `after`. An
    /// insertion may add any entry.
    pub open spec fn turns<T>(self, before: Seq<T>, after: Seq<T>) -> bool {
        match self {
            ListEdit::Inserted(p) => p <= before.len() && after.len() == before.len() + 1
                && after.remove(p as int) == before,
            ListEdit::Removed(p) => p < before.len() && after == before.remove(p as int),
            ListEdit::Moved(a, b) => a < before.len() && b < before.len() && after == moved(
                before,
                a as int,
                b as int,
            ),
        }
    }
}

/// Whether `after` is `before` with one entry added behind all others.
pub open spec fn appended<T>(before: Seq<T>, after: Seq<T>) -> bool {
    after.len() == before.len() + 1 && after.drop_last() == before
}

/// The sequence `s` with the entry at `from` taken out and put back at `to`.
/// The entries between the two positions move by one towards `from`.
pub open spec fn moved<T>(s: Seq<T>, from: int, to: int) -> Seq<T>
    recommends
        0 <= from < s.len(),
        0 <= to < s.len(),
{
    s.remove(from).insert(to, s[from])
}

/// A stored reference as a mathematical position.
pub open spec fn position(reference: Option<usize>) -> Option<int> {
    match reference {
        Some(i) => Some(i as int),
        None => None,
    }
}

/// Whether a reference is absent or points into a collection of `len` entries.
pub open spec fn in_range(reference: Option<int>, len: nat) -> bool {
    reference matches Some(i) ==> 0 <= i < len
}

/// Whether a stored reference is absent or points into a collection of `len` entries.
pub fn refers_into(reference: Option<usize>, len: usize) -> (valid: bool)
    ensures
        valid == in_range(position(reference), len as nat),
{
    match reference {
        Some(i) => i < len,
        None => true,
    }
}

/// Where a reference points after `edit`, or `None` if what it pointed at is gone.
pub open spec fn corrected(reference: Option<int>, edit: ListEdit) -> Option<int> {
    match reference {
        None => None,
        Some(i) => match edit {
            ListEdit::Inserted(p) => if i >= p {
                Some(i + 1)
            } else {
                Some(i)
            },
            ListEdit::Removed(p) => if i == p {
                None
            } else if i > p {
                Some(i - 1)
            } else {
                Some(i)
            },
            ListEdit::Moved(a, b) => if i == a {
                Some(b as int)
            } else if a < i <= b {
                Some(i - 1)
            } else if b <= i < a {
                Some(i + 1)
            } else {
                Some(i)
            },
        },
    }
}

/// A mathematical position as a stored reference.
pub open spec fn stored(reference: Option<int>) -> Option<usize> {
    match reference {
        Some(i) => Some(i as usize),
        None => None,
    }
}

/// Whether the corrected reference still fits the machine's index type: an
/// insertion moves a reference up by one, so the reference must not be the
/// largest index there is. Every reference that points into a collection
/// fits, and so does every reference under a removal or a move.
pub open spec fn representable(reference: Option<usize>, edit: ListEdit) -> bool {
    edit is Inserted ==> (reference matches Some(i) ==> i < usize::MAX)
}

/// Where a stored reference points after `edit`, as a stored reference.
pub open spec fn corrected_reference(reference: Option<usize>, edit: ListEdit) -> Option<usize> {
    stored(corrected(position(reference), edit))
}

/// Rewrites one stored reference for an edit of the collection it points into.
pub fn correct_index(reference: Option<usize>, edit: ListEdit) -> (result: Option<usize>)
    requires
        representable(reference, edit),
    ensures
        position(result) == corrected(position(reference), edit),
        result == corrected_reference(reference, edit),
{
    match reference {
        None => None,
        Some(i) => match edit {
            ListEdit::Inserted(p) => if i >= p {
                Some(i + 1)
            } else {
                Some(i)
            },
            ListEdit::Removed(p) => if i == p {
                None
            } else if i > p {
                Some(i - 1)
            } else {
                Some(i)
            },
            ListEdit::Moved(a, b) => if i == a {
                Some(b)
            } else if a < i && i <= b {
                Some(i - 1)
            } else if b <= i && i < a {
                Some(i + 1)
            } else {
                Some(i)
            },
        },
    }
}

/// A reference that is absent stays absent under every edit.
pub proof fn lemma_absent_stays_absent(edit: ListEdit)
    ensures
        corrected(None, edit) is None,
{
}

/// Only removals and moves can change a reference that points into the
/// collection; an appended entry changes none.
pub proof fn lemma_append_changes_nothing(reference: Option<int>, len: nat)
    requires
        len <= usize::MAX,
        in_range(reference, len),
    ensures
        corrected(reference, ListEdit::Inserted(len as usize)) == reference,
{
}

/// A reference that was absent or in range is absent or in range afterwards.
pub proof fn lemma_corrected_in_range(reference: Option<int>, edit: ListEdit, len: nat)
    requires
        edit.applies_to(len),
        in_range(reference, len),
    ensures
        in_range(corrected(reference, edit), edit.len_after(len)),
{
}

/// A reference that points into a collection can always be corrected in place.
pub proof fn lemma_in_range_is_representable(reference: Option<usize>, edit: ListEdit, len: usize)
    requires
        in_range(position(reference), len as nat),
    ensures
        representable(reference, edit),
{
}

/// What `correct_index` returns for a reference it accepts is the corrected
/// position and nothing else.
pub proof fn lemma_corrected_reference_is_exact(reference: Option<usize>, edit: ListEdit)
    requires
        representable(reference, edit),
    ensures
        position(corrected_reference(reference, edit)) == corrected(position(reference), edit),
{
}

/// The corrected reference points at the entry that the reference pointed at
/// before; it is absent exactly when that entry was removed.
pub proof fn lemma_corrected_follows_entry<T>(before: Seq<T>, after: Seq<T>, edit: ListEdit, i: int)
    requires
        edit.turns(before, after),
        0 <= i < before.len(),
    ensures
        match corrected(Some(i), edit) {
            Some(j) => 0 <= j < after.len() && after[j] == before[i],
            None => edit == ListEdit::Removed(i as usize),
        },
{
    match edit {
        ListEdit::Inserted(p) => {
            if i >= p {
                assert(after.remove(p as int)[i] == after[i + 1]);
            } else {
                assert(after.remove(p as int)[i] == after[i]);
            }
        },
        _ => {},
    }
}

/// Whether the reference `now` into the collection `after` stands for what
/// the reference `then` into the collection `before` stood for: both are
/// absent, or they point at the same entry, or `now` is absent because the
/// entry that `then` pointed at was removed.
pub open spec fn follows<T>(
    then: Option<usize>,
    now: Option<usize>,
    before: Seq<T>,
    after: Seq<T>,
    edit: ListEdit,
) -> bool {
    match then {
        None => now is None,
        Some(i) => match now {
            Some(j) => j < after.len() && after[j as int] == before[i as int],
            None => edit == ListEdit::Removed(i),
        },
    }
}

/// A corrected reference stands for what the reference stood for.
pub proof fn lemma_corrected_reference_follows<T>(
    reference: Option<usize>,
    before: Seq<T>,
    after: Seq<T>,
    edit: ListEdit,
)
    requires
        edit.turns(before, after),
        in_range(position(reference), before.len()),
        after.len() <= usize::MAX,
    ensures
        follows(reference, corrected_reference(reference, edit), before, after, edit),
{
    match reference {
        Some(i) => {
            lemma_corrected_follows_entry(before, after, edit, i as int);
        },
        None => {},
    }
}

/// Every entry of the edited collection is an entry of the old one, at the
/// position whose correction is its new position; but for the entry that an
/// insertion has added.
pub proof fn lemma_entry_comes_from<T>(before: Seq<T>, after: Seq<T>, edit: ListEdit, j: int) -> (i: int)
    requires
        edit.turns(before, after),
        0 <= j < after.len(),
        edit matches ListEdit::Inserted(p) ==> p != j,
    ensures
        0 <= i < before.len(),
        corrected(Some(i), edit) == Some(j),
        after[j] == before[i],
{
    let i = match edit {
        ListEdit::Inserted(p) => if j > p {
            j - 1
        } else {
            j
        },
        ListEdit::Removed(p) => if j >= p {
            j + 1
        } else {
            j
        },
        ListEdit::Moved(a, b) => if j == b {
            a as int
        } else if a <= j < b {
            j + 1
        } else if b < j <= a {
            j - 1
        } else {
            j
        },
    };
    lemma_corrected_follows_entry(before, after, edit, i);
    i
}

/// Two references that point at different entries still do after the edit.
pub proof fn lemma_corrected_keeps_apart(i: int, j: int, edit: ListEdit)
    requires
        i != j,
        corrected(Some(i), edit) is Some,
    ensures
        corrected(Some(i), edit) != corrected(Some(j), edit),
{
}

/// Removing the entry at `p` and inserting one at `p` again gives every
/// reference that did not point at `p` its old value back; the one that
/// pointed at `p` stays absent.
pub proof fn lemma_remove_then_insert(reference: Option<int>, p: usize)
    ensures
        reference != Some(p as int) ==> corrected(
            corrected(reference, ListEdit::Removed(p)),
            ListEdit::Inserted(p),
        ) == reference,
        reference == Some(p as int) ==> corrected(
            corrected(reference, ListEdit::Removed(p)),
            ListEdit::Inserted(p),
        ) is None,
{
}

/// Inserting at `p` and removing at `p` again restores every reference.
pub proof fn lemma_insert_then_remove(reference: Option<int>, p: usize)
    ensures
        corrected(corrected(reference, ListEdit::Inserted(p)), ListEdit::Removed(p)) == reference,
{
}

/// Moving an entry from `a` to `b` and back restores every reference.
pub proof fn lemma_move_there_and_back(reference: Option<int>, a: usize, b: usize)
    ensures
        corrected(corrected(reference, ListEdit::Moved(a, b)), ListEdit::Moved(b, a)) == reference,
{
}

/// Whatever the edit, the edit that undoes it gives every reference that
/// survived it its old value back.
pub proof fn lemma_inverse_restores(reference: Option<int>, edit: ListEdit)
    ensures
        reference is Some && corrected(reference, edit) is None ==> edit == ListEdit::Removed(
            reference->0 as usize,
        ),
        reference is None || corrected(reference, edit) is Some ==> corrected(
            corrected(reference, edit),
            edit.inverse(),
        ) == reference,
{
}

/// A move that goes nowhere changes no reference.
pub proof fn lemma_move_to_same_place(reference: Option<int>, a: usize)
    ensures
        corrected(reference, ListEdit::Moved(a, a)) == reference,
{
}

/// Where a reference points after the edits of `edits`, made one after another.
pub open spec fn corrected_through(reference: Option<int>, edits: Seq<ListEdit>) -> Option<int>
    decreases edits.len(),
{
    if edits.len() == 0 {
        reference
    } else {
        corrected(corrected_through(reference, edits.drop_last()), edits.last())
    }
}

/// The length of a collection of `len` entries after the edits of `edits`.
pub open spec fn len_through(len: nat, edits: Seq<ListEdit>) -> nat
    decreases edits.len(),
{
    if edits.len() == 0 {
        len
    } else {
        edits.last().len_after(len_through(len, edits.drop_last()))
    }
}

/// Whether each edit of `edits` can be made on the collection as the edits
/// before it have left it.
pub open spec fn all_apply(len: nat, edits: Seq<ListEdit>) -> bool
    decreases edits.len(),
{
    edits.len() > 0 ==> all_apply(len, edits.drop_last()) && edits.last().applies_to(
        len_through(len, edits.drop_last()),
    )
}

/// Whatever edits are made on a collection, one after another, a reference
/// into it that is corrected for each of them is absent or in range after
/// each of them.
pub proof fn lemma_corrected_through_in_range(reference: Option<int>, edits: Seq<ListEdit>, len: nat)
    requires
        all_apply(len, edits),
        in_range(reference, len),
    ensures
        in_range(corrected_through(reference, edits), len_through(len, edits)),
    decreases edits.len(),
{
    if edits.len() > 0 {
        lemma_corrected_through_in_range(reference, edits.drop_last(), len);
        lemma_corrected_in_range(
            corrected_through(reference, edits.drop_last()),
            edits.last(),
            len_through(len, edits.drop_last()),
        );
    }
}

} // verus!
