use live_scoreboard::policy::{correct_index, refers_into, ListEdit};

#[test]
fn absent_reference_stays_absent() {
    assert_eq!(correct_index(None, ListEdit::Inserted(0)), None);
    assert_eq!(correct_index(None, ListEdit::Removed(0)), None);
    assert_eq!(correct_index(None, ListEdit::Moved(0, 3)), None);
}

#[test]
fn insertion_shifts_references_at_or_behind_it() {
    assert_eq!(correct_index(Some(2), ListEdit::Inserted(2)), Some(3));
    assert_eq!(correct_index(Some(5), ListEdit::Inserted(2)), Some(6));
}

#[test]
fn insertion_leaves_references_before_it() {
    assert_eq!(correct_index(Some(1), ListEdit::Inserted(2)), Some(1));
    assert_eq!(correct_index(Some(0), ListEdit::Inserted(2)), Some(0));
}

#[test]
fn append_changes_no_reference_into_the_collection() {
    for i in 0..4 {
        assert_eq!(correct_index(Some(i), ListEdit::Inserted(4)), Some(i));
    }
}

#[test]
fn removed_entry_leaves_no_reference() {
    assert_eq!(correct_index(Some(1), ListEdit::Removed(1)), None);
}

#[test]
fn removal_shifts_references_behind_it() {
    assert_eq!(correct_index(Some(2), ListEdit::Removed(1)), Some(1));
    assert_eq!(correct_index(Some(7), ListEdit::Removed(1)), Some(6));
}

#[test]
fn removal_leaves_references_before_it() {
    assert_eq!(correct_index(Some(0), ListEdit::Removed(1)), Some(0));
}

#[test]
fn moved_entry_is_followed() {
    assert_eq!(correct_index(Some(1), ListEdit::Moved(1, 4)), Some(4));
    assert_eq!(correct_index(Some(4), ListEdit::Moved(4, 1)), Some(1));
}

#[test]
fn move_towards_the_end_shifts_the_passed_entries_down() {
    let edit = ListEdit::Moved(1, 4);
    assert_eq!(correct_index(Some(2), edit), Some(1));
    assert_eq!(correct_index(Some(3), edit), Some(2));
    assert_eq!(correct_index(Some(4), edit), Some(3));
}

#[test]
fn move_towards_the_front_shifts_the_passed_entries_up() {
    let edit = ListEdit::Moved(4, 1);
    assert_eq!(correct_index(Some(1), edit), Some(2));
    assert_eq!(correct_index(Some(2), edit), Some(3));
    assert_eq!(correct_index(Some(3), edit), Some(4));
}

#[test]
fn move_leaves_references_outside_its_range() {
    assert_eq!(correct_index(Some(0), ListEdit::Moved(1, 4)), Some(0));
    assert_eq!(correct_index(Some(5), ListEdit::Moved(1, 4)), Some(5));
    assert_eq!(correct_index(Some(0), ListEdit::Moved(4, 1)), Some(0));
    assert_eq!(correct_index(Some(5), ListEdit::Moved(4, 1)), Some(5));
}

#[test]
fn adjacent_move_swaps_two_references() {
    assert_eq!(correct_index(Some(2), ListEdit::Moved(2, 3)), Some(3));
    assert_eq!(correct_index(Some(3), ListEdit::Moved(2, 3)), Some(2));
    assert_eq!(correct_index(Some(2), ListEdit::Moved(3, 2)), Some(3));
    assert_eq!(correct_index(Some(3), ListEdit::Moved(3, 2)), Some(2));
}

#[test]
fn move_to_the_same_place_changes_nothing() {
    for i in 0..5 {
        assert_eq!(correct_index(Some(i), ListEdit::Moved(2, 2)), Some(i));
    }
}

#[test]
fn remove_then_insert_restores_unaffected_references() {
    for p in 0..6 {
        for i in 0..6 {
            let there = correct_index(Some(i), ListEdit::Removed(p));
            let back = correct_index(there, ListEdit::Inserted(p));
            if i == p {
                assert_eq!(back, None);
            } else {
                assert_eq!(back, Some(i));
            }
        }
    }
}

#[test]
fn insert_then_remove_restores_every_reference() {
    for p in 0..6 {
        for i in 0..6 {
            let there = correct_index(Some(i), ListEdit::Inserted(p));
            assert_eq!(correct_index(there, ListEdit::Removed(p)), Some(i));
        }
    }
}

#[test]
fn move_there_and_back_restores_every_reference() {
    for a in 0..5 {
        for b in 0..5 {
            for i in 0..5 {
                let there = correct_index(Some(i), ListEdit::Moved(a, b));
                assert_eq!(correct_index(there, ListEdit::Moved(b, a)), Some(i));
            }
        }
    }
}

#[test]
fn corrected_reference_follows_its_entry() {
    let before = vec!['a', 'b', 'c', 'd', 'e'];
    for a in 0..5 {
        for b in 0..5 {
            let mut after = before.clone();
            let entry = after.remove(a);
            after.insert(b, entry);
            for i in 0..5 {
                let j = correct_index(Some(i), ListEdit::Moved(a, b)).unwrap();
                assert_eq!(after[j], before[i]);
            }
        }
    }
    for p in 0..5 {
        let mut after = before.clone();
        after.remove(p);
        for i in 0..5 {
            match correct_index(Some(i), ListEdit::Removed(p)) {
                Some(j) => assert_eq!(after[j], before[i]),
                None => assert_eq!(i, p),
            }
        }
    }
    for p in 0..6 {
        let mut after = before.clone();
        after.insert(p, 'x');
        for i in 0..5 {
            let j = correct_index(Some(i), ListEdit::Inserted(p)).unwrap();
            assert_eq!(after[j], before[i]);
        }
    }
}

#[test]
fn corrected_references_stay_in_range() {
    let len = 5;
    for p in 0..len {
        for i in 0..len {
            assert!(refers_into(correct_index(Some(i), ListEdit::Removed(p)), len - 1));
            assert!(refers_into(correct_index(Some(i), ListEdit::Inserted(p)), len + 1));
            for q in 0..len {
                assert!(refers_into(correct_index(Some(i), ListEdit::Moved(p, q)), len));
            }
        }
    }
}

#[test]
fn refers_into_tells_valid_references() {
    assert!(refers_into(None, 0));
    assert!(refers_into(Some(2), 3));
    assert!(!refers_into(Some(3), 3));
    assert!(!refers_into(Some(0), 0));
}
