use deferred_table::ordering::{apply_reordering, map_index, ordering_or_identity};

fn reordered(from: usize, to: usize, ordering: Vec<usize>) -> Option<Vec<usize>> {
    let mut ordering = Some(ordering);
    apply_reordering(&mut ordering, from, to);
    ordering
}

#[test]
fn test_apply_reordering() {
    // dragging left
    assert_eq!(reordered(0, 1, vec![1, 0]), Some(vec![0, 1]));
    assert_eq!(
        reordered(4, 0, vec![0, 1, 2, 3, 4, 5, 6]),
        Some(vec![4, 0, 1, 2, 3, 5, 6])
    );
    assert_eq!(
        reordered(10, 0, vec![]),
        Some(vec![10, 0, 1, 2, 3, 4, 5, 6, 7, 8, 9])
    );
    // dragging right
    assert_eq!(reordered(0, 1, vec![]), Some(vec![1, 0]));
    assert_eq!(reordered(1, 0, vec![1, 0]), Some(vec![0, 1]));
    assert_eq!(reordered(1, 0, vec![1, 0, 2, 3, 4]), Some(vec![0, 1, 2, 3, 4]));
    assert_eq!(reordered(4, 0, vec![]), Some(vec![4, 0, 1, 2, 3]));
    assert_eq!(
        reordered(4, 3, vec![4, 0, 1, 2, 3, 5, 6]),
        Some(vec![0, 1, 2, 3, 4, 5, 6])
    );
    assert_eq!(
        reordered(10, 9, vec![10, 0, 1, 2, 3, 4, 5, 6, 7, 8, 9]),
        Some(vec![0, 1, 2, 3, 4, 5, 6, 7, 8, 9, 10])
    );
    // from/to same
    assert_eq!(reordered(0, 0, vec![]), Some(vec![]));
    assert_eq!(reordered(4, 4, vec![0, 1]), Some(vec![0, 1]));
}

#[test]
fn reordering_an_absent_ordering_starts_from_the_identity() {
    let mut ordering: Option<Vec<usize>> = None;
    apply_reordering(&mut ordering, 2, 0);
    assert_eq!(ordering, Some(vec![2, 0, 1]));
}

#[test]
fn reordering_onto_itself_leaves_an_absent_ordering_absent() {
    let mut ordering: Option<Vec<usize>> = None;
    apply_reordering(&mut ordering, 3, 3);
    assert_eq!(ordering, None);
}

#[test]
fn reordering_keeps_a_permutation() {
    let mut ordering = Some(vec![3, 1, 0, 2]);
    let moves = [(0, 3), (5, 1), (2, 2), (1, 4), (4, 0), (3, 5)];
    for (from, to) in moves {
        let before = ordering.clone().unwrap();
        apply_reordering(&mut ordering, from, to);
        let after = ordering.clone().unwrap();
        let expected_len = if from == to {
            before.len()
        } else {
            before.len().max(from + 1).max(to + 1)
        };
        assert_eq!(after.len(), expected_len);
        let mut sorted = after.clone();
        sorted.sort();
        assert_eq!(sorted, (0..expected_len).collect::<Vec<usize>>());
    }
}

#[test]
fn reordering_moves_to_where_the_target_stood() {
    // `to` stands after `from`: removing `from` shifts it left by one, and
    // `from` lands behind it.
    assert_eq!(reordered(1, 3, vec![0, 1, 2, 3, 4]), Some(vec![0, 2, 3, 1, 4]));
    // `to` stands before `from`: `from` lands in front of it.
    assert_eq!(reordered(3, 1, vec![0, 1, 2, 3, 4]), Some(vec![0, 3, 1, 2, 4]));
}

#[test]
fn map_index_follows_the_ordering() {
    let ordering = [2usize, 0, 1];
    assert_eq!(map_index(3, &ordering, 0), 2);
    assert_eq!(map_index(3, &ordering, 1), 0);
    assert_eq!(map_index(3, &ordering, 2), 1);
}

#[test]
fn map_index_falls_back_to_the_position() {
    let ordering = [2usize, 7, 1];
    // no entry
    assert_eq!(map_index(5, &ordering, 3), 3);
    assert_eq!(map_index(5, &[], 4), 4);
    // stale entry
    assert_eq!(map_index(5, &ordering, 1), 1);
    // an entry equal to the count is stale too
    assert_eq!(map_index(2, &ordering, 0), 0);
    // the position itself may lie beyond the count
    assert_eq!(map_index(2, &ordering, 9), 9);
}

#[test]
fn an_absent_ordering_has_no_entries() {
    assert_eq!(ordering_or_identity(None).len(), 0);
    let entries = [1usize, 0];
    assert_eq!(ordering_or_identity(Some(&entries)), &entries[..]);
}
