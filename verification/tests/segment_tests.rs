use blockifier::contract_class::{CompiledClassV1, EntryPointsByType};
use blockifier::errors::TransactionExecutionError;
use blockifier::segments::SegmentTree;

fn example_tree() -> SegmentTree {
    SegmentTree::Node(vec![
        SegmentTree::Leaf(151),
        SegmentTree::Leaf(104),
        SegmentTree::Node(vec![SegmentTree::Leaf(170), SegmentTree::Leaf(225)]),
        SegmentTree::Leaf(157),
        SegmentTree::Node(vec![SegmentTree::Node(vec![
            SegmentTree::Node(vec![SegmentTree::Leaf(101)]),
            SegmentTree::Leaf(195),
            SegmentTree::Leaf(125),
        ])]),
        SegmentTree::Leaf(162),
    ])
}

#[test]
fn test_get_visited_segments() {
    let test_contract = CompiledClassV1 {
        entry_points_by_type: EntryPointsByType {
            constructor: vec![],
            external: vec![],
            l1_handler: vec![],
        },
        bytecode_segment_lengths: example_tree(),
    };

    assert_eq!(
        test_contract
            .get_visited_segments(&vec![807, 907, 0, 1, 255, 425, 431, 1103])
            .unwrap(),
        [0, 255, 425, 807, 1103]
    );

    assert!(matches!(
        test_contract
            .get_visited_segments(&vec![907, 0, 1, 255, 425, 431, 1103])
            .unwrap_err(),
        TransactionExecutionError::InvalidSegmentStructure(907, 807)
    ));
}

#[test]
fn boundary_only_visits_return_sorted_dedup() {
    let test_contract = example_tree();
    // Every offset below is a real segment boundary; duplicates and order
    // must not matter.
    let visited = vec![650, 0, 255, 650, 908, 0, 1228];
    assert_eq!(
        test_contract.get_visited_segments(&visited).unwrap(),
        [0, 255, 650, 908, 1228]
    );
}

#[test]
fn empty_visited_set_returns_empty() {
    let test_contract = example_tree();
    let out = test_contract.get_visited_segments(&vec![]).unwrap();
    assert!(out.is_empty());
}

#[test]
fn offset_beyond_bytecode_fails_with_last_boundary() {
    let tree = SegmentTree::Node(vec![SegmentTree::Leaf(5)]);
    assert!(matches!(
        tree.get_visited_segments(&vec![0, 10]).unwrap_err(),
        TransactionExecutionError::InvalidSegmentStructure(10, 0)
    ));
}

#[test]
fn jump_into_leaf_reports_leaf_start() {
    // Node at 100 would be entered at 100; 160 lies inside the second leaf
    // whose start 150 was never visited.
    let tree = SegmentTree::Node(vec![
        SegmentTree::Leaf(100),
        SegmentTree::Leaf(50),
        SegmentTree::Leaf(50),
    ]);
    assert!(matches!(
        tree.get_visited_segments(&vec![0, 160]).unwrap_err(),
        TransactionExecutionError::InvalidSegmentStructure(160, 150)
    ));
}

#[test]
fn interior_offsets_of_entered_leaf_are_consumed() {
    let tree = SegmentTree::Node(vec![SegmentTree::Leaf(100), SegmentTree::Leaf(100)]);
    // 1, 2, 99 sit inside the first leaf, whose start 0 was visited.
    assert_eq!(
        tree.get_visited_segments(&vec![99, 0, 1, 2, 100]).unwrap(),
        [0, 100]
    );
}
