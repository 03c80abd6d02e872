use blockifier::builtins::{
    builtin_stats_to_builtin_counter_map, final_builtin_counters, to_counter_map, Builtin,
    BuiltinCounters, BuiltinStats,
};

fn counters(range_check: u64, pedersen: u64, poseidon: u64) -> BuiltinCounters {
    BuiltinCounters {
        range_check,
        pedersen,
        ecdsa: 0,
        keccak: 0,
        bitwise: 0,
        ec_op: 0,
        poseidon,
        segment_arena: 0,
        range_check96: 0,
        add_mod: 0,
        mul_mod: 0,
    }
}

#[test]
fn counter_map_prunes_zero_entries() {
    let map = to_counter_map(&counters(3, 0, 7));
    assert_eq!(map, vec![(Builtin::RangeCheck, 3), (Builtin::Poseidon, 7)]);
}

#[test]
fn counter_map_of_all_zero_is_empty() {
    let map = to_counter_map(&counters(0, 0, 0));
    assert!(map.is_empty());
}

#[test]
fn accounting_sums_three_sources() {
    let own = counters(1, 2, 0);
    let syscall = counters(10, 0, 5);
    let nested = vec![counters(100, 0, 0), counters(0, 200, 50)];
    let total = final_builtin_counters(&own, &syscall, &nested);
    assert_eq!(total.range_check, 111);
    assert_eq!(total.pedersen, 202);
    assert_eq!(total.poseidon, 55);
    assert_eq!(total.keccak, 0);
}

#[test]
fn accounting_is_order_independent() {
    let own = counters(1, 2, 0);
    let syscall = counters(10, 0, 5);
    let a = counters(100, 0, 0);
    let b = counters(0, 200, 50);
    let c = counters(7, 7, 7);
    let one_order = final_builtin_counters(&own, &syscall, &vec![a, b, c]);
    let other_order = final_builtin_counters(&own, &syscall, &vec![c, a, b]);
    assert_eq!(one_order, other_order);
    assert_eq!(to_counter_map(&one_order), to_counter_map(&other_order));
}

#[test]
fn backend_stats_merge_with_syscall_counts() {
    let stats = BuiltinStats {
        range_check: 4,
        pedersen: 0,
        bitwise: 1,
        ec_op: 0,
        poseidon: 0,
        segment_arena: 0,
        range_check96: 0,
        add_mod: 0,
        mul_mod: 0,
    };
    // The backend never reports signature or keccak usage itself: those
    // arrive through syscall accounting only.
    let syscall_counts = BuiltinCounters {
        range_check: 6,
        pedersen: 2,
        ecdsa: 3,
        keccak: 9,
        bitwise: 0,
        ec_op: 0,
        poseidon: 0,
        segment_arena: 0,
        range_check96: 0,
        add_mod: 0,
        mul_mod: 0,
    };
    let map = builtin_stats_to_builtin_counter_map(&stats, &syscall_counts);
    assert_eq!(
        map,
        vec![
            (Builtin::RangeCheck, 10),
            (Builtin::Pedersen, 2),
            (Builtin::Ecdsa, 3),
            (Builtin::Keccak, 9),
            (Builtin::Bitwise, 1),
        ]
    );
}
