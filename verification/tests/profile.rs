use thread_adapter::profile::tri_profile;

#[test]
fn profile_is_zero_at_the_start_of_a_turn() {
    assert_eq!(tri_profile(0, 100), 0);
    assert_eq!(tri_profile(0, 1), 0);
    assert_eq!(tri_profile(0, 7), 0);
}

#[test]
fn profile_peaks_at_half_a_turn() {
    assert_eq!(tri_profile(50, 100), 100);
    assert_eq!(tri_profile(1, 2), 2);
    assert_eq!(tri_profile(1 << 61, 1 << 62), 1 << 62);
}

#[test]
fn profile_after_a_full_turn_is_that_at_the_start() {
    assert_eq!(tri_profile(100, 100), tri_profile(0, 100));
    assert_eq!(tri_profile(100, 100), 0);
}

#[test]
fn profile_rises_then_falls() {
    assert_eq!(tri_profile(1, 100), 2);
    assert_eq!(tri_profile(25, 100), 50);
    assert_eq!(tri_profile(49, 100), 98);
    assert_eq!(tri_profile(51, 100), 98);
    assert_eq!(tri_profile(75, 100), 50);
    assert_eq!(tri_profile(99, 100), 2);
}

#[test]
fn profile_repeats_every_turn() {
    for phase in 0..360i64 {
        assert_eq!(tri_profile(phase, 360), tri_profile(phase + 360, 360));
        assert_eq!(tri_profile(phase, 360), tri_profile(phase + 7 * 360, 360));
    }
}

#[test]
fn profile_stays_between_root_and_crest() {
    for turn in 1..40u64 {
        let mut lowest = u64::MAX;
        let mut highest = 0;
        for phase in -3 * turn as i64..3 * turn as i64 {
            let h = tri_profile(phase, turn);
            assert!(h <= turn);
            lowest = lowest.min(h);
            highest = highest.max(h);
        }
        assert_eq!(lowest, 0);
        if turn % 2 == 0 {
            assert_eq!(highest, turn);
        }
    }
}

#[test]
fn profile_has_no_jump() {
    for turn in 1..40u64 {
        for phase in -3 * turn as i64..3 * turn as i64 {
            let here = tri_profile(phase, turn) as i64;
            let next = tri_profile(phase + 1, turn) as i64;
            assert!((next - here).abs() <= 2, "turn {} phase {}", turn, phase);
        }
    }
}

#[test]
fn profile_of_an_odd_turn() {
    assert_eq!(tri_profile(0, 5), 0);
    assert_eq!(tri_profile(1, 5), 2);
    assert_eq!(tri_profile(2, 5), 4);
    assert_eq!(tri_profile(3, 5), 4);
    assert_eq!(tri_profile(4, 5), 2);
}

#[test]
fn profile_takes_the_largest_phases() {
    assert_eq!(tri_profile(i64::MAX, 2), 2);
    assert_eq!(tri_profile(i64::MAX, 3), 2);
    assert_eq!(tri_profile(i64::MIN, 2), 0);
    assert_eq!(tri_profile(i64::MIN, 3), 2);
    assert_eq!(tri_profile(i64::MAX, u64::MAX), u64::MAX - 1);
    assert_eq!(tri_profile(i64::MIN, u64::MAX), u64::MAX - 1);
    assert_eq!(tri_profile(i64::MAX, 1 << 63), 2);
    assert_eq!(tri_profile(i64::MIN, 1 << 63), 0);
}

#[test]
fn profile_before_the_start_mirrors_that_after_it() {
    assert_eq!(tri_profile(-1, 100), 2);
    assert_eq!(tri_profile(-25, 100), 50);
    assert_eq!(tri_profile(-50, 100), 100);
    assert_eq!(tri_profile(-75, 100), 50);
    assert_eq!(tri_profile(-100, 100), 0);
    assert_eq!(tri_profile(-101, 100), 2);
    assert_eq!(tri_profile(-1, 5), 2);
    assert_eq!(tri_profile(-2, 5), 4);
    assert_eq!(tri_profile(-1, 1), 0);
    for phase in -720..720i64 {
        assert_eq!(tri_profile(phase, 360), tri_profile(-phase, 360));
        assert_eq!(tri_profile(phase, 360), tri_profile(phase - 360, 360));
    }
}
