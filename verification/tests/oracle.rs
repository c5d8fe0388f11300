use cycle_check::pattern::PatternConfig;
use cycle_check::strategy::Strategy;

#[test]
fn reference_constants() {
    let cfg = PatternConfig::reference();
    assert_eq!(cfg.len, 48000);
    assert_eq!(cfg.period, 250);
    assert_eq!(cfg.k1, 50);
    assert_eq!(cfg.k2, 100);
    assert!(cfg.is_valid());
}

#[test]
fn oracle_values_at_zone_borders() {
    let cfg = PatternConfig::reference();
    assert_eq!(cfg.expected_at(0), 1);
    assert_eq!(cfg.expected_at(49), 1);
    assert_eq!(cfg.expected_at(50), -1);
    assert_eq!(cfg.expected_at(99), -1);
    assert_eq!(cfg.expected_at(100), 0);
    assert_eq!(cfg.expected_at(249), 0);
    assert_eq!(cfg.expected_at(250), 1);
    assert_eq!(cfg.expected_at(299), 1);
    assert_eq!(cfg.expected_at(300), -1);
    assert_eq!(cfg.expected_at(24049), 1);
    assert_eq!(cfg.expected_at(24050), -1);
    assert_eq!(cfg.expected_at(47999), 0);
}

#[test]
fn oracle_repeats_with_the_period() {
    let cfg = PatternConfig::reference();
    for i in 0..250usize {
        for c in 1..5usize {
            assert_eq!(cfg.expected_at(i), cfg.expected_at(i + c * 250));
        }
    }
}

#[test]
fn matches_at_compares_with_the_oracle() {
    let cfg = PatternConfig::reference();
    assert!(cfg.matches_at(1, 0));
    assert!(!cfg.matches_at(0, 0));
    assert!(cfg.matches_at(-1, 50));
    assert!(!cfg.matches_at(1, 50));
    assert!(cfg.matches_at(0, 100));
    assert!(!cfg.matches_at(-1, 100));
}

#[test]
fn new_accepts_ordered_zones() {
    let cfg = PatternConfig::new(20, 10, 2, 4);
    assert_eq!(cfg, Some(PatternConfig { len: 20, period: 10, k1: 2, k2: 4 }));
    assert!(PatternConfig::new(0, 1, 0, 0).is_some());
    assert!(PatternConfig::new(7, 3, 3, 3).is_some());
}

#[test]
fn new_refuses_zones_that_do_not_fit() {
    assert_eq!(PatternConfig::new(20, 0, 0, 0), None);
    assert_eq!(PatternConfig::new(20, 10, 5, 4), None);
    assert_eq!(PatternConfig::new(20, 10, 2, 11), None);
}

#[test]
fn conforming_array_holds_the_oracle() {
    let cfg = PatternConfig { len: 23, period: 10, k1: 2, k2: 4 };
    let arr = cfg.conforming_array();
    assert_eq!(
        arr,
        vec![1, 1, -1, -1, 0, 0, 0, 0, 0, 0, 1, 1, -1, -1, 0, 0, 0, 0, 0, 0, 1, 1, -1]
    );
}

#[test]
fn expected_lane_crosses_zone_borders() {
    let cfg = PatternConfig::reference();
    assert_eq!(cfg.expected_lane_at::<4>(0), [1, 1, 1, 1]);
    assert_eq!(cfg.expected_lane_at::<4>(48), [1, 1, -1, -1]);
    assert_eq!(cfg.expected_lane_at::<4>(248), [0, 0, 1, 1]);
    assert_eq!(cfg.expected_lane_at::<4>(348), [-1, -1, 0, 0]);
    assert_eq!(cfg.expected_lane_at::<8>(96), [-1, -1, -1, -1, 0, 0, 0, 0]);
}

#[test]
fn reference_supports_every_strategy() {
    let cfg = PatternConfig::reference();
    assert!(cfg.supports_strided(4));
    assert!(cfg.supports_strided(8));
    assert!(cfg.supports_lane_cache());
    assert!(cfg.supports_zone_table());
    for s in [
        Strategy::Scalar,
        Strategy::Parallel,
        Strategy::Simd,
        Strategy::SimdCache,
        Strategy::SimdBigger,
        Strategy::BranchFree,
        Strategy::SimdBranchFree1,
        Strategy::SimdBranchFree2,
    ] {
        assert!(s.supports(&cfg));
    }
}

#[test]
fn strided_needs_segments_of_whole_cycles() {
    let cfg = PatternConfig { len: 40, period: 10, k1: 2, k2: 4 };
    assert!(cfg.supports_strided(4));
    assert!(!cfg.supports_strided(8));
    assert!(!cfg.supports_strided(0));
    assert!(!cfg.supports_strided(3));
    let bad = PatternConfig { len: 40, period: 0, k1: 0, k2: 0 };
    assert!(!bad.supports_strided(4));
}

#[test]
fn lane_cache_needs_even_period_and_whole_lanes() {
    assert!(PatternConfig { len: 40, period: 10, k1: 2, k2: 4 }.supports_lane_cache());
    assert!(!PatternConfig { len: 42, period: 10, k1: 2, k2: 4 }.supports_lane_cache());
    assert!(!PatternConfig { len: 40, period: 5, k1: 1, k2: 2 }.supports_lane_cache());
    assert!(!PatternConfig { len: 40, period: 10, k1: 5, k2: 4 }.supports_lane_cache());
}

#[test]
fn zone_table_needs_zone_ends_on_cell_borders() {
    assert!(PatternConfig { len: 40, period: 10, k1: 2, k2: 4 }.supports_zone_table());
    assert!(PatternConfig { len: 40, period: 10, k1: 0, k2: 10 }.supports_zone_table());
    assert!(!PatternConfig { len: 40, period: 10, k1: 3, k2: 4 }.supports_zone_table());
    assert!(!PatternConfig { len: 40, period: 10, k1: 2, k2: 5 }.supports_zone_table());
    assert!(!PatternConfig { len: 40, period: 12, k1: 2, k2: 4 }.supports_zone_table());
    assert!(!PatternConfig { len: 40, period: 4, k1: 0, k2: 0 }.supports_zone_table());
}
