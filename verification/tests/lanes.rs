use cycle_check::lane::{gather_strided, lanes_equal, load_contiguous, splat};
use cycle_check::pattern::PatternConfig;
use cycle_check::table::{LaneCache, LaneZoneTable, ZoneTable};

#[test]
fn splat_fills_every_position() {
    assert_eq!(splat::<4>(-1), [-1, -1, -1, -1]);
    assert_eq!(splat::<8>(7), [7, 7, 7, 7, 7, 7, 7, 7]);
}

#[test]
fn gather_takes_one_element_from_each_segment() {
    let arr: Vec<i16> = (0..12).collect();
    assert_eq!(gather_strided::<4>(&arr, 0, 3), [0, 3, 6, 9]);
    assert_eq!(gather_strided::<4>(&arr, 2, 3), [2, 5, 8, 11]);
    assert_eq!(gather_strided::<2>(&arr, 5, 6), [5, 11]);
}

#[test]
fn wide_gather_reaches_all_eight_segments() {
    let arr: Vec<i16> = (0..48).collect();
    assert_eq!(gather_strided::<8>(&arr, 1, 6), [1, 7, 13, 19, 25, 31, 37, 43]);
}

#[test]
fn load_takes_consecutive_elements() {
    let arr: Vec<i16> = (10..22).collect();
    assert_eq!(load_contiguous::<4>(&arr, 0), [10, 11, 12, 13]);
    assert_eq!(load_contiguous::<4>(&arr, 8), [18, 19, 20, 21]);
}

#[test]
fn lanes_equal_is_exact() {
    assert!(lanes_equal(&[1, 1, -1, -1], &[1, 1, -1, -1]));
    assert!(!lanes_equal(&[1, 1, -1, -1], &[1, 1, -1, 0]));
    assert!(!lanes_equal(&[0, 1, -1, -1], &[1, 1, -1, -1]));
    assert!(lanes_equal::<0>(&[], &[]));
}

#[test]
fn zone_table_of_the_reference() {
    let cfg = PatternConfig::reference();
    let table = ZoneTable::build(&cfg);
    assert_eq!(table.cell, 50);
    assert_eq!(table.values, [1, -1, 0, 0, 0]);
    assert_eq!(table.cfg, cfg);
}

#[test]
fn zone_table_slot_is_the_cell_of_the_offset() {
    let cfg = PatternConfig::reference();
    let table = ZoneTable::build(&cfg);
    assert_eq!(table.slot(0), 0);
    assert_eq!(table.slot(49), 0);
    assert_eq!(table.slot(50), 1);
    assert_eq!(table.slot(100), 2);
    assert_eq!(table.slot(249), 4);
    assert_eq!(table.slot(250), 0);
    assert_eq!(table.slot(24050), 1);
}

#[test]
fn zone_table_agrees_with_the_oracle() {
    let cfg = PatternConfig::reference();
    let table = ZoneTable::build(&cfg);
    for i in 0..1000usize {
        assert_eq!(table.lookup(i), cfg.expected_at(i));
    }
}

#[test]
fn zone_table_with_wider_zones() {
    let cfg = PatternConfig { len: 60, period: 15, k1: 6, k2: 12 };
    assert!(cfg.supports_zone_table());
    let table = ZoneTable::build(&cfg);
    assert_eq!(table.cell, 3);
    assert_eq!(table.values, [1, 1, -1, -1, 0]);
    for i in 0..60usize {
        assert_eq!(table.lookup(i), cfg.expected_at(i));
    }
}

#[test]
fn lane_zone_table_broadcasts_each_cell() {
    let cfg = PatternConfig::reference();
    let table = LaneZoneTable::build(&cfg);
    assert_eq!(
        table.lanes,
        [[1, 1, 1, 1], [-1, -1, -1, -1], [0, 0, 0, 0], [0, 0, 0, 0], [0, 0, 0, 0]]
    );
    assert_eq!(table.lookup(0), [1, 1, 1, 1]);
    assert_eq!(table.lookup(299), [1, 1, 1, 1]);
    assert_eq!(table.lookup(50), [-1, -1, -1, -1]);
    assert_eq!(table.lookup(249), [0, 0, 0, 0]);
}

#[test]
fn lane_cache_covers_two_cycles() {
    let cfg = PatternConfig::reference();
    let cache = LaneCache::build(&cfg);
    assert_eq!(cache.lanes.len(), 125);
    assert_eq!(cache.cfg, cfg);
}

#[test]
fn lane_cache_holds_mixed_lanes_at_the_borders() {
    let cfg = PatternConfig::reference();
    let cache = LaneCache::build(&cfg);
    assert_eq!(cache.lookup(0), [1, 1, 1, 1]);
    assert_eq!(cache.lookup(44), [1, 1, 1, 1]);
    assert_eq!(cache.lookup(48), [1, 1, -1, -1]);
    assert_eq!(cache.lookup(52), [-1, -1, -1, -1]);
    assert_eq!(cache.lookup(96), [-1, -1, -1, -1]);
    assert_eq!(cache.lookup(100), [0, 0, 0, 0]);
    assert_eq!(cache.lookup(244), [0, 0, 0, 0]);
    assert_eq!(cache.lookup(248), [0, 0, 1, 1]);
    assert_eq!(cache.lookup(252), [1, 1, 1, 1]);
    assert_eq!(cache.lookup(296), [1, 1, 1, 1]);
    assert_eq!(cache.lookup(300), [-1, -1, -1, -1]);
    assert_eq!(cache.lookup(344), [-1, -1, -1, -1]);
    assert_eq!(cache.lookup(348), [-1, -1, 0, 0]);
    assert_eq!(cache.lookup(352), [0, 0, 0, 0]);
    assert_eq!(cache.lookup(496), [0, 0, 0, 0]);
}

#[test]
fn lane_cache_lookup_wraps_after_two_cycles() {
    let cfg = PatternConfig::reference();
    let cache = LaneCache::build(&cfg);
    for start in (0..48000usize).step_by(4) {
        assert_eq!(cache.lookup(start), cfg.expected_lane_at::<4>(start));
    }
}
