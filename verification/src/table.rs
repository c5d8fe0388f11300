//! Lookup tables: the oracle, tabulated once and read without branching.

use vstd::prelude::*;
use crate::lane::splat;
use crate::pattern::{lemma_expected_periodic, PatternConfig, LANES_NARROW, TABLE_CELLS};

verus! {

/// The expected narrow lanes of two cycles, one for each place at which a
/// lane of consecutive elements can begin.
pub struct LaneCache {
    /// The pattern that was tabulated.
    pub cfg: PatternConfig,
    /// Entry `t` is what lane number `t` of consecutive elements has to hold.
    pub lanes: Vec<[i16; LANES_NARROW]>,
}

impl LaneCache {
    /// The table agrees with the oracle on every lane of two cycles.
    pub open spec fn wf(&self) -> bool {
        &&& self.cfg.lane_cache_applies()
        &&& self.lanes@.len() * LANES_NARROW == 2 * self.cfg.period
        &&& forall|t: int|
            0 <= t < self.lanes@.len() ==> (#[trigger] self.lanes@[t])@ == self.cfg.expected_lane(
                LANES_NARROW * t,
                LANES_NARROW as int,
            )
    }

    /// Tabulates the oracle over two cycles.
    pub fn build(cfg: &PatternConfig) -> (cache: LaneCache)
        requires
            cfg.lane_cache_applies(),
        ensures
            cache.wf(),
            cache.cfg == *cfg,
    {
        let span: usize = 2 * cfg.period;
        let mut lanes: Vec<[i16; LANES_NARROW]> = Vec::new();
        let mut start: usize = 0;
        while start < span
            invariant
                cfg.wf(),
                span % LANES_NARROW == 0,
                start <= span,
                lanes@.len() * LANES_NARROW == start,
                forall|t: int|
                    0 <= t < lanes@.len() ==> (#[trigger] lanes@[t])@ == cfg.expected_lane(
                        LANES_NARROW * t,
                        LANES_NARROW as int,
                    ),
            decreases span - start,
        {
            let lane: [i16; LANES_NARROW] = cfg.expected_lane_at::<LANES_NARROW>(start);
            let ghost before = lanes@;
            lanes.push(lane);
            proof {
                assert forall|t: int| 0 <= t < lanes@.len() implies (#[trigger] lanes@[t])@
                    == cfg.expected_lane(LANES_NARROW * t, LANES_NARROW as int) by {
                    if t < before.len() {
                        assert(lanes@[t] == before[t]);
                    } else {
                        assert(LANES_NARROW * t == start);
                    }
                }
            }
            start += LANES_NARROW;
        }
        LaneCache { cfg: *cfg, lanes }
    }

    /// The expected lane for the group that begins at `start`, found by the
    /// group's place within two cycles.
    pub fn lookup(&self, start: usize) -> (lane: [i16; LANES_NARROW])
        requires
            self.wf(),
            start % LANES_NARROW == 0,
        ensures
            lane@ == self.cfg.expected_lane(start as int, LANES_NARROW as int),
    {
        let span: usize = 2 * self.cfg.period;
        let key: usize = start % span;
        let slot: usize = key / LANES_NARROW;
        let lane: [i16; LANES_NARROW] = self.lanes[slot];
        proof {
            let p = self.cfg.period as int;
            let q = (start as int) / (span as int);
            vstd::arithmetic::div_mod::lemma_fundamental_div_mod(start as int, span as int);
            assert(start == key + (2 * q) * p) by (nonlinear_arith)
                requires
                    start == span * q + key,
                    span == 2 * p,
            ;
            let w = LANES_NARROW as int;
            let m = self.lanes@.len() as int;
            assert(span * q == w * (m * q)) by (nonlinear_arith)
                requires
                    span == w * m,
            ;
            assert(key % LANES_NARROW == 0);
            assert(w * slot == key);
            let stored = self.cfg.expected_lane(w * slot, w);
            let wanted = self.cfg.expected_lane(start as int, w);
            assert forall|l: int| 0 <= l < w implies lane@[l] == #[trigger] wanted[l] by {
                lemma_expected_periodic(self.cfg, key + l, 2 * q);
                assert(lane@[l] == stored[l]);
            }
            assert(lane@ =~= wanted);
        }
        lane
    }
}

/// An index and the start of its cell lie on the same side of every zone end
/// that falls on a cell border.
pub proof fn lemma_cell_decides_zone(offset: int, cell: int, zone_end: int)
    requires
        0 <= offset,
        0 < cell,
        0 <= zone_end,
        zone_end % cell == 0,
    ensures
        0 <= (offset / cell) * cell <= offset,
        (offset < zone_end) == ((offset / cell) * cell < zone_end),
{
    let t = offset / cell;
    let a = zone_end / cell;
    vstd::arithmetic::div_mod::lemma_fundamental_div_mod(offset, cell);
    vstd::arithmetic::div_mod::lemma_fundamental_div_mod(zone_end, cell);
    let r = offset % cell;
    vstd::arithmetic::div_mod::lemma_mod_pos_bound(offset, cell);
    assert(0 <= t * cell <= offset < t * cell + cell) by (nonlinear_arith)
        requires
            offset == cell * t + r,
            0 <= r < cell,
            0 <= offset,
    ;
    assert(zone_end == a * cell) by (nonlinear_arith)
        requires
            zone_end == cell * a + zone_end % cell,
            zone_end % cell == 0,
    ;
    if t * cell < zone_end {
        assert(t * cell + cell <= a * cell) by (nonlinear_arith)
            requires
                t * cell < a * cell,
                0 < cell,
        ;
    }
}

/// The expected value of each cell of a cycle.
pub struct ZoneTable {
    /// The pattern that was tabulated.
    pub cfg: PatternConfig,
    /// Length of one cell.
    pub cell: usize,
    /// Entry `t` is the value expected throughout cell `t`.
    pub values: [i16; TABLE_CELLS],
}

impl ZoneTable {
    /// The table agrees with the oracle at the start of every cell.
    pub open spec fn wf(&self) -> bool {
        &&& self.cfg.zone_table_applies()
        &&& self.cell == self.cfg.period / TABLE_CELLS
        &&& forall|t: int|
            0 <= t < TABLE_CELLS ==> #[trigger] self.values@[t] == self.cfg.expected(t * self.cell)
    }

    /// Tabulates the oracle, one entry for each cell.
    pub fn build(cfg: &PatternConfig) -> (table: ZoneTable)
        requires
            cfg.zone_table_applies(),
        ensures
            table.wf(),
            table.cfg == *cfg,
    {
        let cell: usize = cfg.period / TABLE_CELLS;
        let mut values: [i16; TABLE_CELLS] = [0i16; TABLE_CELLS];
        let mut t: usize = 0;
        while t < TABLE_CELLS
            invariant
                t <= TABLE_CELLS,
                cfg.zone_table_applies(),
                cell == cfg.period / TABLE_CELLS,
                forall|u: int| 0 <= u < t ==> #[trigger] values@[u] == cfg.expected(u * cell),
            decreases TABLE_CELLS - t,
        {
            proof {
                assert(0 <= t * cell <= cfg.period) by (nonlinear_arith)
                    requires
                        0 <= t < TABLE_CELLS,
                        0 <= cell,
                        TABLE_CELLS * cell <= cfg.period,
                ;
            }
            values[t] = cfg.expected_at(t * cell);
            t += 1;
        }
        ZoneTable { cfg: *cfg, cell, values }
    }

    /// The slot of the table that index `i` reads: the cell of its offset
    /// within the cycle.
    pub fn slot(&self, i: usize) -> (slot: usize)
        requires
            self.wf(),
        ensures
            slot == (i % self.cfg.period) / self.cell,
            slot < TABLE_CELLS,
            self.cfg.expected(slot * self.cell) == self.cfg.expected(i as int),
    {
        let slot: usize = (i % self.cfg.period) / self.cell;
        proof {
            let p = self.cfg.period as int;
            let c = self.cell as int;
            let r = (i as int) % p;
            lemma_cell_decides_zone(r, c, self.cfg.k1 as int);
            lemma_cell_decides_zone(r, c, self.cfg.k2 as int);
            assert(slot < TABLE_CELLS) by (nonlinear_arith)
                requires
                    slot * c <= r,
                    r < p,
                    p == TABLE_CELLS * c,
                    0 < c,
            ;
            vstd::arithmetic::div_mod::lemma_small_mod((slot * c) as nat, p as nat);
        }
        slot
    }

    /// The expected value at index `i`, read from the table.
    pub fn lookup(&self, i: usize) -> (value: i16)
        requires
            self.wf(),
        ensures
            value == self.cfg.expected(i as int),
    {
        let slot: usize = self.slot(i);
        self.values[slot]
    }
}

/// The expected narrow lane of each cell of a cycle, for groups whose
/// positions all expect the same value.
pub struct LaneZoneTable {
    /// The scalar table from which the lanes were made.
    pub zones: ZoneTable,
    /// Entry `t` holds the value of cell `t` in every position.
    pub lanes: [[i16; LANES_NARROW]; TABLE_CELLS],
}

impl LaneZoneTable {
    /// Every lane is the broadcast of its cell's value.
    pub open spec fn wf(&self) -> bool {
        &&& self.zones.wf()
        &&& forall|t: int|
            0 <= t < TABLE_CELLS ==> (#[trigger] self.lanes@[t])@ == Seq::new(
                LANES_NARROW as nat,
                |l: int| self.zones.values@[t],
            )
    }

    /// Broadcasts every entry of the scalar table into a lane.
    pub fn build(cfg: &PatternConfig) -> (table: LaneZoneTable)
        requires
            cfg.zone_table_applies(),
        ensures
            table.wf(),
            table.zones.cfg == *cfg,
    {
        let zones = ZoneTable::build(cfg);
        let mut lanes: [[i16; LANES_NARROW]; TABLE_CELLS] = [[0i16; LANES_NARROW]; TABLE_CELLS];
        let mut t: usize = 0;
        while t < TABLE_CELLS
            invariant
                t <= TABLE_CELLS,
                zones.wf(),
                forall|u: int|
                    0 <= u < t ==> (#[trigger] lanes@[u])@ == Seq::new(
                        LANES_NARROW as nat,
                        |l: int| zones.values@[u],
                    ),
            decreases TABLE_CELLS - t,
        {
            lanes[t] = splat::<LANES_NARROW>(zones.values[t]);
            t += 1;
        }
        LaneZoneTable { zones, lanes }
    }

    /// The lane that holds, in every position, the value expected at index
    /// `i`.
    pub fn lookup(&self, i: usize) -> (lane: [i16; LANES_NARROW])
        requires
            self.wf(),
        ensures
            lane@ == Seq::new(LANES_NARROW as nat, |l: int| self.zones.cfg.expected(i as int)),
    {
        let slot: usize = self.zones.slot(i);
        self.lanes[slot]
    }
}

} // verus!
