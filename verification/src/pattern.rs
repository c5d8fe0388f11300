//! The pattern, its oracle and what it means for an array to conform.

use vstd::prelude::*;

verus! {

/// Width of the narrow lanes.
pub const LANES_NARROW: usize = 4;

/// Width of the wide lanes.
pub const LANES_WIDE: usize = 8;

/// Number of cells into which the zone table divides a cycle.
pub const TABLE_CELLS: usize = 5;

/// The constants of one validation set-up: the array length and the shape of
/// the cycle.
#[derive(Clone, Copy, Debug, PartialEq, Eq, Structural)]
pub struct PatternConfig {
    /// Number of elements of the arrays that are validated.
    pub len: usize,
    /// Length of one cycle.
    pub period: usize,
    /// End of the zone of `1`s within a cycle.
    pub k1: usize,
    /// End of the zone of `-1`s within a cycle.
    pub k2: usize,
}

/// The value that the pattern holds at `offset` within a cycle whose zones
/// end at `k1` and `k2`.
pub open spec fn zone_value(offset: int, k1: int, k2: int) -> i16 {
    if offset < k1 {
        1i16
    } else if offset < k2 {
        -1i16
    } else {
        0i16
    }
}

impl PatternConfig {
    /// The zones lie in order inside a cycle that is not empty.
    pub open spec fn wf(&self) -> bool {
        &&& 0 < self.period
        &&& self.k1 <= self.k2
        &&& self.k2 <= self.period
    }

    /// The oracle: the value that the pattern holds at index `i`.
    pub open spec fn expected(&self, i: int) -> i16 {
        zone_value(i % (self.period as int), self.k1 as int, self.k2 as int)
    }

    /// What a lane of `width` consecutive elements that begins at `start`
    /// has to hold.
    pub open spec fn expected_lane(&self, start: int, width: int) -> Seq<i16> {
        Seq::new(width as nat, |l: int| self.expected(start + l))
    }

    /// What a lane has to hold whose position `l` is the element at
    /// `start + l * stride`.
    pub open spec fn expected_strided_lane(&self, start: int, stride: int, width: int) -> Seq<i16> {
        Seq::new(width as nat, |l: int| self.expected(start + l * stride))
    }

    /// The arrays can be cut into `width` segments of equal length, each a
    /// whole number of cycles: what a strided gather needs for one expected
    /// value to hold across a lane.
    pub open spec fn strided_applies(&self, width: int) -> bool {
        &&& self.wf()
        &&& 0 < width
        &&& (self.len as int) % width == 0
        &&& ((self.len as int) / width) % (self.period as int) == 0
    }

    /// The arrays can be cut into narrow lanes of consecutive elements, and
    /// two cycles hold a whole number of such lanes, so that a lane's place
    /// within two cycles decides what it has to hold.
    pub open spec fn lane_cache_applies(&self) -> bool {
        &&& self.wf()
        &&& self.len % LANES_NARROW == 0
        &&& (2 * self.period) % (LANES_NARROW as int) == 0
        &&& 2 * self.period <= usize::MAX
    }

    /// The cycle divides into `TABLE_CELLS` cells of equal length and both
    /// zone ends fall on cell borders, so that the cell of an index decides
    /// the expected value.
    pub open spec fn zone_table_applies(&self) -> bool {
        &&& self.wf()
        &&& self.period % TABLE_CELLS == 0
        &&& self.k1 % (self.period / TABLE_CELLS) == 0
        &&& self.k2 % (self.period / TABLE_CELLS) == 0
    }

    /// Builds a configuration, or `None` where the zones do not fit the cycle.
    pub fn new(len: usize, period: usize, k1: usize, k2: usize) -> (cfg: Option<PatternConfig>)
        ensures
            cfg is Some <==> (0 < period && k1 <= k2 && k2 <= period),
            cfg is Some ==> cfg->0 == (PatternConfig { len, period, k1, k2 }),
            cfg is Some ==> cfg->0.wf(),
    {
        if 0 < period && k1 <= k2 && k2 <= period {
            Some(PatternConfig { len, period, k1, k2 })
        } else {
            None
        }
    }

    /// The set-up of the benchmark: 48000 elements in cycles of 250, of which
    /// 50 are `1`, 50 are `-1` and 150 are `0`.
    pub fn reference() -> (cfg: PatternConfig)
        ensures
            cfg == (PatternConfig { len: 48000, period: 250, k1: 50, k2: 100 }),
            cfg.wf(),
    {
        PatternConfig { len: 48000, period: 250, k1: 50, k2: 100 }
    }

    /// The oracle, computed.
    pub fn expected_at(&self, i: usize) -> (value: i16)
        requires
            self.wf(),
        ensures
            value == self.expected(i as int),
    {
        let r: usize = i % self.period;
        if r < self.k1 {
            1
        } else if r < self.k2 {
            -1
        } else {
            0
        }
    }

    /// The lane of `W` consecutive expected values that begins at `start`.
    pub fn expected_lane_at<const W: usize>(&self, start: usize) -> (lane: [i16; W])
        requires
            self.wf(),
            start + W <= usize::MAX,
        ensures
            lane@ == self.expected_lane(start as int, W as int),
    {
        let mut lane: [i16; W] = [0i16; W];
        let mut l: usize = 0;
        while l < W
            invariant
                l <= W,
                self.wf(),
                start + W <= usize::MAX,
                forall|m: int| 0 <= m < l ==> lane@[m] == self.expected(start + m),
            decreases W - l,
        {
            lane[l] = self.expected_at(start + l);
            l += 1;
        }
        proof {
            assert(lane@ =~= self.expected_lane(start as int, W as int));
        }
        lane
    }

    /// Tests `wf`.
    pub fn is_valid(&self) -> (ok: bool)
        ensures
            ok == self.wf(),
    {
        0 < self.period && self.k1 <= self.k2 && self.k2 <= self.period
    }

    /// Tests `strided_applies`.
    pub fn supports_strided(&self, width: usize) -> (ok: bool)
        ensures
            ok == self.strided_applies(width as int),
    {
        0 < self.period && self.k1 <= self.k2 && self.k2 <= self.period && 0 < width && self.len
            % width == 0 && (self.len / width) % self.period == 0
    }

    /// Tests `lane_cache_applies`.
    pub fn supports_lane_cache(&self) -> (ok: bool)
        ensures
            ok == self.lane_cache_applies(),
    {
        0 < self.period && self.k1 <= self.k2 && self.k2 <= self.period && self.len
            % LANES_NARROW == 0 && self.period <= usize::MAX / 2 && (2 * self.period)
            % LANES_NARROW == 0
    }

    /// Tests `zone_table_applies`.
    pub fn supports_zone_table(&self) -> (ok: bool)
        ensures
            ok == self.zone_table_applies(),
    {
        0 < self.period && self.k1 <= self.k2 && self.k2 <= self.period && self.period
            % TABLE_CELLS == 0 && self.period >= TABLE_CELLS && self.k1 % (self.period
            / TABLE_CELLS) == 0 && self.k2 % (self.period / TABLE_CELLS) == 0
    }

    /// The array of the configured length that holds the expected value at
    /// every index.
    pub fn conforming_array(&self) -> (arr: Vec<i16>)
        requires
            self.wf(),
        ensures
            arr@ == pattern_seq(*self),
    {
        let mut arr: Vec<i16> = Vec::new();
        let mut i: usize = 0;
        while i < self.len
            invariant
                self.wf(),
                i <= self.len,
                arr@.len() == i,
                forall|j: int| 0 <= j < i ==> #[trigger] arr@[j] == self.expected(j),
            decreases self.len - i,
        {
            arr.push(self.expected_at(i));
            i += 1;
        }
        proof {
            assert(arr@ =~= pattern_seq(*self));
        }
        arr
    }

    /// Whether the element `value` found at index `i` is the expected one.
    pub fn matches_at(&self, value: i16, i: usize) -> (ok: bool)
        requires
            self.wf(),
        ensures
            ok == (value == self.expected(i as int)),
    {
        value == self.expected_at(i)
    }
}

/// An array conforms when every element equals what the oracle expects at its
/// index.
pub open spec fn conforms(arr: Seq<i16>, cfg: PatternConfig) -> bool {
    forall|i: int| 0 <= i < arr.len() ==> #[trigger] arr[i] == cfg.expected(i)
}

/// The oracle repeats with the period: an index and the same index moved by
/// whole cycles expect the same value.
pub proof fn lemma_expected_periodic(cfg: PatternConfig, i: int, cycles: int)
    requires
        cfg.wf(),
    ensures
        cfg.expected(i + cycles * cfg.period) == cfg.expected(i),
{
    let p = cfg.period as int;
    vstd::arithmetic::div_mod::lemma_mod_multiples_vanish(cycles, i, p);
    assert(p * cycles + i == i + cycles * p) by (nonlinear_arith);
}

/// The array that holds the oracle's value at each index.
pub open spec fn pattern_seq(cfg: PatternConfig) -> Seq<i16> {
    Seq::new(cfg.len as nat, |i: int| cfg.expected(i))
}

/// The array built from the oracle conforms.
pub proof fn lemma_pattern_conforms(cfg: PatternConfig)
    ensures
        pattern_seq(cfg).len() == cfg.len,
        conforms(pattern_seq(cfg), cfg),
{
}

/// One element that differs from what the oracle expects, at whatever index,
/// is enough for the array not to conform.
pub proof fn lemma_mismatch_breaks_conformance(arr: Seq<i16>, cfg: PatternConfig, j: int)
    requires
        0 <= j < arr.len(),
        arr[j] != cfg.expected(j),
    ensures
        !conforms(arr, cfg),
{
}

/// Changing one element of a conforming array to any other value gives an
/// array that does not conform.
pub proof fn lemma_single_change_breaks_conformance(
    arr: Seq<i16>,
    cfg: PatternConfig,
    j: int,
    value: i16,
)
    requires
        conforms(arr, cfg),
        0 <= j < arr.len(),
        value != arr[j],
    ensures
        !conforms(arr.update(j, value), cfg),
{
    assert(arr[j] == cfg.expected(j));
    assert(arr.update(j, value)[j] == value);
}

} // verus!
