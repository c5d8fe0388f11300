//! The validators as interchangeable strategies.

use vstd::prelude::*;
use crate::parallel::validate_array_parallel;
use crate::pattern::{conforms, pattern_seq, PatternConfig, LANES_NARROW, LANES_WIDE};
use crate::scalar::{validate_array, validate_array_branch_free};
use crate::simd::{
    validate_array_simd, validate_array_simd_bigger, validate_array_simd_branch_free_1,
    validate_array_simd_branch_free_2, validate_array_simd_cache,
};

verus! {

/// One way of validating an array.
#[derive(Clone, Copy, Debug, PartialEq, Eq, Structural)]
pub enum Strategy {
    /// Element by element, asking the oracle.
    Scalar,
    /// Element by element, on a pool of workers.
    Parallel,
    /// Narrow strided lanes, three constant lanes.
    Simd,
    /// Narrow lanes of consecutive elements, expected lanes from a table.
    SimdCache,
    /// Wide strided lanes, three constant lanes.
    SimdBigger,
    /// Element by element, expected values from a table.
    BranchFree,
    /// Narrow strided lanes, expected value from a table, then broadcast.
    SimdBranchFree1,
    /// Narrow strided lanes, expected lane from a table.
    SimdBranchFree2,
}

impl Strategy {
    /// The strategy can be used with `cfg`.
    pub open spec fn applies(&self, cfg: PatternConfig) -> bool {
        match self {
            Strategy::Scalar => cfg.wf(),
            Strategy::Parallel => cfg.wf(),
            Strategy::Simd => cfg.strided_applies(LANES_NARROW as int),
            Strategy::SimdCache => cfg.lane_cache_applies(),
            Strategy::SimdBigger => cfg.strided_applies(LANES_WIDE as int),
            Strategy::BranchFree => cfg.zone_table_applies(),
            Strategy::SimdBranchFree1 => cfg.strided_applies(LANES_NARROW as int) && cfg.zone_table_applies(),
            Strategy::SimdBranchFree2 => cfg.strided_applies(LANES_NARROW as int) && cfg.zone_table_applies(),
        }
    }

    /// Tests `applies`.
    pub fn supports(&self, cfg: &PatternConfig) -> (ok: bool)
        ensures
            ok == self.applies(*cfg),
    {
        match self {
            Strategy::Scalar => cfg.is_valid(),
            Strategy::Parallel => cfg.is_valid(),
            Strategy::Simd => cfg.supports_strided(LANES_NARROW),
            Strategy::SimdCache => cfg.supports_lane_cache(),
            Strategy::SimdBigger => cfg.supports_strided(LANES_WIDE),
            Strategy::BranchFree => cfg.supports_zone_table(),
            Strategy::SimdBranchFree1 => cfg.supports_strided(LANES_NARROW) && cfg.supports_zone_table(),
            Strategy::SimdBranchFree2 => cfg.supports_strided(LANES_NARROW) && cfg.supports_zone_table(),
        }
    }

    /// Validates `arr` in the way that the strategy names.
    pub fn run(&self, arr: &[i16], cfg: &PatternConfig) -> (ok: bool)
        requires
            self.applies(*cfg),
            arr@.len() == cfg.len,
        ensures
            ok == conforms(arr@, *cfg),
    {
        match self {
            Strategy::Scalar => validate_array(arr, cfg),
            Strategy::Parallel => validate_array_parallel(arr, cfg),
            Strategy::Simd => validate_array_simd(arr, cfg),
            Strategy::SimdCache => validate_array_simd_cache(arr, cfg),
            Strategy::SimdBigger => validate_array_simd_bigger(arr, cfg),
            Strategy::BranchFree => validate_array_branch_free(arr, cfg),
            Strategy::SimdBranchFree1 => validate_array_simd_branch_free_1(arr, cfg),
            Strategy::SimdBranchFree2 => validate_array_simd_branch_free_2(arr, cfg),
        }
    }
}

/// Validates `arr` with `strategy` where the strategy can be used with `cfg`
/// and the array has the configured length; answers `None` where it cannot.
pub fn validate(strategy: Strategy, arr: &[i16], cfg: &PatternConfig) -> (verdict: Option<bool>)
    ensures
        verdict is Some <==> (strategy.applies(*cfg) && arr@.len() == cfg.len),
        verdict is Some ==> verdict->0 == conforms(arr@, *cfg),
{
    if strategy.supports(cfg) && arr.len() == cfg.len {
        Some(strategy.run(arr, cfg))
    } else {
        None
    }
}

/// Any two strategies answer alike, and in particular each answers as the
/// element-wise scan does.
pub proof fn lemma_strategies_agree(
    strategy: Strategy,
    arr: &[i16],
    cfg: &PatternConfig,
    verdict: bool,
    reference: bool,
)
    requires
        strategy.applies(*cfg),
        arr@.len() == cfg.len,
        call_ensures(Strategy::run, (&strategy, arr, cfg), verdict),
        call_ensures(validate_array, (arr, cfg), reference),
    ensures
        verdict == reference,
{
}

/// Every strategy accepts the array that was built from the oracle.
pub proof fn lemma_pattern_accepted(
    strategy: Strategy,
    arr: &[i16],
    cfg: &PatternConfig,
    verdict: bool,
)
    requires
        strategy.applies(*cfg),
        arr@ == pattern_seq(*cfg),
        call_ensures(Strategy::run, (&strategy, arr, cfg), verdict),
    ensures
        verdict,
{
}

/// Every strategy rejects an array that holds a wrong element, wherever the
/// element lies: at a zone border, at the end of a cycle, at the end of the
/// array, or inside a lane that straddles a border.
pub proof fn lemma_mismatch_rejected(
    strategy: Strategy,
    arr: &[i16],
    cfg: &PatternConfig,
    j: int,
    verdict: bool,
)
    requires
        strategy.applies(*cfg),
        arr@.len() == cfg.len,
        0 <= j < arr@.len(),
        arr@[j] != cfg.expected(j),
        call_ensures(Strategy::run, (&strategy, arr, cfg), verdict),
    ensures
        !verdict,
{
}

/// Running a strategy twice on the same array gives the same answer.
pub proof fn lemma_verdict_repeatable(
    strategy: Strategy,
    arr: &[i16],
    cfg: &PatternConfig,
    first: bool,
    second: bool,
)
    requires
        strategy.applies(*cfg),
        arr@.len() == cfg.len,
        call_ensures(Strategy::run, (&strategy, arr, cfg), first),
        call_ensures(Strategy::run, (&strategy, arr, cfg), second),
    ensures
        first == second,
{
}

/// The answer of the parallel validator is decided by the array alone: two
/// runs agree, however the work was spread over the workers and whichever
/// wrong element was found first.
pub proof fn lemma_parallel_verdict_deterministic(
    arr: &[i16],
    cfg: &PatternConfig,
    first: bool,
    second: bool,
)
    requires
        cfg.wf(),
        arr@.len() == cfg.len,
        call_ensures(validate_array_parallel, (arr, cfg), first),
        call_ensures(validate_array_parallel, (arr, cfg), second),
    ensures
        first == second,
        first == conforms(arr@, *cfg),
{
}

} // verus!
