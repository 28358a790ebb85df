//! How a generation request's sampling options are turned into a sampler.
use vstd::prelude::*;

verus! {

/// Seed of the sampler when the request names none.
pub const DEFAULT_SEED: i64 = 299792458;

/// Number of trailing tokens the repeat penalty looks at when the request
/// names no number.
pub const DEFAULT_REPEAT_LAST_N: usize = 64;

/// The sampling strategy; the temperature and the nucleus probability that
/// go with it are attached by the caller.
#[derive(Clone, Copy, Debug, PartialEq, Eq, Structural)]
pub enum SamplingKind {
    /// Always the most likely token.
    ArgMax,
    /// Sample from the whole distribution.
    All,
    /// Sample among the `k` most likely tokens.
    TopK { k: usize },
    /// Nucleus sampling.
    TopP,
    /// The `k` most likely tokens, then nucleus sampling among them.
    TopKThenTopP { k: usize },
}

/// The strategy for a request: greedy unless the temperature is positive
/// (`positive_temperature`, an absent temperature counting as zero);
/// otherwise chosen by which of `top_k` and `top_p` were given.
pub fn choose_sampling(positive_temperature: bool, top_k: Option<usize>, has_top_p: bool) -> (res:
    SamplingKind)
    ensures
        !positive_temperature ==> res == SamplingKind::ArgMax,
        positive_temperature ==> res == match (top_k, has_top_p) {
            (None, false) => SamplingKind::All,
            (Some(k), false) => SamplingKind::TopK { k },
            (None, true) => SamplingKind::TopP,
            (Some(k), true) => SamplingKind::TopKThenTopP { k },
        },
{
    if !positive_temperature {
        SamplingKind::ArgMax
    } else {
        match (top_k, has_top_p) {
            (None, false) => SamplingKind::All,
            (Some(k), false) => SamplingKind::TopK { k },
            (None, true) => SamplingKind::TopP,
            (Some(k), true) => SamplingKind::TopKThenTopP { k },
        }
    }
}

/// The sampler's seed: the request's signed seed reinterpreted as unsigned.
pub fn sampler_seed(seed: i64) -> (res: u64)
    ensures
        res == seed as u64,
        seed >= 0 ==> res == seed,
        seed < 0 ==> res == seed + 0x1_0000_0000_0000_0000,
{
    let res: u64 = seed as u64;
    assert(seed < 0 ==> res == seed + 0x1_0000_0000_0000_0000) by (bit_vector)
        requires
            res == seed as u64,
    ;
    res
}

/// The integer settings of a generation request, defaults filled in.
#[derive(Clone, Copy, Debug, PartialEq, Eq, Structural)]
pub struct GenerationSettings {
    pub seed: i64,
    pub repeat_last_n: usize,
}

impl GenerationSettings {
    /// Fills in the seed (299792458) and the repeat-penalty window (64).
    pub fn from_request(seed: Option<i64>, repeat_last_n: Option<usize>) -> (res: Self)
        ensures
            res.seed == match seed {
                Some(s) => s,
                None => DEFAULT_SEED,
            },
            res.repeat_last_n == match repeat_last_n {
                Some(n) => n,
                None => DEFAULT_REPEAT_LAST_N,
            },
    {
        GenerationSettings {
            seed: match seed {
                Some(s) => s,
                None => DEFAULT_SEED,
            },
            repeat_last_n: match repeat_last_n {
                Some(n) => n,
                None => DEFAULT_REPEAT_LAST_N,
            },
        }
    }
}

} // verus!
