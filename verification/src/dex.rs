//! The swap math engine: a deterministic token swap against a two-asset
//! pool, with slippage simulated by chunked repricing.

use vstd::prelude::*;

verus! {

/// Stable token identifier.
pub type DctId = u32;

/// One coin unit in scaled (satoshi-like) representation.
pub const COIN: i64 = 100000000;

/// Least reserve each side of a pool must hold for a swap to proceed.
pub const MINIMUM_LIQUIDITY: i64 = 1000;

/// Divisor that fixes the chunk size of a chunked swap.
pub const SLOPE_SWAP_RATE: i64 = 1000;

/// The closed set of recoverable failures the engine and its host report.
#[derive(Clone, Copy, PartialEq, Eq, Structural, Debug)]
pub enum Error {
    RuntimeError,
    NotFoundError,
    InvalidInput,
    LackOfLiquidity,
    PriceHigherThanIndex,
    PoolReserveOverflow,
}

/// A quantity of one token.  Identity is the token id alone: two amounts
/// of the same token compare equal whatever their magnitudes.
#[derive(Clone, Copy, Debug)]
pub struct TokenAmount {
    pub token_id: DctId,
    pub amount: i64,
}

impl PartialEq for TokenAmount {
    fn eq(&self, other: &Self) -> (r: bool) {
        self.token_id == other.token_id
    }
}

impl vstd::std_specs::cmp::PartialEqSpecImpl for TokenAmount {
    open spec fn obeys_eq_spec() -> bool {
        true
    }

    open spec fn eq_spec(&self, other: &Self) -> bool {
        self.token_id == other.token_id
    }
}

impl TokenAmount {
    /// Sum of two amounts of this token, saturating at the i64 bounds.
    pub fn add(self, rhs: Self) -> (r: Self)
        ensures
            r.token_id == self.token_id,
            r.amount == saturating_add(self.amount as int, rhs.amount as int),
    {
        TokenAmount { token_id: self.token_id, amount: saturating_add_i64(self.amount, rhs.amount) }
    }

    /// Difference of two amounts of this token, saturating at the i64 bounds.
    pub fn sub(self, rhs: Self) -> (r: Self)
        ensures
            r.token_id == self.token_id,
            r.amount == saturating_add(self.amount as int, -(rhs.amount as int)),
    {
        TokenAmount { token_id: self.token_id, amount: saturating_sub_i64(self.amount, rhs.amount) }
    }
}

/// The sum of two integers clamped to the representable i64 range.
pub open spec fn saturating_add(a: int, b: int) -> int {
    if a + b > i64::MAX {
        i64::MAX as int
    } else if a + b < i64::MIN {
        i64::MIN as int
    } else {
        a + b
    }
}

fn saturating_add_i64(a: i64, b: i64) -> (r: i64)
    ensures
        r == saturating_add(a as int, b as int),
{
    if b >= 0 {
        if a > i64::MAX - b {
            i64::MAX
        } else {
            a + b
        }
    } else {
        if a < i64::MIN - b {
            i64::MIN
        } else {
            a + b
        }
    }
}

fn saturating_sub_i64(a: i64, b: i64) -> (r: i64)
    ensures
        r == saturating_add(a as int, -(b as int)),
{
    if b <= 0 {
        if a > i64::MAX + b {
            i64::MAX
        } else {
            a - b
        }
    } else {
        if a < i64::MIN + b {
            i64::MIN
        } else {
            a - b
        }
    }
}

/// A rational price bound scaled to the coin unit.  Only the integer part
/// is consulted when a swap is priced.
#[derive(Clone, Copy, PartialEq, Eq, Structural, Debug)]
pub struct PoolPrice {
    pub integer: i64,
    pub fraction: i64,
}

/// State of a two-asset liquidity pool.
#[derive(Clone, Copy, PartialEq, Eq, Structural, Debug)]
pub struct PoolPair {
    pub token_a: DctId,
    pub token_b: DctId,
    pub commission: DctId,
    pub reserve_a: i64,
    pub reserve_b: i64,
    pub total_liquidity: i64,
    pub block_commission_a: i64,
    pub block_commission_b: i64,
}

/// The pool state after a swap together with the output amount produced.
#[derive(Clone, Copy, PartialEq, Eq, Structural, Debug)]
pub struct SwapResult {
    pub pool_pair: PoolPair,
    pub slop_swap_result: i64,
}

/// Size of the chunks a chunked swap is split into: one thousandth of the
/// source reserve, or the whole input when that is smaller.
pub open spec fn chunk_size(pool_from: int, unswapped: int) -> int {
    if pool_from / 1000 < unswapped {
        pool_from / 1000
    } else {
        unswapped
    }
}

/// One chunked swap, step by step: while input remains, trade
/// `min(chunk, remaining)` of it at the current reserve ratio, move the
/// traded amount into the source reserve and the proportional output out
/// of the target reserve.  Returns the final source reserve, the final
/// target reserve, and the total output produced.
pub open spec fn chunked_swap(pool_from: int, pool_to: int, unswapped: int, chunk: int) -> (
    int,
    int,
    int,
)
    decreases unswapped,
{
    if unswapped <= 0 || chunk <= 0 {
        (pool_from, pool_to, 0)
    } else {
        let step = if chunk < unswapped {
            chunk
        } else {
            unswapped
        };
        let out = pool_to * step / pool_from;
        let rest = chunked_swap(pool_from + step, pool_to - out, unswapped - step, chunk);
        (rest.0, rest.1, out + rest.2)
    }
}

/// The single-step (legacy) swap formula, kept exactly as the engine
/// computes it: the divisor is `pool_from * unswapped`, not
/// `pool_from + unswapped`.
pub open spec fn legacy_swap(pool_from: int, pool_to: int, unswapped: int) -> (int, int, int) {
    let out = pool_to - (pool_to * pool_from) / (pool_from * unswapped);
    (pool_from + unswapped, pool_to - out, out)
}

/// What `Dex::slop_swap` leaves in the two reserves and returns, for
/// either execution mode.
pub open spec fn slop_swap_spec(
    pool_from: int,
    pool_to: int,
    unswapped: int,
    post_bayfront_gardens: bool,
) -> (int, int, int) {
    if post_bayfront_gardens {
        chunked_swap(pool_from, pool_to, unswapped, chunk_size(pool_from, unswapped))
    } else {
        legacy_swap(pool_from, pool_to, unswapped)
    }
}

/// A proportional payout `t * s / f` with `s <= f` never exceeds `t`.
proof fn lemma_payout_le(t: int, s: int, f: int)
    requires
        0 <= t,
        0 < s <= f,
    ensures
        0 <= t * s / f <= t,
{
    vstd::arithmetic::mul::lemma_mul_nonnegative(t, s);
    vstd::arithmetic::div_mod::lemma_div_pos_is_pos(t * s, f);
    vstd::arithmetic::mul::lemma_mul_inequality(s, f, t);
    vstd::arithmetic::div_mod::lemma_div_is_ordered(t * s, t * f, f);
    vstd::arithmetic::div_mod::lemma_div_multiples_vanish(t, f);
}

/// The legacy quotient `t * f / (f * u)` with `u >= 1` never exceeds `t`.
proof fn lemma_legacy_quotient_le(t: int, f: int, u: int)
    requires
        0 <= t,
        0 < f,
        1 <= u,
    ensures
        0 <= t * f / (f * u) <= t,
{
    vstd::arithmetic::mul::lemma_mul_nonnegative(t, f);
    vstd::arithmetic::mul::lemma_mul_increases(u, f);
    vstd::arithmetic::mul::lemma_mul_is_commutative(f, u);
    vstd::arithmetic::div_mod::lemma_div_pos_is_pos(t * f, f * u);
    vstd::arithmetic::div_mod::lemma_div_is_ordered_by_denominator(t * f, f, f * u);
    vstd::arithmetic::div_mod::lemma_div_multiples_vanish(t, f);
}

/// Reserves and output of a chunked swap stay within the ranges of the
/// reserves it started from: the source reserve grows by exactly the
/// input, and output plus final target reserve account for the whole
/// initial target reserve.
pub proof fn lemma_chunked_swap_bounds(pool_from: int, pool_to: int, unswapped: int, chunk: int)
    requires
        1 <= chunk <= pool_from,
        0 <= pool_to,
        0 <= unswapped,
    ensures
        ({
            let r = chunked_swap(pool_from, pool_to, unswapped, chunk);
            &&& r.0 == pool_from + unswapped
            &&& 0 <= r.1 <= pool_to
            &&& r.1 + r.2 == pool_to
        }),
    decreases unswapped,
{
    if unswapped <= 0 {
    } else {
        let step = if chunk < unswapped {
            chunk
        } else {
            unswapped
        };
        let out = pool_to * step / pool_from;
        lemma_payout_le(pool_to, step, pool_from);
        lemma_chunked_swap_bounds(pool_from + step, pool_to - out, unswapped - step, chunk);
    }
}

/// The legacy formula never drives a reserve negative and never produces
/// more than the target reserve held.
pub proof fn lemma_legacy_swap_bounds(pool_from: int, pool_to: int, unswapped: int)
    requires
        1 <= pool_from,
        0 <= pool_to,
        1 <= unswapped,
    ensures
        ({
            let r = legacy_swap(pool_from, pool_to, unswapped);
            &&& r.0 == pool_from + unswapped
            &&& 0 <= r.1 <= pool_to
            &&& r.1 + r.2 == pool_to
        }),
{
    lemma_legacy_quotient_le(pool_to, pool_from, unswapped);
}

/// The reserve of the token being paid in.
pub open spec fn reserve_from(poolpair: PoolPair, token_in: TokenAmount) -> int {
    if token_in.token_id == poolpair.token_a {
        poolpair.reserve_a as int
    } else {
        poolpair.reserve_b as int
    }
}

/// The pool price in the trade direction before any state changes:
/// the source reserve over the target reserve, at coin scale.
pub open spec fn pre_trade_price(poolpair: PoolPair, token_in: TokenAmount) -> int {
    if token_in.token_id == poolpair.token_a {
        poolpair.reserve_a * (COIN as int) / (poolpair.reserve_b as int)
    } else {
        poolpair.reserve_b * (COIN as int) / (poolpair.reserve_a as int)
    }
}

/// The full outcome of `Dex::swap`, stated as one function of the inputs.
/// The checks run in the engine's order: a non-positive input amount, then
/// the liquidity floor, then the price bound, then reserve overflow, and
/// only then the trade itself.
pub open spec fn swap_spec(
    poolpair: PoolPair,
    token_in: TokenAmount,
    max_price: PoolPrice,
    post_bayfront_gardens: bool,
) -> Result<SwapResult, Error> {
    if token_in.amount <= 0 {
        Err(Error::InvalidInput)
    } else if poolpair.reserve_a < SLOPE_SWAP_RATE || poolpair.reserve_b < SLOPE_SWAP_RATE {
        Err(Error::LackOfLiquidity)
    } else {
        let forward = token_in.token_id == poolpair.token_a;
        if pre_trade_price(poolpair, token_in) > max_price.integer {
            Err(Error::PriceHigherThanIndex)
        } else if reserve_from(poolpair, token_in) + token_in.amount > i64::MAX {
            Err(Error::PoolReserveOverflow)
        } else {
            let r = if forward {
                slop_swap_spec(
                    poolpair.reserve_a as int,
                    poolpair.reserve_b as int,
                    token_in.amount as int,
                    post_bayfront_gardens,
                )
            } else {
                slop_swap_spec(
                    poolpair.reserve_b as int,
                    poolpair.reserve_a as int,
                    token_in.amount as int,
                    post_bayfront_gardens,
                )
            };
            let pool = if forward {
                PoolPair { reserve_a: r.0 as i64, reserve_b: r.1 as i64, ..poolpair }
            } else {
                PoolPair { reserve_a: r.1 as i64, reserve_b: r.0 as i64, ..poolpair }
            };
            Ok(SwapResult { pool_pair: pool, slop_swap_result: r.2 as i64 })
        }
    }
}

/// Law: a pool below the liquidity floor turns every swap attempt of a
/// positive amount into `LackOfLiquidity`; no updated pool state is
/// produced.
pub proof fn lemma_swap_lack_of_liquidity(
    poolpair: PoolPair,
    token_in: TokenAmount,
    max_price: PoolPrice,
    post_bayfront_gardens: bool,
)
    requires
        0 < token_in.amount,
        poolpair.reserve_a < MINIMUM_LIQUIDITY || poolpair.reserve_b < MINIMUM_LIQUIDITY,
    ensures
        swap_spec(poolpair, token_in, max_price, post_bayfront_gardens) == Err::<
            SwapResult,
            Error,
        >(Error::LackOfLiquidity),
{
}

/// Law: once the amount and the liquidity floor pass, a pre-trade price
/// above the integer part of the bound turns the swap into
/// `PriceHigherThanIndex` before any state changes.
pub proof fn lemma_swap_price_above_index(
    poolpair: PoolPair,
    token_in: TokenAmount,
    max_price: PoolPrice,
    post_bayfront_gardens: bool,
)
    requires
        0 < token_in.amount,
        MINIMUM_LIQUIDITY <= poolpair.reserve_a,
        MINIMUM_LIQUIDITY <= poolpair.reserve_b,
        pre_trade_price(poolpair, token_in) > max_price.integer,
    ensures
        swap_spec(poolpair, token_in, max_price, post_bayfront_gardens) == Err::<
            SwapResult,
            Error,
        >(Error::PriceHigherThanIndex),
{
}

/// Law: once the earlier checks pass, an input that would push the source
/// reserve past the signed 64-bit range turns the swap into
/// `PoolReserveOverflow`.
pub proof fn lemma_swap_reserve_overflow(
    poolpair: PoolPair,
    token_in: TokenAmount,
    max_price: PoolPrice,
    post_bayfront_gardens: bool,
)
    requires
        0 < token_in.amount,
        MINIMUM_LIQUIDITY <= poolpair.reserve_a,
        MINIMUM_LIQUIDITY <= poolpair.reserve_b,
        pre_trade_price(poolpair, token_in) <= max_price.integer,
        reserve_from(poolpair, token_in) + token_in.amount > i64::MAX,
    ensures
        swap_spec(poolpair, token_in, max_price, post_bayfront_gardens) == Err::<
            SwapResult,
            Error,
        >(Error::PoolReserveOverflow),
{
}

/// Law: a successful swap moves exactly the input amount into the
/// source reserve, and every unit of output it reports left the target
/// reserve: output plus the remaining target reserve account for the
/// whole initial target reserve.
pub proof fn lemma_swap_conserves_reserves(
    poolpair: PoolPair,
    token_in: TokenAmount,
    max_price: PoolPrice,
    post_bayfront_gardens: bool,
)
    requires
        token_in.token_id == poolpair.token_a || token_in.token_id == poolpair.token_b,
        0 < token_in.amount,
        MINIMUM_LIQUIDITY <= poolpair.reserve_a,
        MINIMUM_LIQUIDITY <= poolpair.reserve_b,
        reserve_from(poolpair, token_in) + token_in.amount <= i64::MAX,
    ensures
        ({
            let r = swap_spec(poolpair, token_in, max_price, post_bayfront_gardens);
            r matches Ok(res) ==> {
                let forward = token_in.token_id == poolpair.token_a;
                let from0 = if forward { poolpair.reserve_a } else { poolpair.reserve_b };
                let to0 = if forward { poolpair.reserve_b } else { poolpair.reserve_a };
                let from1 = if forward { res.pool_pair.reserve_a } else { res.pool_pair.reserve_b };
                let to1 = if forward { res.pool_pair.reserve_b } else { res.pool_pair.reserve_a };
                &&& from1 == from0 + token_in.amount
                &&& to1 + res.slop_swap_result == to0
                &&& 0 <= res.slop_swap_result <= to0
            }
        }),
{
    let forward = token_in.token_id == poolpair.token_a;
    let from0 = if forward { poolpair.reserve_a as int } else { poolpair.reserve_b as int };
    let to0 = if forward { poolpair.reserve_b as int } else { poolpair.reserve_a as int };
    let u = token_in.amount as int;
    if pre_trade_price(poolpair, token_in) <= max_price.integer {
        if post_bayfront_gardens {
            assert(1 <= chunk_size(from0, u) <= from0) by {
                vstd::arithmetic::div_mod::lemma_div_pos_is_pos(from0, 1000);
                vstd::arithmetic::div_mod::lemma_div_is_ordered_by_denominator(from0, 1, 1000);
                vstd::arithmetic::div_mod::lemma_div_by_self(1);
            }
            lemma_chunked_swap_bounds(from0, to0, u, chunk_size(from0, u));
        } else {
            lemma_legacy_swap_bounds(from0, to0, u);
        }
    }
}

/// Law: when every check passes, the swap succeeds.
pub proof fn lemma_swap_succeeds(
    poolpair: PoolPair,
    token_in: TokenAmount,
    max_price: PoolPrice,
    post_bayfront_gardens: bool,
)
    requires
        0 < token_in.amount,
        MINIMUM_LIQUIDITY <= poolpair.reserve_a,
        MINIMUM_LIQUIDITY <= poolpair.reserve_b,
        pre_trade_price(poolpair, token_in) <= max_price.integer,
        reserve_from(poolpair, token_in) + token_in.amount <= i64::MAX,
    ensures
        swap_spec(poolpair, token_in, max_price, post_bayfront_gardens) is Ok,
{
}

/// The engine that applies a swap to a pair of reserves.
pub struct Dex;

impl Dex {

    /// Swaps `token_in` against the pool under the `max_price` bound.
    /// The input token must be one of the pool's two tokens; a mismatch is
    /// a caller error the engine does not report recoverably.
    pub fn swap(
        poolpair: PoolPair,
        token_in: TokenAmount,
        max_price: PoolPrice,
        post_bayfront_gardens: bool,
    ) -> (r: Result<SwapResult, Error>)
        requires
            token_in.token_id == poolpair.token_a || token_in.token_id == poolpair.token_b,
            0 <= max_price.integer,
        ensures
            r == swap_spec(poolpair, token_in, max_price, post_bayfront_gardens),
    {
        let mut poolpair = poolpair;
        if token_in.amount <= 0 {
            return Err(Error::InvalidInput);
        }

        let forward = token_in.token_id == poolpair.token_a;

        if poolpair.reserve_a < SLOPE_SWAP_RATE || poolpair.reserve_b < SLOPE_SWAP_RATE {
            return Err(Error::LackOfLiquidity);
        }

        let reserve_a = poolpair.reserve_a as u128;
        let reserve_b = poolpair.reserve_b as u128;

        let max_price_wide = max_price.integer as u128;
        assert(reserve_a * (COIN as u128) <= u128::MAX && reserve_b * (COIN as u128)
            <= u128::MAX) by (nonlinear_arith)
            requires
                reserve_a <= i64::MAX as u128,
                reserve_b <= i64::MAX as u128,
        ;
        let price_ab = reserve_a * (COIN as u128) / reserve_b;
        let price_ba = reserve_b * (COIN as u128) / reserve_a;

        let cur_price = if forward {
            price_ab
        } else {
            price_ba
        };

        if cur_price > max_price_wide {
            return Err(Error::PriceHigherThanIndex);
        }

        let headroom = if forward {
            i64::MAX - poolpair.reserve_a
        } else {
            i64::MAX - poolpair.reserve_b
        };
        if token_in.amount > headroom {
            return Err(Error::PoolReserveOverflow);
        }

        let result = if forward {
            let mut pool_from = poolpair.reserve_a;
            let mut pool_to = poolpair.reserve_b;
            let swapped = Dex::slop_swap(
                token_in.amount,
                &mut pool_from,
                &mut pool_to,
                post_bayfront_gardens,
            );
            poolpair.reserve_a = pool_from;
            poolpair.reserve_b = pool_to;
            swapped
        } else {
            let mut pool_from = poolpair.reserve_b;
            let mut pool_to = poolpair.reserve_a;
            let swapped = Dex::slop_swap(
                token_in.amount,
                &mut pool_from,
                &mut pool_to,
                post_bayfront_gardens,
            );
            poolpair.reserve_b = pool_from;
            poolpair.reserve_a = pool_to;
            swapped
        };

        Ok(SwapResult { pool_pair: poolpair, slop_swap_result: result })
    }

    /// Trades `unswapped` of the source token against the two reserves,
    /// either chunk by chunk (`post_bayfront_gardens`) or with the legacy
    /// single-step formula, and returns the amount of target token
    /// produced.
    pub fn slop_swap(
        unswapped: i64,
        pool_from: &mut i64,
        pool_to: &mut i64,
        post_bayfront_gardens: bool,
    ) -> (swapped: i64)
        requires
            0 < unswapped,
            MINIMUM_LIQUIDITY <= *old(pool_from),
            0 <= *old(pool_to),
            *old(pool_from) + unswapped <= i64::MAX,
        ensures
            ({
                let r = slop_swap_spec(
                    *old(pool_from) as int,
                    *old(pool_to) as int,
                    unswapped as int,
                    post_bayfront_gardens,
                );
                &&& *final(pool_from) == r.0
                &&& *final(pool_to) == r.1
                &&& swapped == r.2
            }),
    {
        let ghost f0 = *pool_from as int;
        let ghost t0 = *pool_to as int;
        let ghost u0 = unswapped as int;
        let mut unswapped = unswapped;
        let mut pool_f: u128 = *pool_from as u128;
        let mut pool_t: u128 = *pool_to as u128;
        let mut swapped: u128 = 0;

        if post_bayfront_gardens {
            let chunk: i64 = if *pool_from / SLOPE_SWAP_RATE < unswapped {
                *pool_from / SLOPE_SWAP_RATE
            } else {
                unswapped
            };
            assert(chunk == chunk_size(f0, u0));
            while unswapped > 0
                invariant
                    0 <= unswapped,
                    1000 <= f0,
                    0 <= t0 <= i64::MAX,
                    chunk == chunk_size(f0, u0),
                    1 <= chunk <= f0,
                    f0 <= pool_f,
                    pool_f + unswapped == f0 + u0 <= i64::MAX,
                    0 <= pool_t <= t0,
                    swapped + pool_t == t0,
                    chunked_swap(f0, t0, u0, chunk as int) == ({
                        let r = chunked_swap(
                            pool_f as int,
                            pool_t as int,
                            unswapped as int,
                            chunk as int,
                        );
                        (r.0, r.1, swapped + r.2)
                    }),
                decreases unswapped,
            {
                let step_from: i64 = if chunk < unswapped {
                    chunk
                } else {
                    unswapped
                };
                assert(pool_t * (step_from as u128) <= t0 * f0 <= u128::MAX) by (nonlinear_arith)
                    requires
                        0 <= pool_t <= t0 <= i64::MAX,
                        0 < step_from <= f0 <= i64::MAX,
                        f0 <= pool_f,
                ;
                let step_to: u128 = pool_t * (step_from as u128) / pool_f;
                assert(step_to <= pool_t) by (nonlinear_arith)
                    requires
                        0 <= pool_t,
                        0 < step_from as u128 <= pool_f,
                        step_to == (pool_t as int) * (step_from as int) / (pool_f as int),
                ;
                pool_f = pool_f + step_from as u128;
                pool_t = pool_t - step_to;
                unswapped = unswapped - step_from;
                swapped = swapped + step_to;
            }
        } else {
            let unswapped_256 = unswapped as u128;
            assert(pool_t * pool_f <= u128::MAX && pool_f * unswapped_256 <= u128::MAX)
                by (nonlinear_arith)
                requires
                    0 <= pool_t <= i64::MAX as u128,
                    0 < pool_f <= i64::MAX as u128,
                    0 < unswapped_256 <= i64::MAX as u128,
            ;
            assert(pool_f * unswapped_256 > 0) by (nonlinear_arith)
                requires
                    0 < pool_f,
                    0 < unswapped_256,
            ;
            let q: u128 = pool_t * pool_f / (pool_f * unswapped_256);
            assert(q <= pool_t) by (nonlinear_arith)
                requires
                    0 <= pool_t,
                    0 < pool_f,
                    0 < unswapped_256,
                    q == (pool_t as int) * (pool_f as int) / ((pool_f as int) * (unswapped_256 as int)),
            ;
            swapped = pool_t - q;
            pool_f = pool_f + unswapped_256;
            pool_t = pool_t - swapped;
        }
        *pool_from = pool_f as i64;
        *pool_to = pool_t as i64;
        swapped as i64
    }
}

} // verus!
