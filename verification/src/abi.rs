//! The ABI marshalling layer: aggregate records flattened to the fixed
//! scalar sequence a sandbox call takes, and the discriminated
//! result/error union laid out at fixed byte offsets in sandbox linear
//! memory.
//!
//! The result block is 80 bytes: a 32-bit tag at offset 0 (0 = success,
//! 1 = error), then either the pool fields (32-bit words at offsets 8,
//! 16, 24, 64-bit words at 32 through 64) and the output amount at 72,
//! or the 32-bit error discriminant at offset 8.  Words are
//! little-endian; an unknown tag or discriminant never decodes.

use vstd::prelude::*;

use crate::dex::{Dex, Error, PoolPair, PoolPrice, SwapResult, TokenAmount, swap_spec};

verus! {

/// The flat scalar form of the swap arguments, in the exact order the
/// sandbox export takes them.
#[derive(Clone, Copy, PartialEq, Eq, Structural, Debug)]
pub struct SwapArgs {
    pub token_a: i32,
    pub token_b: i32,
    pub commission: i32,
    pub reserve_a: i64,
    pub reserve_b: i64,
    pub total_liquidity: i64,
    pub block_commission_a: i64,
    pub block_commission_b: i64,
    pub token_id: i32,
    pub amount: i64,
    pub integer: i64,
    pub fraction: i64,
    pub mode: i32,
}

/// How the host flattens the aggregate arguments.
pub open spec fn encode_args_spec(
    poolpair: PoolPair,
    token_in: TokenAmount,
    max_price: PoolPrice,
    post_bayfront_gardens: bool,
) -> SwapArgs {
    SwapArgs {
        token_a: poolpair.token_a as i32,
        token_b: poolpair.token_b as i32,
        commission: poolpair.commission as i32,
        reserve_a: poolpair.reserve_a,
        reserve_b: poolpair.reserve_b,
        total_liquidity: poolpair.total_liquidity,
        block_commission_a: poolpair.block_commission_a,
        block_commission_b: poolpair.block_commission_b,
        token_id: token_in.token_id as i32,
        amount: token_in.amount,
        integer: max_price.integer,
        fraction: max_price.fraction,
        mode: if post_bayfront_gardens {
            1
        } else {
            0
        },
    }
}

/// How the sandbox side rebuilds the aggregates from the flat scalars.
/// A mode word other than 0 or 1 is a contract violation and never
/// reaches this reading.
pub open spec fn decode_args_spec(args: SwapArgs) -> (PoolPair, TokenAmount, PoolPrice, bool) {
    (
        PoolPair {
            token_a: args.token_a as u32,
            token_b: args.token_b as u32,
            commission: args.commission as u32,
            reserve_a: args.reserve_a,
            reserve_b: args.reserve_b,
            total_liquidity: args.total_liquidity,
            block_commission_a: args.block_commission_a,
            block_commission_b: args.block_commission_b,
        },
        TokenAmount { token_id: args.token_id as u32, amount: args.amount },
        PoolPrice { integer: args.integer, fraction: args.fraction },
        args.mode == 1,
    )
}

/// Flattens the aggregate swap arguments for the sandbox call.
pub fn encode_args(
    poolpair: PoolPair,
    token_in: TokenAmount,
    max_price: PoolPrice,
    post_bayfront_gardens: bool,
) -> (r: SwapArgs)
    ensures
        r == encode_args_spec(poolpair, token_in, max_price, post_bayfront_gardens),
{
    SwapArgs {
        token_a: poolpair.token_a as i32,
        token_b: poolpair.token_b as i32,
        commission: poolpair.commission as i32,
        reserve_a: poolpair.reserve_a,
        reserve_b: poolpair.reserve_b,
        total_liquidity: poolpair.total_liquidity,
        block_commission_a: poolpair.block_commission_a,
        block_commission_b: poolpair.block_commission_b,
        token_id: token_in.token_id as i32,
        amount: token_in.amount,
        integer: max_price.integer,
        fraction: max_price.fraction,
        mode: if post_bayfront_gardens {
            1
        } else {
            0
        },
    }
}

/// Rebuilds the aggregate swap arguments on the sandbox side.
pub fn decode_args(args: SwapArgs) -> (r: (PoolPair, TokenAmount, PoolPrice, bool))
    requires
        args.mode == 0 || args.mode == 1,
    ensures
        r == decode_args_spec(args),
{
    (
        PoolPair {
            token_a: args.token_a as u32,
            token_b: args.token_b as u32,
            commission: args.commission as u32,
            reserve_a: args.reserve_a,
            reserve_b: args.reserve_b,
            total_liquidity: args.total_liquidity,
            block_commission_a: args.block_commission_a,
            block_commission_b: args.block_commission_b,
        },
        TokenAmount { token_id: args.token_id as u32, amount: args.amount },
        PoolPrice { integer: args.integer, fraction: args.fraction },
        args.mode == 1,
    )
}

/// Casting a 32-bit value through the signed type and back preserves it.
proof fn lemma_u32_cast_roundtrip(v: u32)
    ensures
        (v as i32) as u32 == v,
{
    assert((v as i32) as u32 == v) by (bit_vector);
}

/// Casting a 64-bit value through the unsigned type and back preserves
/// it.
proof fn lemma_i64_cast_roundtrip(v: i64)
    ensures
        (v as u64) as i64 == v,
{
    assert((v as u64) as i64 == v) by (bit_vector);
}

/// Law: flattening any pool, token amount and price bound and reading
/// the scalars back yields the records field for field, and the mode
/// flag unchanged.
pub proof fn lemma_args_round_trip(
    poolpair: PoolPair,
    token_in: TokenAmount,
    max_price: PoolPrice,
    post_bayfront_gardens: bool,
)
    ensures
        decode_args_spec(encode_args_spec(poolpair, token_in, max_price, post_bayfront_gardens))
            == (poolpair, token_in, max_price, post_bayfront_gardens),
{
    lemma_u32_cast_roundtrip(poolpair.token_a);
    lemma_u32_cast_roundtrip(poolpair.token_b);
    lemma_u32_cast_roundtrip(poolpair.commission);
    lemma_u32_cast_roundtrip(token_in.token_id);
}

/// The wire discriminant of each error.
pub open spec fn error_code_spec(e: Error) -> u32 {
    match e {
        Error::RuntimeError => 0,
        Error::NotFoundError => 1,
        Error::InvalidInput => 2,
        Error::LackOfLiquidity => 3,
        Error::PriceHigherThanIndex => 4,
        Error::PoolReserveOverflow => 5,
    }
}

/// The error a wire discriminant stands for, if any.
pub open spec fn error_of_code_spec(code: u32) -> Option<Error> {
    if code == 0 {
        Some(Error::RuntimeError)
    } else if code == 1 {
        Some(Error::NotFoundError)
    } else if code == 2 {
        Some(Error::InvalidInput)
    } else if code == 3 {
        Some(Error::LackOfLiquidity)
    } else if code == 4 {
        Some(Error::PriceHigherThanIndex)
    } else if code == 5 {
        Some(Error::PoolReserveOverflow)
    } else {
        None
    }
}

fn error_code(e: Error) -> (r: u32)
    ensures
        r == error_code_spec(e),
{
    match e {
        Error::RuntimeError => 0,
        Error::NotFoundError => 1,
        Error::InvalidInput => 2,
        Error::LackOfLiquidity => 3,
        Error::PriceHigherThanIndex => 4,
        Error::PoolReserveOverflow => 5,
    }
}

fn error_from_code(code: u32) -> (r: Option<Error>)
    ensures
        r == error_of_code_spec(code),
{
    if code == 0 {
        Some(Error::RuntimeError)
    } else if code == 1 {
        Some(Error::NotFoundError)
    } else if code == 2 {
        Some(Error::InvalidInput)
    } else if code == 3 {
        Some(Error::LackOfLiquidity)
    } else if code == 4 {
        Some(Error::PriceHigherThanIndex)
    } else if code == 5 {
        Some(Error::PoolReserveOverflow)
    } else {
        None
    }
}

/// The little-endian 32-bit word at byte offset `off`.
pub open spec fn u32_of_le(b: Seq<u8>, off: int) -> u32
    recommends
        0 <= off,
        off + 4 <= b.len(),
{
    ((b[off] as u32) | ((b[off + 1] as u32) << 8)) | (((b[off + 2] as u32) << 16) | ((b[off + 3]
        as u32) << 24))
}

/// The little-endian 64-bit word at byte offset `off`.
pub open spec fn u64_of_le(b: Seq<u8>, off: int) -> u64
    recommends
        0 <= off,
        off + 8 <= b.len(),
{
    (((b[off] as u64) | ((b[off + 1] as u64) << 8)) | (((b[off + 2] as u64) << 16) | ((b[off + 3]
        as u64) << 24))) | ((((b[off + 4] as u64) << 32) | ((b[off + 5] as u64) << 40)) | (((b[off
        + 6] as u64) << 48) | ((b[off + 7] as u64) << 56)))
}

/// What an 80-byte result block decodes to: a result for tag 0 with a
/// known discriminant path, an error for tag 1 with a known
/// discriminant, and nothing (a fatal decode fault) otherwise.
pub open spec fn decode_result_spec(b: Seq<u8>) -> Option<Result<SwapResult, Error>> {
    if b.len() != 80 {
        None
    } else {
        let tag = u32_of_le(b, 0);
        if tag == 0 {
            Some(
                Ok(
                    SwapResult {
                        pool_pair: PoolPair {
                            token_a: u32_of_le(b, 8),
                            token_b: u32_of_le(b, 16),
                            commission: u32_of_le(b, 24),
                            reserve_a: u64_of_le(b, 32) as i64,
                            reserve_b: u64_of_le(b, 40) as i64,
                            total_liquidity: u64_of_le(b, 48) as i64,
                            block_commission_a: u64_of_le(b, 56) as i64,
                            block_commission_b: u64_of_le(b, 64) as i64,
                        },
                        slop_swap_result: u64_of_le(b, 72) as i64,
                    },
                ),
            )
        } else if tag == 1 {
            match error_of_code_spec(u32_of_le(b, 8)) {
                Some(e) => Some(Err(e)),
                None => None,
            }
        } else {
            None
        }
    }
}

/// Appends a 32-bit word in little-endian order followed by four bytes
/// of padding, as the sandbox lays 32-bit fields out in 8-byte slots.
fn push_u32_pad(out: &mut Vec<u8>, v: u32)
    ensures
        final(out)@.len() == old(out)@.len() + 8,
        forall|i: int| 0 <= i < old(out)@.len() ==> final(out)@[i] == old(out)@[i],
        u32_of_le(final(out)@, old(out)@.len() as int) == v,
{
    out.push((v & 0xff) as u8);
    out.push(((v >> 8) & 0xff) as u8);
    out.push(((v >> 16) & 0xff) as u8);
    out.push(((v >> 24) & 0xff) as u8);
    out.push(0);
    out.push(0);
    out.push(0);
    out.push(0);
    proof {
        let b0 = (v & 0xff) as u8;
        let b1 = ((v >> 8) & 0xff) as u8;
        let b2 = ((v >> 16) & 0xff) as u8;
        let b3 = ((v >> 24) & 0xff) as u8;
        assert((((b0 as u32) | ((b1 as u32) << 8)) | (((b2 as u32) << 16) | ((b3 as u32) << 24)))
            == v) by (bit_vector)
            requires
                b0 == (v & 0xff) as u8,
                b1 == ((v >> 8) & 0xff) as u8,
                b2 == ((v >> 16) & 0xff) as u8,
                b3 == ((v >> 24) & 0xff) as u8,
        ;
    }
}

/// Appends a 64-bit word in little-endian order.
fn push_u64_le(out: &mut Vec<u8>, v: u64)
    ensures
        final(out)@.len() == old(out)@.len() + 8,
        forall|i: int| 0 <= i < old(out)@.len() ==> final(out)@[i] == old(out)@[i],
        u64_of_le(final(out)@, old(out)@.len() as int) == v,
{
    out.push((v & 0xff) as u8);
    out.push(((v >> 8) & 0xff) as u8);
    out.push(((v >> 16) & 0xff) as u8);
    out.push(((v >> 24) & 0xff) as u8);
    out.push(((v >> 32) & 0xff) as u8);
    out.push(((v >> 40) & 0xff) as u8);
    out.push(((v >> 48) & 0xff) as u8);
    out.push(((v >> 56) & 0xff) as u8);
    proof {
        let b0 = (v & 0xff) as u8;
        let b1 = ((v >> 8) & 0xff) as u8;
        let b2 = ((v >> 16) & 0xff) as u8;
        let b3 = ((v >> 24) & 0xff) as u8;
        let b4 = ((v >> 32) & 0xff) as u8;
        let b5 = ((v >> 40) & 0xff) as u8;
        let b6 = ((v >> 48) & 0xff) as u8;
        let b7 = ((v >> 56) & 0xff) as u8;
        assert(((((b0 as u64) | ((b1 as u64) << 8)) | (((b2 as u64) << 16) | ((b3 as u64) << 24)))
            | ((((b4 as u64) << 32) | ((b5 as u64) << 40)) | (((b6 as u64) << 48) | ((b7 as u64)
            << 56)))) == v) by (bit_vector)
            requires
                b0 == (v & 0xff) as u8,
                b1 == ((v >> 8) & 0xff) as u8,
                b2 == ((v >> 16) & 0xff) as u8,
                b3 == ((v >> 24) & 0xff) as u8,
                b4 == ((v >> 32) & 0xff) as u8,
                b5 == ((v >> 40) & 0xff) as u8,
                b6 == ((v >> 48) & 0xff) as u8,
                b7 == ((v >> 56) & 0xff) as u8,
        ;
    }
}

/// Writes a result into a fresh 80-byte block in the fixed layout.  The
/// postcondition is the round-trip law for results: the block decodes
/// back to exactly the value written.
pub fn encode_result(r: &Result<SwapResult, Error>) -> (out: Vec<u8>)
    ensures
        out@.len() == 80,
        decode_result_spec(out@) == Some(*r),
{
    let mut out: Vec<u8> = Vec::new();
    match r {
        Ok(res) => {
            push_u32_pad(&mut out, 0);
            push_u32_pad(&mut out, res.pool_pair.token_a);
            push_u32_pad(&mut out, res.pool_pair.token_b);
            push_u32_pad(&mut out, res.pool_pair.commission);
            push_u64_le(&mut out, res.pool_pair.reserve_a as u64);
            push_u64_le(&mut out, res.pool_pair.reserve_b as u64);
            push_u64_le(&mut out, res.pool_pair.total_liquidity as u64);
            push_u64_le(&mut out, res.pool_pair.block_commission_a as u64);
            push_u64_le(&mut out, res.pool_pair.block_commission_b as u64);
            push_u64_le(&mut out, res.slop_swap_result as u64);
            proof {
                lemma_i64_cast_roundtrip(res.pool_pair.reserve_a);
                lemma_i64_cast_roundtrip(res.pool_pair.reserve_b);
                lemma_i64_cast_roundtrip(res.pool_pair.total_liquidity);
                lemma_i64_cast_roundtrip(res.pool_pair.block_commission_a);
                lemma_i64_cast_roundtrip(res.pool_pair.block_commission_b);
                lemma_i64_cast_roundtrip(res.slop_swap_result);
            }
        },
        Err(e) => {
            push_u32_pad(&mut out, 1);
            push_u32_pad(&mut out, error_code(*e));
            push_u32_pad(&mut out, 0);
            push_u32_pad(&mut out, 0);
            push_u64_le(&mut out, 0);
            push_u64_le(&mut out, 0);
            push_u64_le(&mut out, 0);
            push_u64_le(&mut out, 0);
            push_u64_le(&mut out, 0);
            push_u64_le(&mut out, 0);
        },
    }
    out
}

fn read_u32_le(b: &Vec<u8>, off: usize) -> (r: u32)
    requires
        off + 4 <= b@.len(),
        b@.len() <= usize::MAX,
    ensures
        r == u32_of_le(b@, off as int),
{
    ((b[off] as u32) | ((b[off + 1] as u32) << 8)) | (((b[off + 2] as u32) << 16) | ((b[off + 3]
        as u32) << 24))
}

fn read_u64_le(b: &Vec<u8>, off: usize) -> (r: u64)
    requires
        off + 8 <= b@.len(),
        b@.len() <= usize::MAX,
    ensures
        r == u64_of_le(b@, off as int),
{
    (((b[off] as u64) | ((b[off + 1] as u64) << 8)) | (((b[off + 2] as u64) << 16) | ((b[off + 3]
        as u64) << 24))) | ((((b[off + 4] as u64) << 32) | ((b[off + 5] as u64) << 40)) | (((b[off
        + 6] as u64) << 48) | ((b[off + 7] as u64) << 56)))
}

/// Reads a result block back from sandbox memory.  `None` is a fatal
/// decode fault: an unknown tag or error discriminant, or a block of
/// the wrong size; it is never silently defaulted.
pub fn decode_result(bytes: &Vec<u8>) -> (r: Option<Result<SwapResult, Error>>)
    ensures
        r == decode_result_spec(bytes@),
{
    if bytes.len() != 80 {
        return None;
    }

    let tag = read_u32_le(bytes, 0);
    if tag == 0 {
        Some(
            Ok(
                SwapResult {
                    pool_pair: PoolPair {
                        token_a: read_u32_le(bytes, 8),
                        token_b: read_u32_le(bytes, 16),
                        commission: read_u32_le(bytes, 24),
                        reserve_a: read_u64_le(bytes, 32) as i64,
                        reserve_b: read_u64_le(bytes, 40) as i64,
                        total_liquidity: read_u64_le(bytes, 48) as i64,
                        block_commission_a: read_u64_le(bytes, 56) as i64,
                        block_commission_b: read_u64_le(bytes, 64) as i64,
                    },
                    slop_swap_result: read_u64_le(bytes, 72) as i64,
                },
            ),
        )
    } else if tag == 1 {
        match error_from_code(read_u32_le(bytes, 8)) {
            Some(e) => Some(Err(e)),
            None => None,
        }
    } else {
        None
    }
}

/// The sandbox-side entry: rebuilds the arguments, runs the swap engine
/// and lays the outcome out as a result block.
pub fn swap_abi_entry(args: SwapArgs) -> (out: Vec<u8>)
    requires
        args.mode == 0 || args.mode == 1,
        ({
            let (poolpair, token_in, max_price, mode) = decode_args_spec(args);
            (token_in.token_id == poolpair.token_a || token_in.token_id == poolpair.token_b)
                && 0 <= max_price.integer
        }),
    ensures
        decode_result_spec(out@) == Some(
            ({
                let (poolpair, token_in, max_price, mode) = decode_args_spec(args);
                swap_spec(poolpair, token_in, max_price, mode)
            }),
        ),
{
    let (poolpair, token_in, max_price, mode) = decode_args(args);
    let result = Dex::swap(poolpair, token_in, max_price, mode);
    encode_result(&result)
}

} // verus!
