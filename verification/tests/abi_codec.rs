use ain_dex::abi::{decode_args, decode_result, encode_args, encode_result, swap_abi_entry};
use ain_dex::dex::{Error, PoolPair, PoolPrice, SwapResult, TokenAmount, COIN};

fn sample_pool() -> PoolPair {
    PoolPair {
        token_a: 1,
        token_b: 0xfffffffe,
        commission: 10_000_000,
        reserve_a: 200 * COIN,
        reserve_b: 1000 * COIN,
        total_liquidity: 1000 * COIN,
        block_commission_a: -7,
        block_commission_b: i64::MIN,
    }
}

#[test]
fn test_args_round_trip() {
    let pool = sample_pool();
    let token_in = TokenAmount { token_id: 0xfffffffe, amount: 10 * COIN };
    let max_price = PoolPrice { integer: 100 * COIN, fraction: -1 };

    for mode in [false, true] {
        let args = encode_args(pool, token_in, max_price, mode);
        let (pool2, token2, price2, mode2) = decode_args(args);
        assert_eq!(pool2, pool);
        assert_eq!(token2.token_id, token_in.token_id);
        assert_eq!(token2.amount, token_in.amount);
        assert_eq!(price2, max_price);
        assert_eq!(mode2, mode);
    }
}

#[test]
fn test_args_flat_order() {
    let pool = sample_pool();
    let token_in = TokenAmount { token_id: 2, amount: 10 * COIN };
    let max_price = PoolPrice { integer: 100 * COIN, fraction: 0 };
    let args = encode_args(pool, token_in, max_price, true);
    assert_eq!(args.token_a, 1);
    assert_eq!(args.token_b, -2); // 0xfffffffe wrapped into i32
    assert_eq!(args.commission, 10_000_000);
    assert_eq!(args.reserve_a, 200 * COIN);
    assert_eq!(args.reserve_b, 1000 * COIN);
    assert_eq!(args.total_liquidity, 1000 * COIN);
    assert_eq!(args.block_commission_a, -7);
    assert_eq!(args.block_commission_b, i64::MIN);
    assert_eq!(args.token_id, 2);
    assert_eq!(args.amount, 10 * COIN);
    assert_eq!(args.integer, 100 * COIN);
    assert_eq!(args.fraction, 0);
    assert_eq!(args.mode, 1);
}

#[test]
fn test_result_round_trip_success() {
    let res = SwapResult {
        pool_pair: sample_pool(),
        slop_swap_result: -123456789,
    };
    let block = encode_result(&Ok(res));
    assert_eq!(block.len(), 80);
    let decoded = decode_result(&block);
    assert_eq!(decoded, Some(Ok(res)));
}

#[test]
fn test_result_round_trip_errors() {
    let errors = [
        Error::RuntimeError,
        Error::NotFoundError,
        Error::InvalidInput,
        Error::LackOfLiquidity,
        Error::PriceHigherThanIndex,
        Error::PoolReserveOverflow,
    ];
    for e in errors {
        let block = encode_result(&Err(e));
        assert_eq!(block.len(), 80);
        assert_eq!(decode_result(&block), Some(Err(e)));
    }
}

#[test]
fn test_result_block_layout() {
    let res = SwapResult {
        pool_pair: sample_pool(),
        slop_swap_result: 5,
    };
    let block = encode_result(&Ok(res));
    // Success tag in the first word, little-endian.
    assert_eq!(&block[0..4], &[0, 0, 0, 0]);
    // token_a = 1 at offset 8.
    assert_eq!(&block[8..12], &[1, 0, 0, 0]);
    // reserve_a = 200 coins at offset 32.
    assert_eq!(&block[32..40], &((200 * COIN) as u64).to_le_bytes()[..]);
    // Output amount at offset 72.
    assert_eq!(&block[72..80], &5u64.to_le_bytes()[..]);

    let block = encode_result(&Err(Error::InvalidInput));
    // Error tag, then the discriminant 2.
    assert_eq!(&block[0..4], &[1, 0, 0, 0]);
    assert_eq!(&block[8..12], &[2, 0, 0, 0]);
}

#[test]
fn test_decode_faults() {
    // Wrong length.
    assert_eq!(decode_result(&vec![0u8; 79]), None);
    assert_eq!(decode_result(&vec![0u8; 81]), None);
    // Unknown tag.
    let mut block = vec![0u8; 80];
    block[0] = 7;
    assert_eq!(decode_result(&block), None);
    // Unknown error discriminant.
    let mut block = vec![0u8; 80];
    block[0] = 1;
    block[8] = 6;
    assert_eq!(decode_result(&block), None);
}

#[test]
fn test_swap_abi_entry_runs_engine() {
    let pool = sample_pool();
    let pool = PoolPair { token_b: 2, ..pool };
    let token_in = TokenAmount { token_id: 2, amount: 10 * COIN };
    let max_price = PoolPrice { integer: 100 * COIN, fraction: 0 };
    let args = encode_args(pool, token_in, max_price, true);
    let block = swap_abi_entry(args);
    let decoded = decode_result(&block).unwrap().unwrap();
    // The engine traded silver for gold: gold shrank, silver grew.
    assert!(decoded.pool_pair.reserve_a < pool.reserve_a);
    assert!(decoded.pool_pair.reserve_b > pool.reserve_b);
    assert!(decoded.slop_swap_result > 0);
}
