use ain_dex::dex::{Dex, Error, PoolPair, PoolPrice, TokenAmount, COIN};

fn test_pool() -> PoolPair {
    PoolPair {
        token_a: 1,
        token_b: 2,
        commission: 10_000_000,
        reserve_a: 200 * COIN,
        reserve_b: 1000 * COIN,
        total_liquidity: 1000 * COIN,
        block_commission_a: 0,
        block_commission_b: 0,
    }
}

#[test]
fn text_swap() {
    let gold = 1;
    let silver = 2;

    let mut pool_pair = PoolPair {
        token_a: gold,
        token_b: silver,
        commission: 10_000_000,
        reserve_a: 200 * COIN,
        reserve_b: 1000 * COIN,
        total_liquidity: 1000 * COIN,
        block_commission_a: 0,
        block_commission_b: 0,
    };

    let token_in = TokenAmount {
        token_id: silver,
        amount: 10 * COIN,
    };
    let max_price = PoolPrice {
        integer: 100 * COIN,
        fraction: 0,
    };
    for i in 1..21 {
        let result = Dex::swap(pool_pair, token_in, max_price, true).unwrap();
        println!(
            "Result {}: {}",
            i,
            result.slop_swap_result as f64 / COIN as f64
        );
        pool_pair = result.pool_pair;
    }
}

#[test]
fn test_chunked_scenario_price_impact() {
    // A 10-coin trade of token 2 against a 200/1000 pool, in chunked mode.
    let pool = test_pool();
    let token_in = TokenAmount {
        token_id: 2,
        amount: 10 * COIN,
    };
    let max_price = PoolPrice {
        integer: 100 * COIN,
        fraction: 0,
    };

    let first = Dex::swap(pool, token_in, max_price, true).unwrap();
    // The chunked output is strictly below the instantaneous-price
    // estimate `reserve_a * amount / reserve_b`.
    let estimate = (pool.reserve_a as i128 * token_in.amount as i128
        / pool.reserve_b as i128) as i64;
    assert!(first.slop_swap_result > 0);
    assert!(first.slop_swap_result < estimate);

    // Repeating the swap against the evolving pool gives strictly
    // decreasing outputs, a strictly rising silver reserve and a
    // strictly falling gold reserve.
    let mut pool_pair = pool;
    let mut last_output = i64::MAX;
    for _ in 0..20 {
        let before = pool_pair;
        let result = Dex::swap(pool_pair, token_in, max_price, true).unwrap();
        assert!(result.slop_swap_result < last_output);
        assert!(result.pool_pair.reserve_b > before.reserve_b);
        assert!(result.pool_pair.reserve_a < before.reserve_a);
        last_output = result.slop_swap_result;
        pool_pair = result.pool_pair;
    }
}

#[test]
fn test_swap_invalid_input() {
    let pool = test_pool();
    let token_in = TokenAmount { token_id: 2, amount: 0 };
    let max_price = PoolPrice { integer: 100 * COIN, fraction: 0 };
    assert_eq!(
        Dex::swap(pool, token_in, max_price, true).unwrap_err(),
        Error::InvalidInput
    );
    let negative = TokenAmount { token_id: 2, amount: -5 };
    assert_eq!(
        Dex::swap(pool, negative, max_price, false).unwrap_err(),
        Error::InvalidInput
    );
}

#[test]
fn test_swap_lack_of_liquidity() {
    // Either reserve below 1000 scaled units rejects the swap.
    let mut pool = test_pool();
    pool.reserve_a = 999;
    let token_in = TokenAmount { token_id: 2, amount: COIN };
    let max_price = PoolPrice { integer: 100 * COIN, fraction: 0 };
    assert_eq!(
        Dex::swap(pool, token_in, max_price, true).unwrap_err(),
        Error::LackOfLiquidity
    );

    let mut pool = test_pool();
    pool.reserve_b = 0;
    assert_eq!(
        Dex::swap(pool, token_in, max_price, true).unwrap_err(),
        Error::LackOfLiquidity
    );
}

#[test]
fn test_swap_price_higher_than_index() {
    // Trading token 2 into the pool prices reserve_b over reserve_a:
    // 1000/200 = 5 coins, above a bound of 4 coins.
    let pool = test_pool();
    let token_in = TokenAmount { token_id: 2, amount: COIN };
    let max_price = PoolPrice { integer: 4 * COIN, fraction: 0 };
    assert_eq!(
        Dex::swap(pool, token_in, max_price, true).unwrap_err(),
        Error::PriceHigherThanIndex
    );
    // At the exact price the swap is allowed.
    let at_bound = PoolPrice { integer: 5 * COIN, fraction: 0 };
    assert!(Dex::swap(pool, token_in, at_bound, true).is_ok());
}

#[test]
fn test_swap_pool_reserve_overflow() {
    let pool = test_pool();
    let token_in = TokenAmount {
        token_id: 2,
        amount: i64::MAX - pool.reserve_b + 1,
    };
    let max_price = PoolPrice { integer: 100 * COIN, fraction: 0 };
    assert_eq!(
        Dex::swap(pool, token_in, max_price, true).unwrap_err(),
        Error::PoolReserveOverflow
    );
}

#[test]
fn test_legacy_mode_formula() {
    // Legacy mode follows the literal single-step formula, whose
    // divisor is reserve_from * amount: with a 2000/5000 pool and an
    // input of 100, the quotient is 5000*2000/(2000*100) = 50, so the
    // output is 5000 - 50 = 4950.
    let pool = PoolPair {
        token_a: 1,
        token_b: 2,
        commission: 0,
        reserve_a: 2000,
        reserve_b: 5000,
        total_liquidity: 0,
        block_commission_a: 0,
        block_commission_b: 0,
    };
    let token_in = TokenAmount { token_id: 1, amount: 100 };
    let max_price = PoolPrice { integer: COIN, fraction: 0 };
    let result = Dex::swap(pool, token_in, max_price, false).unwrap();
    assert_eq!(result.slop_swap_result, 4950);
    assert_eq!(result.pool_pair.reserve_a, 2100);
    assert_eq!(result.pool_pair.reserve_b, 50);
    // The other fields come through untouched.
    assert_eq!(result.pool_pair.token_a, 1);
    assert_eq!(result.pool_pair.token_b, 2);
    assert_eq!(result.pool_pair.total_liquidity, 0);
}

#[test]
fn test_slop_swap_direct() {
    // One chunk: chunk = 2000/1000 = 2, consumed in one step of 2;
    // output = 5000 * 2 / 2000 = 5.
    let mut from = 2000i64;
    let mut to = 5000i64;
    let swapped = Dex::slop_swap(2, &mut from, &mut to, true);
    assert_eq!(swapped, 5);
    assert_eq!(from, 2002);
    assert_eq!(to, 4995);
}

#[test]
fn test_token_amount_identity() {
    // Equality is the token id alone.
    let a = TokenAmount { token_id: 7, amount: 100 };
    let b = TokenAmount { token_id: 7, amount: -3 };
    let c = TokenAmount { token_id: 8, amount: 100 };
    assert_eq!(a, b);
    assert_ne!(a, c);
}

#[test]
fn test_token_amount_saturating_ops() {
    let a = TokenAmount { token_id: 7, amount: i64::MAX - 1 };
    let b = TokenAmount { token_id: 7, amount: 5 };
    assert_eq!(a.add(b).amount, i64::MAX);
    let c = TokenAmount { token_id: 7, amount: i64::MIN + 1 };
    assert_eq!(c.sub(b).amount, i64::MIN);
    let d = TokenAmount { token_id: 7, amount: 10 };
    assert_eq!(d.add(b).amount, 15);
    assert_eq!(d.sub(b).amount, 5);
}
