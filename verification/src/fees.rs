//! Fee calculator: storage rent, message forwarding fees and gas fees.
//!
//! Every fee is exact integer arithmetic over fixed-point prices with a
//! 16-bit fractional part.  Overflow is never wrapped or saturated
//! silently: a computation that leaves the machine range is reported as
//! an internal invariant violation, since a node that wrapped would
//! diverge from one that did not.

use vstd::prelude::*;

use crate::config::{GasPrices, MsgForwardPrices, StoragePrices};
use crate::types::{ExecutorError, MsgStats, StorageStat};

verus! {

/// Rounded-up removal of the 16-bit fractional part of a fixed-point
/// amount.
pub open spec fn ceil16(x: int) -> int
    recommends
        x >= 0,
{
    x / 0x10000 + if x % 0x10000 == 0 {
        0int
    } else {
        1int
    }
}

/// Accumulated storage payment before rounding: price per second of the
/// stored bits and cells, times the elapsed seconds.
pub open spec fn storage_payment_int(bits: int, cells: int, p: StoragePrices, delta: int) -> int {
    (bits * p.bit_price_ps + cells * p.cell_price_ps) * delta
}

/// Storage fee owed for `delta` elapsed seconds.
pub open spec fn storage_fee_int(bits: int, cells: int, p: StoragePrices, delta: int) -> int {
    ceil16(storage_payment_int(bits, cells, p, delta))
}

/// Total forwarding fee of a message of the given serialized size.
pub open spec fn fwd_fee_int(stats: MsgStats, p: MsgForwardPrices) -> int {
    p.lump_price + ceil16(stats.bits * p.bit_price + stats.cells * p.cell_price)
}

/// The share of a forwarding fee retained by the validator.
pub open spec fn mine_fee_int(total: int, p: MsgForwardPrices) -> int {
    total * p.first_frac / 0x10000
}

/// The share of a forwarding fee that travels with the message.
pub open spec fn remaining_fee_int(total: int, p: MsgForwardPrices) -> int {
    total - mine_fee_int(total, p)
}

/// Gas fee: executions within the flat allowance pay the flat price,
/// anything longer pays per unit at the fixed-point gas price.
pub open spec fn gas_fee_int(used: int, p: GasPrices) -> int {
    if used <= p.flat_gas_limit {
        p.flat_gas_price as int
    } else {
        ceil16(used * p.gas_price)
    }
}

proof fn lemma_mul_u64_fits_u128(a: u64, b: u64)
    ensures
        0 <= (a as int) * (b as int) <= u128::MAX,
{
    assert((a as int) * (b as int) <= 0xffffffffffffffff * 0xffffffffffffffff)
        by (nonlinear_arith)
        requires
            a <= 0xffffffffffffffffu64,
            b <= 0xffffffffffffffffu64,
    ;
    assert((a as int) * (b as int) >= 0) by (nonlinear_arith)
        requires
            a >= 0,
            b >= 0,
    ;
}

proof fn lemma_mul_at_least_one_factor(v: int, m: int)
    requires
        v >= 0,
        m >= 1,
    ensures
        v * m >= v,
{
    assert(v * m >= v) by (nonlinear_arith)
        requires
            v >= 0,
            m >= 1,
    ;
}

proof fn lemma_ceil16_exceeds(p: int, m: int)
    requires
        p > 0x10000 * m,
        m >= 0,
    ensures
        ceil16(p) > m,
{
    if p % 0x10000 == 0 {
        assert(p / 0x10000 > m) by (nonlinear_arith)
            requires
                p > 0x10000 * m,
                m >= 0,
                p % 0x10000 == 0,
        ;
    } else {
        assert(p / 0x10000 >= m) by (nonlinear_arith)
            requires
                p > 0x10000 * m,
                m >= 0,
        ;
    }
}

/// Divides out the 16-bit fractional part of `payment`, rounding up, and
/// reports the result if it fits the fee range.
fn ceil16_to_grams(payment: u128) -> (r: Result<u64, ExecutorError>)
    ensures
        match r {
            Ok(f) => f == ceil16(payment as int) && ceil16(payment as int) <= u64::MAX,
            Err(e) => ceil16(payment as int) > u64::MAX && e
                == ExecutorError::InternalInvariantViolation,
        },
{
    let q: u128 = payment / 0x10000;
    let rem: u128 = payment % 0x10000;
    let fee: u128 = if rem == 0 {
        q
    } else {
        q + 1
    };
    if fee > u64::MAX as u128 {
        Err(ExecutorError::InternalInvariantViolation)
    } else {
        Ok(fee as u64)
    }
}

/// Storage fee owed by an account with the given storage statistics for
/// `delta` elapsed seconds, at the given price table.
pub fn storage_fee(stat: &StorageStat, prices: &StoragePrices, delta: u32) -> (r: Result<
    u64,
    ExecutorError,
>)
    ensures
        match r {
            Ok(f) => f == storage_fee_int(
                stat.used_bits as int,
                stat.used_cells as int,
                *prices,
                delta as int,
            ) && storage_fee_int(
                stat.used_bits as int,
                stat.used_cells as int,
                *prices,
                delta as int,
            ) <= u64::MAX,
            Err(e) => storage_fee_int(
                stat.used_bits as int,
                stat.used_cells as int,
                *prices,
                delta as int,
            ) > u64::MAX && e == ExecutorError::InternalInvariantViolation,
        },
{
    if delta == 0 {
        assert(storage_payment_int(stat.used_bits as int, stat.used_cells as int, *prices, 0)
            == 0) by (nonlinear_arith);
        return Ok(0);
    }
    proof {
        lemma_mul_u64_fits_u128(stat.used_bits, prices.bit_price_ps);
        lemma_mul_u64_fits_u128(stat.used_cells, prices.cell_price_ps);
    }
    let bit_part: u128 = (stat.used_bits as u128) * (prices.bit_price_ps as u128);
    let cell_part: u128 = (stat.used_cells as u128) * (prices.cell_price_ps as u128);
    let ghost per_second: int = bit_part as int + cell_part as int;
    let ghost payment: int = storage_payment_int(
        stat.used_bits as int,
        stat.used_cells as int,
        *prices,
        delta as int,
    );
    proof {
        lemma_mul_at_least_one_factor(per_second, delta as int);
    }
    match bit_part.checked_add(cell_part) {
        None => {
            proof {
                lemma_ceil16_exceeds(payment, u64::MAX as int);
            }
            Err(ExecutorError::InternalInvariantViolation)
        },
        Some(sum) => match sum.checked_mul(delta as u128) {
            None => {
                proof {
                    lemma_ceil16_exceeds(payment, u64::MAX as int);
                }
                Err(ExecutorError::InternalInvariantViolation)
            },
            Some(p) => ceil16_to_grams(p),
        },
    }
}

/// Total forwarding fee for a message of serialized size `stats`.
pub fn fwd_fee(stats: &MsgStats, prices: &MsgForwardPrices) -> (r: Result<u64, ExecutorError>)
    ensures
        match r {
            Ok(f) => f == fwd_fee_int(*stats, *prices) && fwd_fee_int(*stats, *prices)
                <= u64::MAX,
            Err(e) => fwd_fee_int(*stats, *prices) > u64::MAX && e
                == ExecutorError::InternalInvariantViolation,
        },
{
    proof {
        lemma_mul_u64_fits_u128(stats.bits, prices.bit_price);
        lemma_mul_u64_fits_u128(stats.cells, prices.cell_price);
    }
    let bit_part: u128 = (stats.bits as u128) * (prices.bit_price as u128);
    let cell_part: u128 = (stats.cells as u128) * (prices.cell_price as u128);
    let ghost size_part: int = ceil16(bit_part as int + cell_part as int);
    match bit_part.checked_add(cell_part) {
        None => {
            proof {
                lemma_ceil16_exceeds(bit_part as int + cell_part as int, u64::MAX as int);
            }
            Err(ExecutorError::InternalInvariantViolation)
        },
        Some(sum) => match ceil16_to_grams(sum) {
            Err(e) => Err(e),
            Ok(size_fee) => match prices.lump_price.checked_add(size_fee) {
                None => Err(ExecutorError::InternalInvariantViolation),
                Some(f) => Ok(f),
            },
        },
    }
}

/// Splits a total forwarding fee into the retained ("mine") share and
/// the share that travels with the message.  The two shares always sum
/// back to the exact total.
pub fn fwd_fee_split(total: u64, prices: &MsgForwardPrices) -> (r: (u64, u64))
    requires
        prices.wf(),
    ensures
        r.0 == mine_fee_int(total as int, *prices),
        r.1 == remaining_fee_int(total as int, *prices),
        r.0 + r.1 == total,
        r.0 <= total,
{
    proof {
        lemma_mine_fee_bounds(total as int, *prices);
    }
    let scaled: u128 = (total as u128) * (prices.first_frac as u128);
    let mine: u64 = (scaled / 0x10000) as u64;
    (mine, total - mine)
}

/// The retained share never exceeds the total it is taken from.
pub proof fn lemma_mine_fee_bounds(total: int, p: MsgForwardPrices)
    requires
        p.wf(),
        0 <= total,
    ensures
        0 <= mine_fee_int(total, p) <= total,
        mine_fee_int(total, p) + remaining_fee_int(total, p) == total,
{
    assert(0 <= total * p.first_frac <= total * 0x10000) by (nonlinear_arith)
        requires
            0 <= total,
            0 <= p.first_frac <= 0x10000,
    ;
    assert(total * p.first_frac / 0x10000 <= total * 0x10000 / 0x10000) by (nonlinear_arith)
        requires
            total * p.first_frac <= total * 0x10000,
    ;
    assert(total * 0x10000 / 0x10000 == total) by (nonlinear_arith);
}

/// Fee for the gas one execution consumed.
pub fn gas_fee(used: u64, prices: &GasPrices) -> (r: Result<u64, ExecutorError>)
    ensures
        match r {
            Ok(f) => f == gas_fee_int(used as int, *prices) && gas_fee_int(used as int, *prices)
                <= u64::MAX,
            Err(e) => gas_fee_int(used as int, *prices) > u64::MAX && e
                == ExecutorError::InternalInvariantViolation,
        },
{
    if used <= prices.flat_gas_limit {
        Ok(prices.flat_gas_price)
    } else {
        proof {
            lemma_mul_u64_fits_u128(used, prices.gas_price);
        }
        let scaled: u128 = (used as u128) * (prices.gas_price as u128);
        ceil16_to_grams(scaled)
    }
}

} // verus!
