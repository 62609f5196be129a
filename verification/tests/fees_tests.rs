use ordinary_executor::config::{BlockchainConfig, GasPrices, MsgForwardPrices, StoragePrices};
use ordinary_executor::fees::{fwd_fee, fwd_fee_split, gas_fee, storage_fee};
use ordinary_executor::types::{ExecutorError, MsgStats, StorageStat};

const ACCOUNT_UT: u32 = 1572169011;
const BLOCK_UT: u32 = 1576526553;

fn prices() -> BlockchainConfig {
    BlockchainConfig::with_defaults()
}

fn stat(bits: u64, cells: u64) -> StorageStat {
    StorageStat { used_bits: bits, used_cells: cells, last_paid: ACCOUNT_UT }
}

#[test]
fn storage_fee_reference_values() {
    let p = prices().storage_prices;
    let delta = BLOCK_UT - ACCOUNT_UT;
    assert_eq!(storage_fee(&stat(3289, 2), &p, delta), Ok(285179103));
    assert_eq!(storage_fee(&stat(3353, 2), &p, delta), Ok(289434515));
    assert_eq!(storage_fee(&stat(1079, 2), &p, delta), Ok(138234403));
    assert_eq!(storage_fee(&stat(187, 2), &p, delta), Ok(78924597));
    assert_eq!(storage_fee(&stat(155, 2), &p, delta), Ok(76796891));
}

#[test]
fn storage_fee_zero_time_is_free() {
    let p = prices().storage_prices;
    assert_eq!(storage_fee(&stat(3289, 2), &p, 0), Ok(0));
}

#[test]
fn storage_fee_rounds_fractions_up() {
    // one bit-second at price 1 is 1/65536 of a unit: still one unit
    let p = StoragePrices { bit_price_ps: 1, cell_price_ps: 0 };
    assert_eq!(storage_fee(&stat(1, 0), &p, 1), Ok(1));
    let exact = StoragePrices { bit_price_ps: 65536, cell_price_ps: 0 };
    assert_eq!(storage_fee(&stat(1, 0), &exact, 1), Ok(1));
    assert_eq!(storage_fee(&stat(3, 0), &exact, 5), Ok(15));
}

#[test]
fn storage_fee_overflow_is_reported() {
    let p = StoragePrices { bit_price_ps: u64::MAX, cell_price_ps: u64::MAX };
    let s = stat(u64::MAX, u64::MAX);
    assert_eq!(
        storage_fee(&s, &p, u32::MAX),
        Err(ExecutorError::InternalInvariantViolation)
    );
}

#[test]
fn fwd_fee_of_empty_message_is_the_lump_price() {
    let p = prices().fwd_prices;
    assert_eq!(fwd_fee(&MsgStats { bits: 0, cells: 0 }, &p), Ok(10000000));
}

#[test]
fn fwd_fee_counts_bits_and_cells() {
    let p = prices().fwd_prices;
    // bit price 655360000 per 2^16 = 10000 per bit; cell price
    // 65536000000 per 2^16 = 1000000 per cell
    assert_eq!(
        fwd_fee(&MsgStats { bits: 700, cells: 3 }, &p),
        Ok(10000000 + 700 * 10000 + 3 * 1000000)
    );
}

#[test]
fn fwd_fee_split_reference_value() {
    let p = prices().fwd_prices;
    let (mine, remaining) = fwd_fee_split(10000000, &p);
    assert_eq!(mine, 3333282);
    assert_eq!(remaining, 6666718);
    assert_eq!(mine + remaining, 10000000);
}

#[test]
fn fwd_fee_split_sums_back_for_any_total() {
    let p = prices().fwd_prices;
    for total in [0u64, 1, 2, 3, 65535, 65536, 999999937, u64::MAX] {
        let (mine, remaining) = fwd_fee_split(total, &p);
        assert_eq!(mine as u128 + remaining as u128, total as u128);
        assert_eq!(mine, ((total as u128 * 21845) >> 16) as u64);
    }
}

#[test]
fn fwd_fee_split_extreme_fractions() {
    let zero = MsgForwardPrices { lump_price: 0, bit_price: 0, cell_price: 0, first_frac: 0 };
    assert_eq!(fwd_fee_split(12345, &zero), (0, 12345));
    let all = MsgForwardPrices { lump_price: 0, bit_price: 0, cell_price: 0, first_frac: 65536 };
    assert_eq!(fwd_fee_split(12345, &all), (12345, 0));
}

#[test]
fn gas_fee_flat_and_linear() {
    let p = prices().gas_prices;
    assert_eq!(gas_fee(0, &p), Ok(1000000));
    assert_eq!(gas_fee(100, &p), Ok(1000000));
    assert_eq!(gas_fee(101, &p), Ok(1010000));
    assert_eq!(gas_fee(698, &p), Ok(6980000));
    assert_eq!(gas_fee(1307, &p), Ok(13070000));
    assert_eq!(gas_fee(1387, &p), Ok(13870000));
}

#[test]
fn gas_fee_overflow_is_reported() {
    let p = GasPrices {
        gas_price: u64::MAX,
        flat_gas_limit: 0,
        flat_gas_price: 0,
        gas_limit: u64::MAX,
        gas_credit: 0,
    };
    assert_eq!(
        gas_fee(u64::MAX, &p),
        Err(ExecutorError::InternalInvariantViolation)
    );
}
