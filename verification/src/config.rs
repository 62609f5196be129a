//! Blockchain-wide configuration: gas, storage and message-forwarding
//! price tables.  The tables are immutable during a transaction; every
//! phase consults them through read-only references.

use vstd::prelude::*;

verus! {

/// Storage price table: what one stored bit and one stored cell cost per
/// second, expressed as fixed-point amounts with a 16-bit fractional part
/// (the accumulated payment is shifted right by 16 at the end).
#[derive(Clone, Copy, Debug, PartialEq, Eq, Structural)]
pub struct StoragePrices {
    pub bit_price_ps: u64,
    pub cell_price_ps: u64,
}

/// Gas price table.  `gas_price` is a fixed-point price per gas unit with
/// a 16-bit fractional part; executions using at most `flat_gas_limit`
/// units pay the flat `flat_gas_price` instead.  `gas_limit` bounds one
/// execution; `gas_credit` is the free allowance an external message gets
/// before the contract commits to paying.
#[derive(Clone, Copy, Debug, PartialEq, Eq, Structural)]
pub struct GasPrices {
    pub gas_price: u64,
    pub flat_gas_limit: u64,
    pub flat_gas_price: u64,
    pub gas_limit: u64,
    pub gas_credit: u64,
}

/// Message forwarding price table.  A forwarded message costs
/// `lump_price` plus fixed-point per-bit and per-cell components; the
/// `first_frac / 2^16` share of the total is retained by the validator
/// ("mine"), the rest travels with the message.
#[derive(Clone, Copy, Debug, PartialEq, Eq, Structural)]
pub struct MsgForwardPrices {
    pub lump_price: u64,
    pub bit_price: u64,
    pub cell_price: u64,
    pub first_frac: u32,
}

/// Immutable blockchain configuration consulted by every phase.
#[derive(Clone, Copy, Debug, PartialEq, Eq, Structural)]
pub struct BlockchainConfig {
    pub gas_prices: GasPrices,
    pub storage_prices: StoragePrices,
    pub fwd_prices: MsgForwardPrices,
    /// Storage debt above which the account is frozen by the storage
    /// phase.
    pub freeze_due_limit: u64,
    /// Storage debt above which the account is deleted outright.
    pub delete_due_limit: u64,
}

impl MsgForwardPrices {
    /// The mine share is a fraction with denominator 2^16; a numerator
    /// above the denominator would let the retained share exceed the fee.
    pub open spec fn wf(self) -> bool {
        self.first_frac <= 0x10000
    }
}

impl BlockchainConfig {
    pub open spec fn wf(self) -> bool {
        self.fwd_prices.wf() && self.freeze_due_limit <= self.delete_due_limit
    }

    /// Reference price tables: flat gas of 1_000_000 covering the first
    /// 100 units and 10_000 per unit beyond; a 10_000_000 lump
    /// forwarding price with a 21845/65536 mine share; per-second
    /// storage prices of 1000 per bit and 500_000 per cell; and the due
    /// thresholds above which an indebted account is frozen or deleted.
    pub fn with_defaults() -> (r: BlockchainConfig)
        ensures
            r.wf(),
            r.gas_prices.gas_price == 655360000,
            r.gas_prices.flat_gas_limit == 100,
            r.gas_prices.flat_gas_price == 1000000,
            r.gas_prices.gas_limit == 1000000,
            r.gas_prices.gas_credit == 10000,
            r.fwd_prices.lump_price == 10000000,
            r.fwd_prices.bit_price == 655360000,
            r.fwd_prices.cell_price == 65536000000,
            r.fwd_prices.first_frac == 21845,
            r.storage_prices.bit_price_ps == 1000,
            r.storage_prices.cell_price_ps == 500000,
            r.freeze_due_limit == 100000000,
            r.delete_due_limit == 1000000000,
    {
        BlockchainConfig {
            gas_prices: GasPrices {
                gas_price: 655360000,
                flat_gas_limit: 100,
                flat_gas_price: 1000000,
                gas_limit: 1000000,
                gas_credit: 10000,
            },
            storage_prices: StoragePrices { bit_price_ps: 1000, cell_price_ps: 500000 },
            fwd_prices: MsgForwardPrices {
                lump_price: 10000000,
                bit_price: 655360000,
                cell_price: 65536000000,
                first_frac: 21845,
            },
            freeze_due_limit: 100000000,
            delete_due_limit: 1000000000,
        }
    }
}

} // verus!
