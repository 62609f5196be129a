//! The phase records of a transaction description and the first three
//! phases of the state machine: storage charge, credit, and compute.
//!
//! Each phase has a specification function giving its full mathematical
//! meaning as a map from the incoming account (and inputs) to the
//! outgoing account and phase record, with `None` marking an arithmetic
//! overflow — an environmental failure the executor surfaces as an
//! error instead of a transaction.  The executable phase is proved to
//! return exactly what its specification says.

use vstd::prelude::*;

use crate::config::BlockchainConfig;
use crate::config::GasPrices;
use crate::fees::{gas_fee, gas_fee_int, storage_fee, storage_fee_int};
use crate::types::{Account, AccountStatus, ExecutorError, StorageStat, VmOutcome};

verus! {

/// Status change an account undergoes in a phase.
#[derive(Clone, Copy, Debug, PartialEq, Eq, Structural)]
pub enum AccStatusChange {
    Unchanged,
    Frozen,
    Deleted,
}

/// Record of the storage phase: what rent was collected, what remains
/// owed, and whether the account was frozen or deleted for its debt.
#[derive(Clone, Copy, Debug, PartialEq, Eq, Structural)]
pub struct TrStoragePhase {
    pub storage_fees_collected: u64,
    pub storage_fees_due: Option<u64>,
    pub status_change: AccStatusChange,
}

/// Record of the credit phase: the due debt settled out of the inbound
/// value and the amount actually credited to the balance.
#[derive(Clone, Copy, Debug, PartialEq, Eq, Structural)]
pub struct TrCreditPhase {
    pub due_fees_collected: Option<u64>,
    pub credit: u64,
}

/// Why the compute phase did not run the interpreter.
#[derive(Clone, Copy, Debug, PartialEq, Eq, Structural)]
pub enum ComputeSkipReason {
    NoState,
    BadState,
    NoGas,
}

/// Record of one interpreter run.
#[derive(Clone, Copy, Debug, PartialEq, Eq, Structural)]
pub struct TrComputePhaseVm {
    pub success: bool,
    pub exit_code: i32,
    pub gas_used: u64,
    pub gas_limit: u64,
    pub gas_credit: Option<u64>,
    pub gas_fees: u64,
    pub msg_state_used: bool,
    pub account_activated: bool,
}

/// Record of the compute phase.
#[derive(Clone, Copy, Debug, PartialEq, Eq, Structural)]
pub enum TrComputePhase {
    Skipped { reason: ComputeSkipReason },
    Vm(TrComputePhaseVm),
}

impl TrComputePhase {
    /// The interpreter ran and finished successfully.
    pub open spec fn is_success(self) -> bool {
        match self {
            TrComputePhase::Vm(vm) => vm.success,
            TrComputePhase::Skipped { .. } => false,
        }
    }

    /// Gas fee the phase actually charged.
    pub open spec fn gas_fees_spec(self) -> u64 {
        match self {
            TrComputePhase::Vm(vm) => vm.gas_fees,
            TrComputePhase::Skipped { .. } => 0,
        }
    }
}

pub open spec fn min_u64(a: u64, b: u64) -> u64 {
    if a < b {
        a
    } else {
        b
    }
}

/// Seconds of storage the account owes rent for at block time `now`.
pub open spec fn elapsed_seconds(stat: StorageStat, now: u32) -> u32 {
    if now > stat.last_paid {
        (now - stat.last_paid) as u32
    } else {
        0
    }
}

/// Full meaning of the storage phase.  The rent for the elapsed period
/// plus any earlier debt is charged; a balance that cannot cover it is
/// drained, the shortfall is recorded as due, and an account whose debt
/// passes the configured thresholds is frozen or deleted.
pub open spec fn storage_phase_spec(a: Account, cfg: BlockchainConfig, now: u32) -> Option<
    (Account, TrStoragePhase),
> {
    let delta = elapsed_seconds(a.stats, now);
    let fee = storage_fee_int(
        a.stats.used_bits as int,
        a.stats.used_cells as int,
        cfg.storage_prices,
        delta as int,
    );
    if fee > u64::MAX || fee + a.due_payment > u64::MAX {
        None
    } else {
        let total = (fee + a.due_payment) as u64;
        let paid_stats = StorageStat { last_paid: now, ..a.stats };
        if a.balance >= total {
            Some(
                (
                    Account {
                        balance: (a.balance - total) as u64,
                        due_payment: 0,
                        stats: paid_stats,
                        ..a
                    },
                    TrStoragePhase {
                        storage_fees_collected: total,
                        storage_fees_due: None,
                        status_change: AccStatusChange::Unchanged,
                    },
                ),
            )
        } else {
            let due = (total - a.balance) as u64;
            if due > cfg.delete_due_limit {
                Some(
                    (
                        Account {
                            balance: 0,
                            due_payment: due,
                            stats: paid_stats,
                            status: AccountStatus::NonExist,
                            code: None,
                            data: None,
                            ..a
                        },
                        TrStoragePhase {
                            storage_fees_collected: a.balance,
                            storage_fees_due: Some(due),
                            status_change: AccStatusChange::Deleted,
                        },
                    ),
                )
            } else if due > cfg.freeze_due_limit {
                Some(
                    (
                        Account {
                            balance: 0,
                            due_payment: due,
                            stats: paid_stats,
                            status: if a.status is Active {
                                AccountStatus::Frozen
                            } else {
                                a.status
                            },
                            ..a
                        },
                        TrStoragePhase {
                            storage_fees_collected: a.balance,
                            storage_fees_due: Some(due),
                            status_change: AccStatusChange::Frozen,
                        },
                    ),
                )
            } else {
                Some(
                    (
                        Account { balance: 0, due_payment: due, stats: paid_stats, ..a },
                        TrStoragePhase {
                            storage_fees_collected: a.balance,
                            storage_fees_due: Some(due),
                            status_change: AccStatusChange::Unchanged,
                        },
                    ),
                )
            }
        }
    }
}

/// Storage phase: charges rent for the time elapsed since the account
/// last paid, records any shortfall as due, and freezes or deletes an
/// account whose debt passes the configured thresholds.
pub fn storage_phase(acc: &mut Account, cfg: &BlockchainConfig, now: u32) -> (r: Result<
    TrStoragePhase,
    ExecutorError,
>)
    ensures
        match r {
            Ok(ph) => storage_phase_spec(*old(acc), *cfg, now) == Some((*final(acc), ph)),
            Err(e) => storage_phase_spec(*old(acc), *cfg, now) is None && *final(acc) == *old(acc)
                && e == ExecutorError::InternalInvariantViolation,
        },
{
    let delta: u32 = if now > acc.stats.last_paid {
        now - acc.stats.last_paid
    } else {
        0
    };
    let fee = match storage_fee(&acc.stats, &cfg.storage_prices, delta) {
        Ok(f) => f,
        Err(e) => {
            return Err(e);
        },
    };
    let total = match fee.checked_add(acc.due_payment) {
        Some(t) => t,
        None => {
            return Err(ExecutorError::InternalInvariantViolation);
        },
    };
    acc.stats.last_paid = now;
    if acc.balance >= total {
        acc.balance = acc.balance - total;
        acc.due_payment = 0;
        Ok(
            TrStoragePhase {
                storage_fees_collected: total,
                storage_fees_due: None,
                status_change: AccStatusChange::Unchanged,
            },
        )
    } else {
        let collected = acc.balance;
        let due = total - acc.balance;
        acc.balance = 0;
        acc.due_payment = due;
        if due > cfg.delete_due_limit {
            acc.status = AccountStatus::NonExist;
            acc.code = None;
            acc.data = None;
            Ok(
                TrStoragePhase {
                    storage_fees_collected: collected,
                    storage_fees_due: Some(due),
                    status_change: AccStatusChange::Deleted,
                },
            )
        } else if due > cfg.freeze_due_limit {
            if matches!(acc.status, AccountStatus::Active) {
                acc.status = AccountStatus::Frozen;
            }
            Ok(
                TrStoragePhase {
                    storage_fees_collected: collected,
                    storage_fees_due: Some(due),
                    status_change: AccStatusChange::Frozen,
                },
            )
        } else {
            Ok(
                TrStoragePhase {
                    storage_fees_collected: collected,
                    storage_fees_due: Some(due),
                    status_change: AccStatusChange::Unchanged,
                },
            )
        }
    }
}

/// Full meaning of the credit phase: the inbound value settles the
/// account's storage debt first, the rest is credited to the balance.
pub open spec fn credit_phase_spec(a: Account, value: u64) -> Option<(Account, TrCreditPhase)> {
    let due_collected = min_u64(a.due_payment, value);
    let credit = (value - due_collected) as u64;
    if a.balance + credit > u64::MAX {
        None
    } else {
        Some(
            (
                Account {
                    balance: (a.balance + credit) as u64,
                    due_payment: (a.due_payment - due_collected) as u64,
                    ..a
                },
                TrCreditPhase {
                    due_fees_collected: if due_collected > 0 {
                        Some(due_collected)
                    } else {
                        None
                    },
                    credit,
                },
            ),
        )
    }
}

/// Credit phase: adds the value an internal message carries to the
/// account balance, after settling any storage debt out of it.
pub fn credit_phase(acc: &mut Account, value: u64) -> (r: Result<TrCreditPhase, ExecutorError>)
    ensures
        match r {
            Ok(ph) => credit_phase_spec(*old(acc), value) == Some((*final(acc), ph)),
            Err(e) => credit_phase_spec(*old(acc), value) is None && *final(acc) == *old(acc) && e
                == ExecutorError::InternalInvariantViolation,
        },
{
    let due_collected = if acc.due_payment < value {
        acc.due_payment
    } else {
        value
    };
    let credit = value - due_collected;
    match acc.balance.checked_add(credit) {
        None => Err(ExecutorError::InternalInvariantViolation),
        Some(b) => {
            acc.balance = b;
            acc.due_payment = acc.due_payment - due_collected;
            Ok(
                TrCreditPhase {
                    due_fees_collected: if due_collected > 0 {
                        Some(due_collected)
                    } else {
                        None
                    },
                    credit,
                },
            )
        },
    }
}

/// How many gas units the balance can buy, bounded by the per-execution
/// gas limit.
pub open spec fn afford_gas(balance: u64, gp: GasPrices) -> u64 {
    let unit = gp.gas_price / 0x10000;
    if unit == 0 {
        gp.gas_limit
    } else {
        min_u64((balance / unit) as u64, gp.gas_limit)
    }
}

/// Gas allotment for one execution, fixed before the interpreter is
/// invoked: an external message has bought nothing yet and runs on
/// the configured free credit, an internal message runs on what the
/// balance affords, up to the per-execution limit.  The compute phase
/// prices the reported gas against exactly this allotment.
pub fn gas_allotment(acc: &Account, external: bool, cfg: &BlockchainConfig) -> (r: (u64, u64))
    ensures
        r.0 == (if external {
            0u64
        } else {
            afford_gas(acc.balance, cfg.gas_prices)
        }),
        r.1 == (if external {
            cfg.gas_prices.gas_credit
        } else {
            0u64
        }),
{
    let gp = &cfg.gas_prices;
    if external {
        (0, gp.gas_credit)
    } else {
        let unit = gp.gas_price / 0x10000;
        let afford = if unit == 0 {
            gp.gas_limit
        } else if acc.balance / unit < gp.gas_limit {
            acc.balance / unit
        } else {
            gp.gas_limit
        };
        (afford, 0)
    }
}

/// Full meaning of the compute phase.  The phase is skipped when the
/// account has no code or is not active.  An external message gets no
/// bought gas, only the configured free credit; if the contract never
/// accepted, nothing is charged and the run does not count as success.
/// Otherwise the reported gas (capped by what the run was allowed) is
/// priced and charged, and data committed by a successful run replaces
/// the persistent data.
pub open spec fn compute_phase_spec(
    a: Account,
    external: bool,
    vm: VmOutcome,
    cfg: BlockchainConfig,
) -> Option<(Account, TrComputePhase)> {
    if a.code is None {
        Some((a, TrComputePhase::Skipped { reason: ComputeSkipReason::NoState }))
    } else if !(a.status is Active) {
        Some((a, TrComputePhase::Skipped { reason: ComputeSkipReason::BadState }))
    } else {
        let gp = cfg.gas_prices;
        let limit = if external {
            0u64
        } else {
            afford_gas(a.balance, gp)
        };
        if external && !vm.accepted {
            Some(
                (
                    a,
                    TrComputePhase::Vm(
                        TrComputePhaseVm {
                            success: false,
                            exit_code: vm.exit_code,
                            gas_used: min_u64(vm.gas_used, gp.gas_credit),
                            gas_limit: 0,
                            gas_credit: Some(gp.gas_credit),
                            gas_fees: 0,
                            msg_state_used: false,
                            account_activated: false,
                        },
                    ),
                ),
            )
        } else {
            let cap = if external {
                gp.gas_limit
            } else {
                limit
            };
            let used = min_u64(vm.gas_used, cap);
            let fee = gas_fee_int(used as int, gp);
            if fee > u64::MAX {
                None
            } else {
                let charged = min_u64(fee as u64, a.balance);
                let new_data = if vm.success && vm.committed_data is Some {
                    vm.committed_data
                } else {
                    a.data
                };
                Some(
                    (
                        Account { balance: (a.balance - charged) as u64, data: new_data, ..a },
                        TrComputePhase::Vm(
                            TrComputePhaseVm {
                                success: vm.success,
                                exit_code: vm.exit_code,
                                gas_used: used,
                                gas_limit: limit,
                                gas_credit: if external {
                                    Some(gp.gas_credit)
                                } else {
                                    None
                                },
                                gas_fees: charged,
                                msg_state_used: false,
                                account_activated: false,
                            },
                        ),
                    ),
                )
            }
        }
    }
}

/// Compute phase: decides whether the interpreter run counts, prices
/// the gas it consumed and charges the fee.  The interpreter's report
/// is taken as an input, so the phase is verified for every outcome the
/// interpreter could produce.
pub fn compute_phase(
    acc: &mut Account,
    external: bool,
    vm: &VmOutcome,
    cfg: &BlockchainConfig,
) -> (r: Result<TrComputePhase, ExecutorError>)
    ensures
        match r {
            Ok(ph) => compute_phase_spec(*old(acc), external, *vm, *cfg) == Some(
                (*final(acc), ph),
            ),
            Err(e) => compute_phase_spec(*old(acc), external, *vm, *cfg) is None && *final(acc)
                == *old(acc) && e == ExecutorError::InternalInvariantViolation,
        },
{
    if acc.code.is_none() {
        return Ok(TrComputePhase::Skipped { reason: ComputeSkipReason::NoState });
    }
    if !matches!(acc.status, AccountStatus::Active) {
        return Ok(TrComputePhase::Skipped { reason: ComputeSkipReason::BadState });
    }
    let gp = &cfg.gas_prices;
    let unit = gp.gas_price / 0x10000;
    let afford = if unit == 0 {
        gp.gas_limit
    } else if acc.balance / unit < gp.gas_limit {
        acc.balance / unit
    } else {
        gp.gas_limit
    };
    let limit: u64 = if external {
        0
    } else {
        afford
    };
    if external && !vm.accepted {
        let used = if vm.gas_used < gp.gas_credit {
            vm.gas_used
        } else {
            gp.gas_credit
        };
        return Ok(
            TrComputePhase::Vm(
                TrComputePhaseVm {
                    success: false,
                    exit_code: vm.exit_code,
                    gas_used: used,
                    gas_limit: 0,
                    gas_credit: Some(gp.gas_credit),
                    gas_fees: 0,
                    msg_state_used: false,
                    account_activated: false,
                },
            ),
        );
    }
    let cap = if external {
        gp.gas_limit
    } else {
        limit
    };
    let used = if vm.gas_used < cap {
        vm.gas_used
    } else {
        cap
    };
    let fee = match gas_fee(used, gp) {
        Ok(f) => f,
        Err(e) => {
            return Err(e);
        },
    };
    let charged = if fee < acc.balance {
        fee
    } else {
        acc.balance
    };
    acc.balance = acc.balance - charged;
    if vm.success {
        if let Some(d) = vm.committed_data {
            acc.data = Some(d);
        }
    }
    Ok(
        TrComputePhase::Vm(
            TrComputePhaseVm {
                success: vm.success,
                exit_code: vm.exit_code,
                gas_used: used,
                gas_limit: limit,
                gas_credit: if external {
                    Some(gp.gas_credit)
                } else {
                    None
                },
                gas_fees: charged,
                msg_state_used: false,
                account_activated: false,
            },
        ),
    )
}

} // verus!
