//! The ordinary-transaction executor: runs the phase state machine
//! against a working copy of the account and produces the transaction
//! record.
//!
//! `run_transaction_spec` is the complete mathematical meaning of one
//! execution — which phases run, in what order, what each one charges,
//! what is committed and what the record says.  The executable
//! `execute` is proved to return exactly that, for every account,
//! message, configuration and interpreter outcome.

use vstd::prelude::*;

use crate::actions::{
    action_phase, action_phase_spec, bounce_phase, bounce_phase_spec, TrActionPhase, TrBouncePhase,
};
use crate::codec::{account_digest, account_digest_spec};
use crate::config::BlockchainConfig;
use crate::fees::{fwd_fee, fwd_fee_int};
use crate::lt::{next_lt, LtCounter};
use crate::phases::{
    compute_phase, compute_phase_spec, credit_phase, credit_phase_spec, min_u64, storage_phase,
    storage_phase_spec, AccStatusChange, ComputeSkipReason, TrComputePhase, TrCreditPhase,
    TrStoragePhase,
};
use crate::stack::{build_stack, msg_kind_flag, StackEntry};
use crate::types::{Account, AccountStatus, ExecutorError, Message, VmOutcome};

verus! {

/// Digest pair proving the account state transition.
#[derive(Clone, Copy, Debug, PartialEq, Eq, Structural)]
pub struct HashUpdate {
    pub old_hash: u64,
    pub new_hash: u64,
}

/// Phase-by-phase description of an ordinary transaction.
#[derive(Clone, Copy, Debug, PartialEq, Eq, Structural)]
pub struct TransactionDescrOrdinary {
    pub credit_first: bool,
    pub storage_ph: Option<TrStoragePhase>,
    pub credit_ph: Option<TrCreditPhase>,
    pub compute_ph: TrComputePhase,
    pub action: Option<TrActionPhase>,
    pub bounce: Option<TrBouncePhase>,
    pub aborted: bool,
    pub destroyed: bool,
}

/// Immutable record of one execution.
#[derive(Clone, Debug)]
pub struct Transaction {
    pub addr: u64,
    pub lt: u64,
    pub now: u32,
    pub in_msg: Message,
    pub out_msgs: Vec<Message>,
    pub total_fees: u64,
    pub end_status: AccountStatus,
    pub state_update: HashUpdate,
    pub description: TransactionDescrOrdinary,
}

/// Mathematical view of a transaction record.
pub struct TransactionModel {
    pub addr: u64,
    pub lt: u64,
    pub now: u32,
    pub in_msg: Message,
    pub out_msgs: Seq<Message>,
    pub total_fees: u64,
    pub end_status: AccountStatus,
    pub state_update: HashUpdate,
    pub description: TransactionDescrOrdinary,
}

pub open spec fn tr_model(t: Transaction) -> TransactionModel {
    TransactionModel {
        addr: t.addr,
        lt: t.lt,
        now: t.now,
        in_msg: t.in_msg,
        out_msgs: t.out_msgs@,
        total_fees: t.total_fees,
        end_status: t.end_status,
        state_update: t.state_update,
        description: t.description,
    }
}

/// An inbound message that can drive an ordinary transaction: internal
/// or externally injected, addressed to this account.
pub open spec fn valid_inbound(msg: Option<&Message>, a: Account) -> bool {
    match msg {
        Some(m) => (*m is Internal || *m is ExtInbound) && m.dst_spec() == a.addr,
        None => false,
    }
}

/// Due debt settled by a credit phase, if one ran.
pub open spec fn credit_due_part(c: Option<TrCreditPhase>) -> u64 {
    match c {
        Some(ph) => match ph.due_fees_collected {
            Some(d) => d,
            None => 0,
        },
        None => 0,
    }
}

/// Mine fees retained by a successful action phase.
pub open spec fn action_fees_part(a: Option<TrActionPhase>) -> u64 {
    match a {
        Some(ph) => match ph.total_action_fees {
            Some(f) => f,
            None => 0,
        },
        None => 0,
    }
}

/// Mine fee retained by a bounce phase that produced a message.
pub open spec fn bounce_fees_part(b: Option<TrBouncePhase>) -> u64 {
    match b {
        Some(TrBouncePhase::Bounced { msg_fees, .. }) => msg_fees,
        _ => 0,
    }
}

/// Runs the bounce stage where it applies: an aborted transaction
/// driven by an internal message with the bounce flag set.
pub open spec fn bounce_stage_spec(
    a: Account,
    msg: Message,
    credited: bool,
    cfg: BlockchainConfig,
    now: u32,
    lt: u64,
) -> Option<(Account, Option<TrBouncePhase>, Option<Message>)> {
    if msg is Internal && msg.bounce_enabled() {
        match bounce_phase_spec(a, msg, credited, cfg.fwd_prices, now, lt) {
            None => None,
            Some((a2, bp, bm)) => Some((a2, Some(bp), bm)),
        }
    } else {
        Some((a, None::<TrBouncePhase>, None::<Message>))
    }
}

/// Finalization: sums the fees, decides what is committed, and fills
/// the transaction record.  An aborted run driven by an external
/// message commits nothing — the account stays exactly as loaded; any
/// other run commits the worked account with its logical time
/// advanced.
pub open spec fn finish_spec(
    a0: Account,
    w: Account,
    msg: Message,
    lt: u64,
    now: u32,
    out_msgs: Seq<Message>,
    fees: int,
    descr: TransactionDescrOrdinary,
) -> Option<(Account, TransactionModel)> {
    if fees > u64::MAX {
        None
    } else {
        let external = !(msg is Internal);
        let committed = if descr.aborted && external {
            a0
        } else {
            Account { last_tr_lt: lt, ..w }
        };
        Some(
            (
                committed,
                TransactionModel {
                    addr: a0.addr,
                    lt,
                    now,
                    in_msg: msg,
                    out_msgs,
                    total_fees: fees as u64,
                    end_status: committed.status,
                    state_update: HashUpdate {
                        old_hash: account_digest_spec(a0),
                        new_hash: account_digest_spec(committed),
                    },
                    description: descr,
                },
            ),
        )
    }
}

/// Complete meaning of one ordinary-transaction execution at logical
/// time `lt`: storage charge, optional early credit, import fee for an
/// external message, compute, optional late credit, actions, bounce,
/// finalization.
pub open spec fn run_transaction_spec(
    a0: Account,
    msg: Message,
    vm: VmOutcome,
    cfg: BlockchainConfig,
    block_unixtime: u32,
    lt: u64,
    credit_first: bool,
) -> Option<(Account, TransactionModel)>
    recommends
        lt < u64::MAX,
{
    let external = !(msg is Internal);
    match storage_phase_spec(a0, cfg, block_unixtime) {
        None => None,
        Some((a1, sph)) => {
            if !(sph.status_change is Unchanged) {
                let descr = TransactionDescrOrdinary {
                    credit_first,
                    storage_ph: Some(sph),
                    credit_ph: None::<TrCreditPhase>,
                    compute_ph: TrComputePhase::Skipped { reason: ComputeSkipReason::NoGas },
                    action: None::<TrActionPhase>,
                    bounce: None::<TrBouncePhase>,
                    aborted: true,
                    destroyed: sph.status_change is Deleted,
                };
                finish_spec(
                    a0,
                    a1,
                    msg,
                    lt,
                    block_unixtime,
                    Seq::empty(),
                    sph.storage_fees_collected as int,
                    descr,
                )
            } else {
                let pre = if !external && credit_first {
                    credit_phase_spec(a1, msg.value_spec())
                } else {
                    Some((a1, TrCreditPhase { due_fees_collected: None::<u64>, credit: 0 }))
                };
                match pre {
                    None => None,
                    Some((a2, cr_pre)) => {
                        let credit_pre = if !external && credit_first {
                            Some(cr_pre)
                        } else {
                            None::<TrCreditPhase>
                        };
                        let import_full = if external {
                            fwd_fee_int(msg.stats_spec(), cfg.fwd_prices)
                        } else {
                            0
                        };
                        if import_full > u64::MAX {
                            None
                        } else {
                            let import_charged = min_u64(import_full as u64, a2.balance);
                            let a2b = Account {
                                balance: (a2.balance - import_charged) as u64,
                                ..a2
                            };
                            match compute_phase_spec(a2b, external, vm, cfg) {
                                None => None,
                                Some((a3, cph)) => {
                                    if !cph.is_success() {
                                        let credited = !external && credit_first;
                                        match bounce_stage_spec(
                                            a3,
                                            msg,
                                            credited,
                                            cfg,
                                            block_unixtime,
                                            (lt + 1) as u64,
                                        ) {
                                            None => None,
                                            Some((a4, bounce_opt, bounce_msg)) => {
                                                let descr = TransactionDescrOrdinary {
                                                    credit_first,
                                                    storage_ph: Some(sph),
                                                    credit_ph: credit_pre,
                                                    compute_ph: cph,
                                                    action: None::<TrActionPhase>,
                                                    bounce: bounce_opt,
                                                    aborted: true,
                                                    destroyed: false,
                                                };
                                                let out = match bounce_msg {
                                                    Some(bm) => seq![bm],
                                                    None => Seq::empty(),
                                                };
                                                finish_spec(
                                                    a0,
                                                    a4,
                                                    msg,
                                                    lt,
                                                    block_unixtime,
                                                    out,
                                                    sph.storage_fees_collected + credit_due_part(
                                                        credit_pre,
                                                    ) + import_charged + cph.gas_fees_spec()
                                                        + bounce_fees_part(bounce_opt),
                                                    descr,
                                                )
                                            },
                                        }
                                    } else {
                                        let post = if !external && !credit_first {
                                            credit_phase_spec(a3, msg.value_spec())
                                        } else {
                                            Some(
                                                (
                                                    a3,
                                                    TrCreditPhase {
                                                        due_fees_collected: None::<u64>,
                                                        credit: 0,
                                                    },
                                                ),
                                            )
                                        };
                                        match post {
                                            None => None,
                                            Some((a4, cr_post)) => {
                                                let credit_opt = if external {
                                                    None::<TrCreditPhase>
                                                } else if credit_first {
                                                    Some(cr_pre)
                                                } else {
                                                    Some(cr_post)
                                                };
                                                match action_phase_spec(
                                                    a4,
                                                    vm.actions@,
                                                    cfg,
                                                    block_unixtime,
                                                ) {
                                                    None => None,
                                                    Some((a5, aph, msgs)) => {
                                                        if aph.success {
                                                            let descr = TransactionDescrOrdinary {
                                                                credit_first,
                                                                storage_ph: Some(sph),
                                                                credit_ph: credit_opt,
                                                                compute_ph: cph,
                                                                action: Some(aph),
                                                                bounce: None::<TrBouncePhase>,
                                                                aborted: false,
                                                                destroyed: false,
                                                            };
                                                            finish_spec(
                                                                a0,
                                                                a5,
                                                                msg,
                                                                lt,
                                                                block_unixtime,
                                                                msgs,
                                                                sph.storage_fees_collected
                                                                    + credit_due_part(credit_opt)
                                                                    + import_charged
                                                                    + cph.gas_fees_spec()
                                                                    + action_fees_part(Some(aph)),
                                                                descr,
                                                            )
                                                        } else {
                                                            match bounce_stage_spec(
                                                                a5,
                                                                msg,
                                                                !external,
                                                                cfg,
                                                                block_unixtime,
                                                                (lt + 1) as u64,
                                                            ) {
                                                                None => None,
                                                                Some(
                                                                    (a6, bounce_opt, bounce_msg),
                                                                ) => {
                                                                    let descr =
                                                                        TransactionDescrOrdinary {
                                                                        credit_first,
                                                                        storage_ph: Some(sph),
                                                                        credit_ph: credit_opt,
                                                                        compute_ph: cph,
                                                                        action: Some(aph),
                                                                        bounce: bounce_opt,
                                                                        aborted: true,
                                                                        destroyed: false,
                                                                    };
                                                                    let out = match bounce_msg {
                                                                        Some(bm) => seq![bm],
                                                                        None => Seq::empty(),
                                                                    };
                                                                    finish_spec(
                                                                        a0,
                                                                        a6,
                                                                        msg,
                                                                        lt,
                                                                        block_unixtime,
                                                                        out,
                                                                        sph.storage_fees_collected
                                                                            + credit_due_part(
                                                                            credit_opt,
                                                                        ) + import_charged
                                                                            + cph.gas_fees_spec()
                                                                            + bounce_fees_part(
                                                                            bounce_opt,
                                                                        ),
                                                                        descr,
                                                                    )
                                                                },
                                                            }
                                                        }
                                                    },
                                                }
                                            },
                                        }
                                    }
                                },
                            }
                        }
                    },
                }
            }
        },
    }
}

/// Commits the outcome and fills the transaction record; the last step
/// of every execution path.
fn finalize(
    acc: &mut Account,
    a0: Account,
    w: Account,
    msg: &Message,
    lt: u64,
    now: u32,
    out_msgs: Vec<Message>,
    fees: u64,
    descr: TransactionDescrOrdinary,
) -> (r: Transaction)
    ensures
        finish_spec(a0, w, *msg, lt, now, out_msgs@, fees as int, descr) == Some(
            (*final(acc), tr_model(r)),
        ),
{
    let committed = if descr.aborted && !matches!(msg, Message::Internal { .. }) {
        a0
    } else {
        Account { last_tr_lt: lt, ..w }
    };
    let old_hash = account_digest(&a0);
    let new_hash = account_digest(&committed);
    *acc = committed;
    Transaction {
        addr: a0.addr,
        lt,
        now,
        in_msg: *msg,
        out_msgs,
        total_fees: fees,
        end_status: committed.status,
        state_update: HashUpdate { old_hash, new_hash },
        description: descr,
    }
}

/// The transaction executor for ordinary (message-driven)
/// transactions, carrying the blockchain configuration it charges by.
pub struct OrdinaryTransactionExecutor {
    pub config: BlockchainConfig,
}

impl OrdinaryTransactionExecutor {
    pub fn new(config: BlockchainConfig) -> (r: Self)
        ensures
            r.config == config,
    {
        OrdinaryTransactionExecutor { config }
    }

    /// Builds the initial interpreter stack for this account and
    /// inbound message (see `stack::build_stack`).
    pub fn build_stack(&self, msg: Option<&Message>, acc: &Account) -> (r: Vec<StackEntry>)
        requires
            msg matches Some(m) ==> !(*m is ExtOutbound),
        ensures
            match msg {
                Some(m) => r@ =~= seq![
                    StackEntry::Int(acc.balance as i128),
                    StackEntry::Int(m.value_spec() as i128),
                    StackEntry::Cell(*m),
                    StackEntry::Slice(m.body_spec()),
                    StackEntry::Int(msg_kind_flag(*m)),
                ],
                None => r@ =~= Seq::<StackEntry>::empty(),
            },
    {
        build_stack(msg, acc)
    }

    /// Executes one ordinary transaction: deserializes nothing and
    /// trusts nothing — it takes the account value, the inbound
    /// message, the block context and the interpreter's reported
    /// outcome, runs the phases, commits the new account state in
    /// place and returns the transaction record.
    ///
    /// A message that cannot drive an ordinary transaction is refused
    /// as malformed; fee arithmetic leaving the machine range is an
    /// internal invariant violation.  Either way the account is left
    /// untouched.  Every other outcome — out of gas, bad code, a send
    /// the balance cannot cover — is a valid (possibly aborted)
    /// transaction.
    #[verifier::rlimit(100)]
    pub fn execute(
        &self,
        in_msg: Option<&Message>,
        acc: &mut Account,
        block_unixtime: u32,
        block_lt: u64,
        lt_counter: &mut LtCounter,
        credit_first: bool,
        vm: &VmOutcome,
    ) -> (r: Result<Transaction, ExecutorError>)
        requires
            self.config.wf(),
            old(lt_counter).next <= u64::MAX - 1,
            block_lt <= u64::MAX - 2,
        ensures
            r is Err ==> *final(acc) == *old(acc),
            r matches Err(e) ==> e == ExecutorError::MalformedInput || e
                == ExecutorError::InternalInvariantViolation,
            (r == Err::<Transaction, ExecutorError>(ExecutorError::MalformedInput)) <==> !valid_inbound(
                in_msg,
                *old(acc),
            ),
            r == Err::<Transaction, ExecutorError>(ExecutorError::MalformedInput) ==> *final(lt_counter) == *old(lt_counter),
            r == Err::<Transaction, ExecutorError>(ExecutorError::InternalInvariantViolation)
                ==> final(lt_counter).next == next_lt(old(lt_counter).next, block_lt) + 1
                && run_transaction_spec(
                *old(acc),
                *(in_msg->Some_0),
                *vm,
                self.config,
                block_unixtime,
                next_lt(old(lt_counter).next, block_lt),
                credit_first,
            ) is None,
            r matches Ok(tr) ==> tr.lt == next_lt(old(lt_counter).next, block_lt)
                && final(lt_counter).next == tr.lt + 1 && run_transaction_spec(
                *old(acc),
                *(in_msg->Some_0),
                *vm,
                self.config,
                block_unixtime,
                tr.lt,
                credit_first,
            ) == Some((*final(acc), tr_model(tr))),
    {
        let msg: &Message = match in_msg {
            Some(m) => m,
            None => {
                return Err(ExecutorError::MalformedInput);
            },
        };
        let valid: bool = match msg {
            Message::Internal { dst, .. } => *dst == acc.addr,
            Message::ExtInbound { dst, .. } => *dst == acc.addr,
            Message::ExtOutbound { .. } => false,
        };
        if !valid {
            return Err(ExecutorError::MalformedInput);
        }
        let external: bool = !matches!(msg, Message::Internal { .. });
        let lt = lt_counter.take_next(block_lt);
        let a0: Account = *acc;
        let mut w: Account = *acc;

        let sph = match storage_phase(&mut w, &self.config, block_unixtime) {
            Ok(p) => p,
            Err(e) => {
                return Err(e);
            },
        };
        if !matches!(sph.status_change, AccStatusChange::Unchanged) {
            let descr = TransactionDescrOrdinary {
                credit_first,
                storage_ph: Some(sph),
                credit_ph: None,
                compute_ph: TrComputePhase::Skipped { reason: ComputeSkipReason::NoGas },
                action: None,
                bounce: None,
                aborted: true,
                destroyed: matches!(sph.status_change, AccStatusChange::Deleted),
            };
            let out: Vec<Message> = Vec::new();
            let tr = finalize(
                acc,
                a0,
                w,
                msg,
                lt,
                block_unixtime,
                out,
                sph.storage_fees_collected,
                descr,
            );
            return Ok(tr);
        }
        let mut credit_pre: Option<TrCreditPhase> = None;
        if !external && credit_first {
            match credit_phase(&mut w, msg.value()) {
                Ok(c) => {
                    credit_pre = Some(c);
                },
                Err(e) => {
                    return Err(e);
                },
            }
        }
        let mut import_charged: u64 = 0;
        if external {
            let f = match fwd_fee(&msg.stats(), &self.config.fwd_prices) {
                Ok(f) => f,
                Err(e) => {
                    return Err(e);
                },
            };
            import_charged = if f < w.balance {
                f
            } else {
                w.balance
            };
            w.balance = w.balance - import_charged;
        }
        let cph = match compute_phase(&mut w, external, vm, &self.config) {
            Ok(c) => c,
            Err(e) => {
                return Err(e);
            },
        };
        let compute_ok: bool = match cph {
            TrComputePhase::Vm(v) => v.success,
            TrComputePhase::Skipped { .. } => false,
        };
        let gas_fees: u64 = match cph {
            TrComputePhase::Vm(v) => v.gas_fees,
            TrComputePhase::Skipped { .. } => 0,
        };
        let due_pre: u64 = match credit_pre {
            Some(c) => match c.due_fees_collected {
                Some(d) => d,
                None => 0,
            },
            None => 0,
        };
        if !compute_ok {
            let credited = !external && credit_first;
            let mut bounce_opt: Option<TrBouncePhase> = None;
            let mut out: Vec<Message> = Vec::new();
            if matches!(msg, Message::Internal { .. }) && msg.bounce() {
                match bounce_phase(&mut w, msg, credited, &self.config, block_unixtime, lt + 1) {
                    Ok((bp, bm)) => {
                        bounce_opt = Some(bp);
                        if let Some(m) = bm {
                            out.push(m);
                        }
                    },
                    Err(e) => {
                        return Err(e);
                    },
                }
            }
            let bounce_fee: u64 = match bounce_opt {
                Some(TrBouncePhase::Bounced { msg_fees, .. }) => msg_fees,
                _ => 0,
            };
            let fees = match checked_fees(
                sph.storage_fees_collected,
                due_pre,
                import_charged,
                gas_fees,
                bounce_fee,
            ) {
                Some(f) => f,
                None => {
                    return Err(ExecutorError::InternalInvariantViolation);
                },
            };
            let descr = TransactionDescrOrdinary {
                credit_first,
                storage_ph: Some(sph),
                credit_ph: credit_pre,
                compute_ph: cph,
                action: None,
                bounce: bounce_opt,
                aborted: true,
                destroyed: false,
            };
            let tr = finalize(acc, a0, w, msg, lt, block_unixtime, out, fees, descr);
            return Ok(tr);
        }
        let mut credit_opt: Option<TrCreditPhase> = credit_pre;
        if !external && !credit_first {
            match credit_phase(&mut w, msg.value()) {
                Ok(c) => {
                    credit_opt = Some(c);
                },
                Err(e) => {
                    return Err(e);
                },
            }
        }
        let due_any: u64 = match credit_opt {
            Some(c) => match c.due_fees_collected {
                Some(d) => d,
                None => 0,
            },
            None => 0,
        };
        let (aph, msgs) = match action_phase(&mut w, &vm.actions, &self.config, block_unixtime) {
            Ok(p) => p,
            Err(e) => {
                return Err(e);
            },
        };
        if aph.success {
            let action_fees: u64 = match aph.total_action_fees {
                Some(f) => f,
                None => 0,
            };
            let fees = match checked_fees(
                sph.storage_fees_collected,
                due_any,
                import_charged,
                gas_fees,
                action_fees,
            ) {
                Some(f) => f,
                None => {
                    return Err(ExecutorError::InternalInvariantViolation);
                },
            };
            let descr = TransactionDescrOrdinary {
                credit_first,
                storage_ph: Some(sph),
                credit_ph: credit_opt,
                compute_ph: cph,
                action: Some(aph),
                bounce: None,
                aborted: false,
                destroyed: false,
            };
            let tr = finalize(acc, a0, w, msg, lt, block_unixtime, msgs, fees, descr);
            Ok(tr)
        } else {
            let mut bounce_opt: Option<TrBouncePhase> = None;
            let mut out: Vec<Message> = Vec::new();
            if matches!(msg, Message::Internal { .. }) && msg.bounce() {
                match bounce_phase(&mut w, msg, !external, &self.config, block_unixtime, lt + 1) {
                    Ok((bp, bm)) => {
                        bounce_opt = Some(bp);
                        if let Some(m) = bm {
                            out.push(m);
                        }
                    },
                    Err(e) => {
                        return Err(e);
                    },
                }
            }
            let bounce_fee: u64 = match bounce_opt {
                Some(TrBouncePhase::Bounced { msg_fees, .. }) => msg_fees,
                _ => 0,
            };
            let fees = match checked_fees(
                sph.storage_fees_collected,
                due_any,
                import_charged,
                gas_fees,
                bounce_fee,
            ) {
                Some(f) => f,
                None => {
                    return Err(ExecutorError::InternalInvariantViolation);
                },
            };
            let descr = TransactionDescrOrdinary {
                credit_first,
                storage_ph: Some(sph),
                credit_ph: credit_opt,
                compute_ph: cph,
                action: Some(aph),
                bounce: bounce_opt,
                aborted: true,
                destroyed: false,
            };
            let tr = finalize(acc, a0, w, msg, lt, block_unixtime, out, fees, descr);
            Ok(tr)
        }
    }
}

/// Sums the five fee components, reporting `None` exactly when the
/// mathematical sum leaves the fee range.
fn checked_fees(a: u64, b: u64, c: u64, d: u64, e: u64) -> (r: Option<u64>)
    ensures
        match r {
            Some(f) => f == a + b + c + d + e,
            None => a + b + c + d + e > u64::MAX,
        },
{
    let s1 = match a.checked_add(b) {
        Some(v) => v,
        None => {
            return None;
        },
    };
    let s2 = match s1.checked_add(c) {
        Some(v) => v,
        None => {
            return None;
        },
    };
    let s3 = match s2.checked_add(d) {
        Some(v) => v,
        None => {
            return None;
        },
    };
    s3.checked_add(e)
}

} // verus!
