//! Action phase and bounce phase.
//!
//! The action phase applies the send-message actions a successful
//! interpreter run emitted, in emission order.  Its meaning is a fold
//! of `action_step` over the action list: the executable loop is proved
//! to compute exactly that fold.  A send the balance cannot cover fails
//! the whole phase and rolls its mutations back; a successful
//! send-all-balance drains the account and makes every later send a
//! no-op.

use vstd::prelude::*;

use crate::codec::{digest_step, DIGEST_PRIME, DIGEST_SEED};
use crate::config::{BlockchainConfig, MsgForwardPrices};
use crate::fees::{fwd_fee, fwd_fee_int, fwd_fee_split, mine_fee_int};
use crate::phases::{min_u64, AccStatusChange};
use crate::types::{Account, ExecutorError, Message, MsgStats, OutAction};

verus! {

/// Accumulated serialized size of the messages a phase created.
#[derive(Clone, Copy, Debug, PartialEq, Eq, Structural)]
pub struct StorageUsedShort {
    pub bits: u64,
    pub cells: u64,
}

/// Record of the action phase.
#[derive(Clone, Copy, Debug, PartialEq, Eq, Structural)]
pub struct TrActionPhase {
    pub success: bool,
    pub valid: bool,
    pub status_change: AccStatusChange,
    pub result_code: i32,
    pub tot_actions: u64,
    pub msgs_created: u64,
    pub total_fwd_fees: Option<u64>,
    pub total_action_fees: Option<u64>,
    /// Digest of the canonical action list the interpreter committed.
    pub action_list_hash: u64,
    pub tot_msg_size: StorageUsedShort,
}

pub open spec fn bool_word(b: bool) -> u64 {
    if b {
        1u64
    } else {
        0u64
    }
}

/// One action folded into the canonical action-list digest, field by
/// field.
pub open spec fn action_digest_step(h: u64, act: OutAction) -> u64 {
    match act {
        OutAction::SendMsg {
            all_balance,
            fee_separately,
            dst,
            value,
            bounce,
            created_lt,
            stats,
            body,
        } => digest_step(
            digest_step(
                digest_step(
                    digest_step(
                        digest_step(
                            digest_step(
                                digest_step(
                                    digest_step(
                                        digest_step(h, bool_word(all_balance)),
                                        bool_word(fee_separately),
                                    ),
                                    dst,
                                ),
                                value,
                            ),
                            bool_word(bounce),
                        ),
                        created_lt,
                    ),
                    stats.bits,
                ),
                stats.cells,
            ),
            body,
        ),
    }
}

/// Rolling digest of the actions from position `i` on.
pub open spec fn action_digest_from(h: u64, acts: Seq<OutAction>, i: int) -> u64
    decreases acts.len() - i,
{
    if i >= acts.len() {
        h
    } else {
        action_digest_from(action_digest_step(h, acts[i]), acts, i + 1)
    }
}

/// Digest of the canonical action list.
pub open spec fn action_list_digest(acts: Seq<OutAction>) -> u64 {
    action_digest_from(DIGEST_SEED, acts, 0)
}

/// Computes the digest of the canonical action list, as the action
/// phase records it.
pub fn digest_action_list(actions: &Vec<OutAction>) -> (r: u64)
    ensures
        r == action_list_digest(actions@),
{
    let mut h: u64 = DIGEST_SEED;
    let mut i: usize = 0;
    while i < actions.len()
        invariant
            i <= actions.len(),
            action_list_digest(actions@) == action_digest_from(h, actions@, i as int),
        decreases actions.len() - i,
    {
        let ghost h0 = h;
        match actions[i] {
            OutAction::SendMsg {
                all_balance,
                fee_separately,
                dst,
                value,
                bounce,
                created_lt,
                stats,
                body,
            } => {
                h = h.wrapping_mul(DIGEST_PRIME).wrapping_add(if all_balance { 1 } else { 0 });
                h = h.wrapping_mul(DIGEST_PRIME).wrapping_add(if fee_separately { 1 } else { 0 });
                h = h.wrapping_mul(DIGEST_PRIME).wrapping_add(dst);
                h = h.wrapping_mul(DIGEST_PRIME).wrapping_add(value);
                h = h.wrapping_mul(DIGEST_PRIME).wrapping_add(if bounce { 1 } else { 0 });
                h = h.wrapping_mul(DIGEST_PRIME).wrapping_add(created_lt);
                h = h.wrapping_mul(DIGEST_PRIME).wrapping_add(stats.bits);
                h = h.wrapping_mul(DIGEST_PRIME).wrapping_add(stats.cells);
                h = h.wrapping_mul(DIGEST_PRIME).wrapping_add(body);
            },
        }
        proof {
            assert(h == action_digest_step(h0, actions@[i as int]));
        }
        i = i + 1;
    }
    h
}

/// Record of the bounce phase.
#[derive(Clone, Copy, Debug, PartialEq, Eq, Structural)]
pub enum TrBouncePhase {
    /// The arriving value could not even pay the bounce forwarding fee.
    NoFunds { req_fwd_fees: u64 },
    /// A bounce message was produced; `msg_fees` is the retained share,
    /// `fwd_fees` travels with the message.
    Bounced { msg_fees: u64, fwd_fees: u64 },
}

/// Result code recorded when a send exceeds the available balance.
pub const RESULT_CODE_NO_FUNDS: i32 = 37;

/// Working state of the action-phase fold.
pub struct ActState {
    /// A send could not be paid for; the phase fails as a whole.
    pub failed: bool,
    /// A send-all-balance succeeded; every later send is ignored.
    pub all_sent: bool,
    pub balance: u64,
    pub msgs_created: u64,
    pub fwd_total: u64,
    pub mine_total: u64,
    pub size_bits: u64,
    pub size_cells: u64,
    pub out_msgs: Seq<Message>,
}

pub open spec fn mk_state(
    failed: bool,
    all_sent: bool,
    balance: u64,
    msgs_created: u64,
    fwd_total: u64,
    mine_total: u64,
    size_bits: u64,
    size_cells: u64,
    out_msgs: Seq<Message>,
) -> ActState {
    ActState {
        failed,
        all_sent,
        balance,
        msgs_created,
        fwd_total,
        mine_total,
        size_bits,
        size_cells,
        out_msgs,
    }
}

pub open spec fn init_state(balance: u64) -> ActState {
    mk_state(false, false, balance, 0, 0, 0, 0, 0, Seq::empty())
}

/// Effect of one send action on the phase state.  `None` marks an
/// accumulator overflow, an environmental failure of the whole call.
pub open spec fn action_step(
    st: ActState,
    act: OutAction,
    fp: MsgForwardPrices,
    src: u64,
    now: u32,
) -> Option<ActState> {
    if st.failed {
        Some(st)
    } else {
        match act {
            OutAction::SendMsg {
                all_balance,
                fee_separately,
                dst,
                value,
                bounce,
                created_lt,
                stats,
                body,
            } => {
                if st.all_sent {
                    Some(st)
                } else {
                    let fwd = fwd_fee_int(stats, fp);
                    if fwd > u64::MAX {
                        None
                    } else {
                        let mine = mine_fee_int(fwd, fp);
                        let remain = fwd - mine;
                        let ok = if all_balance {
                            st.balance >= fwd
                        } else if fee_separately {
                            st.balance >= value + fwd
                        } else {
                            value >= fwd && st.balance >= value
                        };
                        if !ok {
                            Some(ActState { failed: true, ..st })
                        } else {
                            let charge = if all_balance {
                                st.balance as int
                            } else if fee_separately {
                                value + fwd
                            } else {
                                value as int
                            };
                            let sent_value = if all_balance {
                                st.balance - fwd
                            } else if fee_separately {
                                value as int
                            } else {
                                value - fwd
                            };
                            if st.msgs_created + 1 > u64::MAX || st.fwd_total + fwd > u64::MAX
                                || st.mine_total + mine > u64::MAX || st.size_bits + stats.bits
                                > u64::MAX || st.size_cells + stats.cells > u64::MAX {
                                None
                            } else {
                                let m = Message::Internal {
                                    src,
                                    dst,
                                    value: sent_value as u64,
                                    bounce,
                                    fwd_fee: remain as u64,
                                    created_lt,
                                    created_at: now,
                                    stats,
                                    body,
                                };
                                Some(
                                    mk_state(
                                        false,
                                        st.all_sent || all_balance,
                                        (st.balance - charge) as u64,
                                        (st.msgs_created + 1) as u64,
                                        (st.fwd_total + fwd) as u64,
                                        (st.mine_total + mine) as u64,
                                        (st.size_bits + stats.bits) as u64,
                                        (st.size_cells + stats.cells) as u64,
                                        st.out_msgs.push(m),
                                    ),
                                )
                            }
                        }
                    }
                }
            },
        }
    }
}

/// Fold of `action_step` over the actions from position `i` on.
pub open spec fn actions_from(
    st: ActState,
    acts: Seq<OutAction>,
    i: int,
    fp: MsgForwardPrices,
    src: u64,
    now: u32,
) -> Option<ActState>
    decreases acts.len() - i,
{
    if i >= acts.len() {
        Some(st)
    } else {
        match action_step(st, acts[i], fp, src, now) {
            None => None,
            Some(st2) => actions_from(st2, acts, i + 1, fp, src, now),
        }
    }
}

/// Full meaning of the action phase.  On a failed send the account is
/// left as it entered the phase, the record is marked invalid, and no
/// message goes out; the gas already charged by the compute phase
/// stays charged.
pub open spec fn action_phase_spec(
    a: Account,
    acts: Seq<OutAction>,
    cfg: BlockchainConfig,
    now: u32,
) -> Option<(Account, TrActionPhase, Seq<Message>)> {
    match actions_from(init_state(a.balance), acts, 0, cfg.fwd_prices, a.addr, now) {
        None => None,
        Some(st) => if st.failed {
            Some(
                (
                    a,
                    TrActionPhase {
                        success: false,
                        valid: false,
                        status_change: AccStatusChange::Unchanged,
                        result_code: RESULT_CODE_NO_FUNDS,
                        tot_actions: acts.len() as u64,
                        msgs_created: 0,
                        total_fwd_fees: None,
                        total_action_fees: None,
                        action_list_hash: action_list_digest(acts),
                        tot_msg_size: StorageUsedShort { bits: 0, cells: 0 },
                    },
                    Seq::empty(),
                ),
            )
        } else {
            Some(
                (
                    Account { balance: st.balance, ..a },
                    TrActionPhase {
                        success: true,
                        valid: true,
                        status_change: AccStatusChange::Unchanged,
                        result_code: 0,
                        tot_actions: acts.len() as u64,
                        msgs_created: st.msgs_created,
                        total_fwd_fees: if st.fwd_total > 0 {
                            Some(st.fwd_total)
                        } else {
                            None
                        },
                        total_action_fees: if st.mine_total > 0 {
                            Some(st.mine_total)
                        } else {
                            None
                        },
                        action_list_hash: action_list_digest(acts),
                        tot_msg_size: StorageUsedShort { bits: st.size_bits, cells: st.size_cells },
                    },
                    st.out_msgs,
                ),
            )
        },
    }
}

/// Action phase: applies the emitted send actions in order, charging
/// forwarding fees and queueing the outbound messages.  A send the
/// balance cannot cover fails the phase; the account then leaves the
/// phase exactly as it entered it.
pub fn action_phase(
    acc: &mut Account,
    actions: &Vec<OutAction>,
    cfg: &BlockchainConfig,
    now: u32,
) -> (r: Result<(TrActionPhase, Vec<Message>), ExecutorError>)
    requires
        cfg.wf(),
    ensures
        match r {
            Ok(out) => action_phase_spec(*old(acc), actions@, *cfg, now) == Some(
                (*final(acc), out.0, out.1@),
            ),
            Err(e) => action_phase_spec(*old(acc), actions@, *cfg, now) is None && *final(acc)
                == *old(acc) && e == ExecutorError::InternalInvariantViolation,
        },
{
    let ghost st0 = init_state(acc.balance);
    let list_hash = digest_action_list(actions);
    let mut failed: bool = false;
    let mut all_sent: bool = false;
    let mut bal: u64 = acc.balance;
    let mut msgs_created: u64 = 0;
    let mut fwd_total: u64 = 0;
    let mut mine_total: u64 = 0;
    let mut size_bits: u64 = 0;
    let mut size_cells: u64 = 0;
    let mut out: Vec<Message> = Vec::new();
    let mut i: usize = 0;
    while i < actions.len()
        invariant
            i <= actions.len(),
            cfg.fwd_prices.wf(),
            *acc == *old(acc),
            st0 == init_state(old(acc).balance),
            actions_from(st0, actions@, 0, cfg.fwd_prices, acc.addr, now) == actions_from(
                (mk_state(
                    failed,
                    all_sent,
                    bal,
                    msgs_created,
                    fwd_total,
                    mine_total,
                    size_bits,
                    size_cells,
                    out@,
                )),
                actions@,
                i as int,
                cfg.fwd_prices,
                acc.addr,
                now,
            ),
        decreases actions.len() - i,
    {
        let ghost st_i = mk_state(
            failed,
            all_sent,
            bal,
            msgs_created,
            fwd_total,
            mine_total,
            size_bits,
            size_cells,
            out@,
        );
        let act = actions[i];
        match act {
            OutAction::SendMsg {
                all_balance,
                fee_separately,
                dst,
                value,
                bounce,
                created_lt,
                stats,
                body,
            } => {
                if !failed && !all_sent {
                    let fwd = match fwd_fee(&stats, &cfg.fwd_prices) {
                        Ok(f) => f,
                        Err(e) => {
                            proof {
                                assert(action_step(st_i, actions@[i as int], cfg.fwd_prices,
                                    acc.addr, now) is None);
                                assert(actions_from(st_i, actions@, i as int, cfg.fwd_prices,
                                    acc.addr, now) is None);
                                assert(action_phase_spec(*old(acc), actions@, *cfg, now) is None);
                            }
                            return Err(ExecutorError::InternalInvariantViolation);
                        },
                    };
                    let (mine, remain) = fwd_fee_split(fwd, &cfg.fwd_prices);
                    let ok: bool = if all_balance {
                        bal >= fwd
                    } else if fee_separately {
                        match value.checked_add(fwd) {
                            Some(t) => bal >= t,
                            None => false,
                        }
                    } else {
                        value >= fwd && bal >= value
                    };
                    if !ok {
                        failed = true;
                    } else {
                        let charge: u64 = if all_balance {
                            bal
                        } else if fee_separately {
                            value + fwd
                        } else {
                            value
                        };
                        let sent_value: u64 = if all_balance {
                            bal - fwd
                        } else if fee_separately {
                            value
                        } else {
                            value - fwd
                        };
                        let new_created = msgs_created.checked_add(1);
                        let new_fwd_total = fwd_total.checked_add(fwd);
                        let new_mine_total = mine_total.checked_add(mine);
                        let new_size_bits = size_bits.checked_add(stats.bits);
                        let new_size_cells = size_cells.checked_add(stats.cells);
                        if new_created.is_none() || new_fwd_total.is_none()
                            || new_mine_total.is_none() || new_size_bits.is_none()
                            || new_size_cells.is_none() {
                            proof {
                                assert(action_step(st_i, actions@[i as int], cfg.fwd_prices,
                                    acc.addr, now) is None);
                                assert(actions_from(st_i, actions@, i as int, cfg.fwd_prices,
                                    acc.addr, now) is None);
                                assert(action_phase_spec(*old(acc), actions@, *cfg, now) is None);
                            }
                            return Err(ExecutorError::InternalInvariantViolation);
                        }
                        let m = Message::Internal {
                            src: acc.addr,
                            dst,
                            value: sent_value,
                            bounce,
                            fwd_fee: remain,
                            created_lt,
                            created_at: now,
                            stats,
                            body,
                        };
                        all_sent = all_sent || all_balance;
                        bal = bal - charge;
                        msgs_created = new_created.unwrap();
                        fwd_total = new_fwd_total.unwrap();
                        mine_total = new_mine_total.unwrap();
                        size_bits = new_size_bits.unwrap();
                        size_cells = new_size_cells.unwrap();
                        out.push(m);
                    }
                }
            },
        }
        proof {
            let st_next = mk_state(
                failed,
                all_sent,
                bal,
                msgs_created,
                fwd_total,
                mine_total,
                size_bits,
                size_cells,
                out@,
            );
            assert(action_step(st_i, actions@[i as int], cfg.fwd_prices, acc.addr, now) == Some(
                st_next,
            ));
        }
        i = i + 1;
    }
    if failed {
        let ph = TrActionPhase {
            success: false,
            valid: false,
            status_change: AccStatusChange::Unchanged,
            result_code: RESULT_CODE_NO_FUNDS,
            tot_actions: actions.len() as u64,
            msgs_created: 0,
            total_fwd_fees: None,
            total_action_fees: None,
            action_list_hash: list_hash,
            tot_msg_size: StorageUsedShort { bits: 0, cells: 0 },
        };
        let empty: Vec<Message> = Vec::new();
        Ok((ph, empty))
    } else {
        acc.balance = bal;
        let ph = TrActionPhase {
            success: true,
            valid: true,
            status_change: AccStatusChange::Unchanged,
            result_code: 0,
            tot_actions: actions.len() as u64,
            msgs_created,
            total_fwd_fees: if fwd_total > 0 {
                Some(fwd_total)
            } else {
                None
            },
            total_action_fees: if mine_total > 0 {
                Some(mine_total)
            } else {
                None
            },
            action_list_hash: list_hash,
            tot_msg_size: StorageUsedShort { bits: size_bits, cells: size_cells },
        };
        Ok((ph, out))
    }
}

/// A failed fold state never recovers: every remaining action leaves
/// it untouched, so the failure of one send fails the phase as a
/// whole.
pub proof fn lemma_failed_state_latches(
    st: ActState,
    acts: Seq<OutAction>,
    i: int,
    fp: MsgForwardPrices,
    src: u64,
    now: u32,
)
    requires
        st.failed,
    ensures
        actions_from(st, acts, i, fp, src, now) == Some(st),
    decreases acts.len() - i,
{
    if i < acts.len() {
        lemma_failed_state_latches(st, acts, i + 1, fp, src, now);
    }
}

/// Law: once a send-all-balance action has gone through, every send
/// queued after it in the same phase is ignored — the fold's state
/// never changes again.
pub proof fn law_sends_after_all_balance_ignored(
    st: ActState,
    acts: Seq<OutAction>,
    i: int,
    fp: MsgForwardPrices,
    src: u64,
    now: u32,
)
    requires
        !st.failed,
        st.all_sent,
    ensures
        actions_from(st, acts, i, fp, src, now) == Some(st),
    decreases acts.len() - i,
{
    if i < acts.len() {
        assert(action_step(st, acts[i], fp, src, now) == Some(st));
        law_sends_after_all_balance_ignored(st, acts, i + 1, fp, src, now);
    }
}

/// Whether an action is a send of the whole remaining balance.
pub open spec fn is_all_balance_send(a: OutAction) -> bool {
    match a {
        OutAction::SendMsg { all_balance, .. } => all_balance,
    }
}

proof fn lemma_all_balance_drains(
    st: ActState,
    acts: Seq<OutAction>,
    i: int,
    fp: MsgForwardPrices,
    src: u64,
    now: u32,
)
    requires
        actions_from(st, acts, i, fp, src, now) matches Some(st2) && !st2.failed,
        st.all_sent ==> st.balance == 0,
        exists|j: int| i <= j < acts.len() && #[trigger] is_all_balance_send(acts[j]),
    ensures
        actions_from(st, acts, i, fp, src, now)->Some_0.balance == 0,
        actions_from(st, acts, i, fp, src, now)->Some_0.all_sent,
    decreases acts.len() - i,
{
    let st2 = actions_from(st, acts, i, fp, src, now)->Some_0;
    if st.failed {
        lemma_failed_state_latches(st, acts, i, fp, src, now);
    } else if st.all_sent {
        law_sends_after_all_balance_ignored(st, acts, i, fp, src, now);
    } else {
        let j0 = choose|j: int| i <= j < acts.len() && #[trigger] is_all_balance_send(acts[j]);
        let st1 = action_step(st, acts[i], fp, src, now)->Some_0;
        if st1.failed {
            lemma_failed_state_latches(st1, acts, i + 1, fp, src, now);
        } else if st1.all_sent {
            law_sends_after_all_balance_ignored(st1, acts, i + 1, fp, src, now);
        } else {
            assert(!is_all_balance_send(acts[i]));
            assert(i + 1 <= j0 < acts.len() && is_all_balance_send(acts[j0]));
            lemma_all_balance_drains(st1, acts, i + 1, fp, src, now);
        }
    }
}

/// Law: a successful action phase that contains a send-all-balance
/// action, wherever it was queued, leaves the account balance exactly
/// zero.
pub proof fn law_send_all_balance_drains(
    a: Account,
    acts: Seq<OutAction>,
    cfg: BlockchainConfig,
    now: u32,
)
    requires
        cfg.wf(),
        action_phase_spec(a, acts, cfg, now) matches Some((a2, ph, msgs)) && ph.success,
        exists|j: int| 0 <= j < acts.len() && #[trigger] is_all_balance_send(acts[j]),
    ensures
        action_phase_spec(a, acts, cfg, now)->Some_0.0.balance == 0,
{
    lemma_all_balance_drains(init_state(a.balance), acts, 0, cfg.fwd_prices, a.addr, now);
}

/// Law: a successful action phase whose first action sends the whole
/// balance drains the account to exactly zero and produces exactly one
/// outbound message, whatever else was queued after it.
pub proof fn law_send_all_balance_first(
    a: Account,
    acts: Seq<OutAction>,
    cfg: BlockchainConfig,
    now: u32,
)
    requires
        cfg.wf(),
        acts.len() > 0,
        acts[0] matches OutAction::SendMsg { all_balance: true, .. },
        action_phase_spec(a, acts, cfg, now) matches Some((a2, ph, msgs)) && ph.success,
    ensures
        action_phase_spec(a, acts, cfg, now)->Some_0.0.balance == 0,
        action_phase_spec(a, acts, cfg, now)->Some_0.2.len() == 1,
{
    let st0 = init_state(a.balance);
    let step0 = action_step(st0, acts[0], cfg.fwd_prices, a.addr, now);
    if step0 is Some {
        let st1 = step0->Some_0;
        if st1.failed {
            lemma_failed_state_latches(st1, acts, 1, cfg.fwd_prices, a.addr, now);
        } else {
            law_sends_after_all_balance_ignored(st1, acts, 1, cfg.fwd_prices, a.addr, now);
        }
    }
}

/// Full meaning of the bounce phase.  The value the failed message
/// brought (capped by the balance when it was already credited) goes
/// back to the sender, minus the bounce forwarding fee; if it cannot
/// even pay that fee, no bounce message is produced.
pub open spec fn bounce_phase_spec(
    a: Account,
    msg: Message,
    credited: bool,
    fp: MsgForwardPrices,
    now: u32,
    lt: u64,
) -> Option<(Account, TrBouncePhase, Option<Message>)> {
    let value = msg.value_spec();
    let amount = if credited {
        min_u64(value, a.balance)
    } else {
        value
    };
    let zero_stats = MsgStats { bits: 0, cells: 0 };
    let fwd = fwd_fee_int(zero_stats, fp);
    if fwd > u64::MAX {
        None
    } else if amount < fwd {
        Some((a, TrBouncePhase::NoFunds { req_fwd_fees: fwd as u64 }, None::<Message>))
    } else {
        let mine = mine_fee_int(fwd, fp);
        let remain = fwd - mine;
        let a2 = if credited {
            Account { balance: (a.balance - amount) as u64, ..a }
        } else {
            a
        };
        let m = Message::Internal {
            src: a.addr,
            dst: msg.src_spec(),
            value: (amount - fwd) as u64,
            bounce: false,
            fwd_fee: remain as u64,
            created_lt: lt,
            created_at: now,
            stats: zero_stats,
            body: 0,
        };
        Some(
            (
                a2,
                TrBouncePhase::Bounced { msg_fees: mine as u64, fwd_fees: remain as u64 },
                Some(m),
            ),
        )
    }
}

/// Bounce phase: returns the value of a failed internal message to its
/// sender, minus the bounce forwarding fee.  `credited` says whether
/// the credit phase had already added the value to the balance, in
/// which case it is taken out again.
pub fn bounce_phase(
    acc: &mut Account,
    msg: &Message,
    credited: bool,
    cfg: &BlockchainConfig,
    now: u32,
    lt: u64,
) -> (r: Result<(TrBouncePhase, Option<Message>), ExecutorError>)
    requires
        cfg.wf(),
        msg.is_internal(),
    ensures
        match r {
            Ok(out) => bounce_phase_spec(*old(acc), *msg, credited, cfg.fwd_prices, now, lt)
                == Some((*final(acc), out.0, out.1)),
            Err(e) => bounce_phase_spec(*old(acc), *msg, credited, cfg.fwd_prices, now, lt)
                is None && *final(acc) == *old(acc) && e
                == ExecutorError::InternalInvariantViolation,
        },
{
    let value = msg.value();
    let amount = if credited {
        if value < acc.balance {
            value
        } else {
            acc.balance
        }
    } else {
        value
    };
    let zero_stats = MsgStats { bits: 0, cells: 0 };
    let fwd = match fwd_fee(&zero_stats, &cfg.fwd_prices) {
        Ok(f) => f,
        Err(e) => {
            return Err(e);
        },
    };
    if amount < fwd {
        return Ok((TrBouncePhase::NoFunds { req_fwd_fees: fwd }, None));
    }
    let (mine, remain) = fwd_fee_split(fwd, &cfg.fwd_prices);
    if credited {
        acc.balance = acc.balance - amount;
    }
    let m = Message::Internal {
        src: acc.addr,
        dst: msg.src(),
        value: amount - fwd,
        bounce: false,
        fwd_fee: remain,
        created_lt: lt,
        created_at: now,
        stats: zero_stats,
        body: 0,
    };
    Ok((TrBouncePhase::Bounced { msg_fees: mine, fwd_fees: remain }, Some(m)))
}

} // verus!
