//! Laws of the executor, stated over its specification and proved
//! once for every input: the total-fee equation, the state-update
//! digest pair, the phase-presence rules of the description, and
//! deterministic replay after a serialization round trip.

use vstd::prelude::*;

use crate::codec::{account_digest_spec, decode_account_spec, encode_account_spec, lemma_account_round_trip};
use crate::config::BlockchainConfig;
use crate::executor::{
    action_fees_part, bounce_fees_part, credit_due_part, run_transaction_spec,
};
use crate::fees::fwd_fee_int;
use crate::phases::storage_phase_spec;
use crate::types::{Account, Message, VmOutcome};

verus! {

/// Law: for every execution driven by an internal message, the total
/// fee of the transaction is exactly the storage fee collected, plus
/// the due debt settled by the credit phase, plus the gas fee, plus
/// the mine shares of the completed sends (the action phase's retained
/// fees and a bounce's retained fee).
pub proof fn law_total_fees_internal(
    a0: Account,
    msg: Message,
    vm: VmOutcome,
    cfg: BlockchainConfig,
    block_unixtime: u32,
    lt: u64,
    credit_first: bool,
)
    requires
        msg is Internal,
        run_transaction_spec(a0, msg, vm, cfg, block_unixtime, lt, credit_first) is Some,
    ensures
        ({
            let t = run_transaction_spec(
                a0,
                msg,
                vm,
                cfg,
                block_unixtime,
                lt,
                credit_first,
            )->Some_0.1;
            let d = t.description;
            &&& d.storage_ph is Some
            &&& t.total_fees as int == d.storage_ph->Some_0.storage_fees_collected
                + credit_due_part(d.credit_ph) + d.compute_ph.gas_fees_spec() + action_fees_part(
                d.action,
            ) + bounce_fees_part(d.bounce)
        }),
{
}

/// Law: for every execution driven by an external inbound message
/// whose storage phase could be paid, the total fee additionally
/// carries the message import fee — the forwarding fee of the inbound
/// message, capped by what the balance still held; no credit or bounce
/// phase exists on this path.
pub proof fn law_total_fees_external(
    a0: Account,
    msg: Message,
    vm: VmOutcome,
    cfg: BlockchainConfig,
    block_unixtime: u32,
    lt: u64,
    credit_first: bool,
)
    requires
        msg is ExtInbound,
        run_transaction_spec(a0, msg, vm, cfg, block_unixtime, lt, credit_first) is Some,
        storage_phase_spec(a0, cfg, block_unixtime) matches Some((a1, sph)) && sph.status_change
            is Unchanged,
    ensures
        ({
            let t = run_transaction_spec(
                a0,
                msg,
                vm,
                cfg,
                block_unixtime,
                lt,
                credit_first,
            )->Some_0.1;
            let d = t.description;
            let a1 = storage_phase_spec(a0, cfg, block_unixtime)->Some_0.0;
            let import_full = fwd_fee_int(msg.stats_spec(), cfg.fwd_prices);
            let import = if import_full < a1.balance {
                import_full
            } else {
                a1.balance as int
            };
            &&& d.storage_ph is Some
            &&& d.credit_ph is None
            &&& d.bounce is None
            &&& t.total_fees as int == d.storage_ph->Some_0.storage_fees_collected + import
                + d.compute_ph.gas_fees_spec() + action_fees_part(d.action)
        }),
{
}

/// Law: the transaction's state-update pair is the digest of the
/// account exactly as it was loaded and the digest of exactly what was
/// committed.
pub proof fn law_state_update_hashes(
    a0: Account,
    msg: Message,
    vm: VmOutcome,
    cfg: BlockchainConfig,
    block_unixtime: u32,
    lt: u64,
    credit_first: bool,
)
    requires
        run_transaction_spec(a0, msg, vm, cfg, block_unixtime, lt, credit_first) is Some,
    ensures
        ({
            let r = run_transaction_spec(
                a0,
                msg,
                vm,
                cfg,
                block_unixtime,
                lt,
                credit_first,
            )->Some_0;
            &&& r.1.state_update.old_hash == account_digest_spec(a0)
            &&& r.1.state_update.new_hash == account_digest_spec(r.0)
        }),
{
}

/// Law: the presence of each optional phase record follows the state
/// machine — the storage phase always runs; the action phase ran
/// exactly when the compute phase succeeded; a transaction is aborted
/// exactly when no successful action phase closed it; an externally
/// injected message never has a credit or bounce phase; and a bounce
/// record appears only on an aborted run of a bounceable internal
/// message.
pub proof fn law_phase_presence(
    a0: Account,
    msg: Message,
    vm: VmOutcome,
    cfg: BlockchainConfig,
    block_unixtime: u32,
    lt: u64,
    credit_first: bool,
)
    requires
        run_transaction_spec(a0, msg, vm, cfg, block_unixtime, lt, credit_first) is Some,
    ensures
        ({
            let d = run_transaction_spec(
                a0,
                msg,
                vm,
                cfg,
                block_unixtime,
                lt,
                credit_first,
            )->Some_0.1.description;
            &&& d.storage_ph is Some
            &&& (d.action is Some <==> d.compute_ph.is_success())
            &&& (d.aborted <==> !(d.action matches Some(aph) && aph.success))
            &&& (msg is ExtInbound ==> d.credit_ph is None && d.bounce is None)
            &&& (d.bounce is Some ==> d.aborted && msg is Internal && msg.bounce_enabled())
        }),
{
}

/// Law: re-serializing an account, re-deserializing it, and re-running
/// the executor with identical inputs yields the identical outcome —
/// the committed account and the transaction record are the same, so
/// replay is deterministic.  The logical time is no obstacle: by
/// `LtCounter::take_next`'s contract the drawn time is exactly
/// `next_lt` of the counter value and the block logical time, so two
/// runs from equal counters receive the identical time, and this law
/// instantiated at that time closes the replay at the executor level.
pub proof fn law_deterministic_replay(
    a: Account,
    msg: Message,
    vm: VmOutcome,
    cfg: BlockchainConfig,
    block_unixtime: u32,
    lt: u64,
    credit_first: bool,
)
    ensures
        decode_account_spec(encode_account_spec(a)) == Some(a),
        run_transaction_spec(
            decode_account_spec(encode_account_spec(a))->Some_0,
            msg,
            vm,
            cfg,
            block_unixtime,
            lt,
            credit_first,
        ) == run_transaction_spec(a, msg, vm, cfg, block_unixtime, lt, credit_first),
{
    lemma_account_round_trip(a);
}

} // verus!
