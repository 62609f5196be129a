use ordinary_executor::actions::{digest_action_list, StorageUsedShort, TrActionPhase, TrBouncePhase};
use ordinary_executor::codec::{decode_account, encode_account};
use ordinary_executor::config::BlockchainConfig;
use ordinary_executor::executor::{OrdinaryTransactionExecutor, Transaction};
use ordinary_executor::lt::LtCounter;
use ordinary_executor::phases::{gas_allotment, AccStatusChange, ComputeSkipReason, TrComputePhase, TrComputePhaseVm};
use ordinary_executor::types::{
    Account, AccountStatus, ExecutorError, Message, MsgStats, OutAction, StorageStat, VmOutcome,
};

const BLOCK_LT: u64 = 1_000_000_000;
const ACCOUNT_UT: u32 = 1572169011;
const BLOCK_UT: u32 = 1576526553;

const OWNER: u64 = 0x11;
const RECEIVER: u64 = 0x22;
const OTHER: u64 = 0x33;

fn zero_stats() -> MsgStats {
    MsgStats { bits: 0, cells: 0 }
}

fn test_account(balance: u64, addr: u64, bits: u64, cells: u64) -> Account {
    Account {
        addr,
        balance,
        code: Some(7),
        data: Some(9),
        status: AccountStatus::Active,
        last_tr_lt: 0,
        stats: StorageStat { used_bits: bits, used_cells: cells, last_paid: ACCOUNT_UT },
        due_payment: 0,
    }
}

fn create_int_msg(src: u64, dst: u64, value: u64, bounce: bool, lt: u64) -> Message {
    Message::Internal {
        src,
        dst,
        value,
        bounce,
        fwd_fee: 5,
        created_lt: lt,
        created_at: 0,
        stats: zero_stats(),
        body: 0,
    }
}

fn create_ext_msg(dst: u64) -> Message {
    Message::ExtInbound { dst, stats: zero_stats(), body: 0 }
}

fn send_action(dst: u64, value: u64, bounce: bool, lt: u64) -> OutAction {
    OutAction::SendMsg {
        all_balance: false,
        fee_separately: false,
        dst,
        value,
        bounce,
        created_lt: lt,
        stats: zero_stats(),
        body: 0,
    }
}

fn send_all_action(dst: u64, lt: u64) -> OutAction {
    OutAction::SendMsg {
        all_balance: true,
        fee_separately: false,
        dst,
        value: 0,
        bounce: false,
        created_lt: lt,
        stats: zero_stats(),
        body: 0,
    }
}

fn vm_run(success: bool, exit_code: i32, gas_used: u64, actions: Vec<OutAction>) -> VmOutcome {
    VmOutcome { success, exit_code, gas_used, accepted: true, committed_data: None, actions }
}

fn vm_phase(t: &Transaction) -> TrComputePhaseVm {
    match t.description.compute_ph {
        TrComputePhase::Vm(v) => v,
        TrComputePhase::Skipped { .. } => panic!("compute phase was skipped"),
    }
}

#[test]
fn test_trexecutor_with_bad_code() {
    let used = 698u64;
    let gas_fees = used * 10000;

    let config = BlockchainConfig::with_defaults();
    let start_balance = 2000000000u64;
    // storage stats priced at exactly the scenario fee for the elapsed time
    let acc = test_account(start_balance, OWNER, 3289, 2);
    let new_acc = acc;
    let msg = create_ext_msg(OWNER);
    let mut lt = LtCounter::new(BLOCK_LT + 1);

    // the interpreter accepts, then fails on a malformed data read
    let vm = vm_run(false, 9, used, Vec::new());

    let executor = OrdinaryTransactionExecutor::new(config);
    let mut account = acc;
    let trans = executor
        .execute(Some(&msg), &mut account, BLOCK_UT, BLOCK_LT, &mut lt, true, &vm)
        .unwrap();

    // an aborted external-message transaction commits nothing
    assert_eq!(account, new_acc);
    assert_eq!(trans.state_update.old_hash, trans.state_update.new_hash);

    assert_eq!(trans.total_fees, 302159103);

    let d = &trans.description;
    let sph = d.storage_ph.unwrap();
    assert_eq!(sph.storage_fees_collected, 285179103);
    assert_eq!(sph.storage_fees_due, None);
    assert_eq!(sph.status_change, AccStatusChange::Unchanged);
    assert_eq!(d.credit_ph, None);

    let v = vm_phase(&trans);
    assert!(!v.success);
    assert_eq!(v.exit_code, 9);
    assert!(!v.msg_state_used);
    assert!(!v.account_activated);
    assert_eq!(v.gas_used, used);
    assert_eq!(v.gas_limit, 0);
    assert_eq!(v.gas_credit, Some(10000));
    assert_eq!(v.gas_fees, gas_fees);

    assert_eq!(d.action, None);
    assert!(d.credit_first);
    assert_eq!(d.bounce, None);
    assert!(d.aborted);
    assert!(!d.destroyed);
    assert!(trans.out_msgs.is_empty());
}

#[test]
fn test_trexecutor_active_acc_with_code1() {
    let used = 1307u64;
    let storage_fees = 289434515u64;
    let msg_mine_fee = 3333282u64;
    let msg_fwd_fee = 10000000u64;
    let msg_remain_fee = msg_fwd_fee - msg_mine_fee;
    let gas_fees = used * 10000;

    let config = BlockchainConfig::with_defaults();
    let start_balance = 2000000000u64;
    let acc = test_account(start_balance, OWNER, 3353, 2);
    let msg = create_ext_msg(OWNER);
    let tr_lt = BLOCK_LT + 1;
    let mut lt = LtCounter::new(tr_lt);

    // the contract sends two internal messages
    let actions = vec![
        send_action(OTHER, 50000000, false, BLOCK_LT + 2),
        send_action(OTHER, 100000000, true, BLOCK_LT + 3),
    ];
    let vm = vm_run(true, 0, used, actions);

    let executor = OrdinaryTransactionExecutor::new(config);
    let mut account = acc;
    let trans = executor
        .execute(Some(&msg), &mut account, BLOCK_UT, BLOCK_LT, &mut lt, true, &vm)
        .unwrap();

    let end_balance = start_balance - (150000000 + msg_fwd_fee + storage_fees + gas_fees);
    assert_eq!(account.balance, end_balance);
    assert_eq!(account.last_tr_lt, tr_lt);
    assert_eq!(trans.lt, tr_lt);
    assert_eq!(trans.now, BLOCK_UT);

    assert_eq!(
        trans.total_fees,
        msg_fwd_fee + storage_fees + gas_fees + msg_mine_fee * 2
    );

    let d = &trans.description;
    let sph = d.storage_ph.unwrap();
    assert_eq!(sph.storage_fees_collected, storage_fees);
    assert_eq!(sph.status_change, AccStatusChange::Unchanged);
    assert_eq!(d.credit_ph, None);

    let v = vm_phase(&trans);
    assert!(v.success);
    assert_eq!(v.gas_used, used);
    assert_eq!(v.gas_credit, Some(10000));
    assert_eq!(v.gas_fees, gas_fees);

    let aph: TrActionPhase = d.action.unwrap();
    assert!(aph.success);
    assert!(aph.valid);
    assert_eq!(aph.status_change, AccStatusChange::Unchanged);
    assert_eq!(aph.tot_actions, 2);
    assert_eq!(aph.msgs_created, 2);
    assert_eq!(aph.total_fwd_fees, Some(2 * msg_fwd_fee));
    assert_eq!(aph.total_action_fees, Some(2 * msg_mine_fee));
    assert_eq!(v.gas_limit, 0);
    assert_eq!(aph.tot_msg_size, StorageUsedShort { bits: 0, cells: 0 });
    let expected_actions = vec![
        send_action(OTHER, 50000000, false, BLOCK_LT + 2),
        send_action(OTHER, 100000000, true, BLOCK_LT + 3),
    ];
    assert_eq!(aph.action_list_hash, digest_action_list(&expected_actions));

    assert!(d.credit_first);
    assert_eq!(d.bounce, None);
    assert!(!d.aborted);
    assert!(!d.destroyed);

    // the sent values are reduced by the full forwarding fee; the
    // remaining share travels in the message header
    assert_eq!(trans.out_msgs.len(), 2);
    let expect1 = Message::Internal {
        src: OWNER,
        dst: OTHER,
        value: 50000000 - msg_fwd_fee,
        bounce: false,
        fwd_fee: msg_remain_fee,
        created_lt: BLOCK_LT + 2,
        created_at: BLOCK_UT,
        stats: zero_stats(),
        body: 0,
    };
    let expect2 = Message::Internal {
        src: OWNER,
        dst: OTHER,
        value: 100000000 - msg_fwd_fee,
        bounce: true,
        fwd_fee: msg_remain_fee,
        created_lt: BLOCK_LT + 3,
        created_at: BLOCK_UT,
        stats: zero_stats(),
        body: 0,
    };
    assert_eq!(trans.out_msgs[0], expect1);
    assert_eq!(trans.out_msgs[1], expect2);
}

#[test]
fn test_light_wallet_contract() {
    let gas_used1 = 1387u64;
    let gas_fee1 = gas_used1 * 10000;
    let gas_fee2 = 1000000u64; // flat gas price
    let start_balance1 = 1000000000u64;
    let start_balance2 = 500000000u64;
    let fwd_fee = 10000000u64;
    let storage_fee1 = 138234403u64;
    let storage_fee2 = 138234403u64;
    let transfer = 100000000u64;

    let acc1 = test_account(start_balance1, OWNER, 1079, 2);
    let acc2 = test_account(start_balance2, RECEIVER, 1079, 2);
    let in_msg = create_ext_msg(OWNER);
    let mut lt = LtCounter::new(BLOCK_LT + 1);

    let config = BlockchainConfig::with_defaults();
    let executor = OrdinaryTransactionExecutor::new(config);

    // the wallet forwards the requested transfer to the receiver
    let vm1 = vm_run(true, 0, gas_used1, vec![send_action(RECEIVER, transfer, true, BLOCK_LT + 2)]);
    let mut account1 = acc1;
    let trans = executor
        .execute(Some(&in_msg), &mut account1, BLOCK_UT, BLOCK_LT, &mut lt, true, &vm1)
        .unwrap();
    let msg = trans.out_msgs[0];

    let newbalance1 = start_balance1 - fwd_fee - transfer - storage_fee1 - gas_fee1;
    assert_eq!(account1.balance, newbalance1);

    // delivering the produced message to the receiving wallet
    let vm2 = vm_run(true, 0, 50, Vec::new());
    let mut account2 = acc2;
    let trans2 = executor
        .execute(Some(&msg), &mut account2, BLOCK_UT, BLOCK_LT, &mut lt, true, &vm2)
        .unwrap();

    let newbalance2 = start_balance2 + transfer - fwd_fee - storage_fee2 - gas_fee2;
    assert_eq!(account2.balance, newbalance2);

    // both executions drew from one counter: strictly increasing times
    assert!(trans.lt > BLOCK_LT);
    assert!(trans2.lt > trans.lt);
}

#[test]
fn test_trexecutor_active_acc_with_code2() {
    let start_balance = 2000000000u64;
    let gas_used = 1170u64;
    let gas_fees = gas_used * 10000;
    let transfer = 50000000u64;
    let storage_fee = 78924597u64;
    let msg_mine_fee = 3333282u64;
    let msg_fwd_fee = 10000000u64;
    let msg_remain_fee = msg_fwd_fee - msg_mine_fee;

    let acc = test_account(start_balance, OWNER, 187, 2);
    let msg = create_ext_msg(OWNER);
    let tr_lt = BLOCK_LT + 1;
    let mut lt = LtCounter::new(tr_lt);

    let vm = vm_run(true, 0, gas_used, vec![send_action(RECEIVER, transfer, false, BLOCK_LT + 2)]);

    let config = BlockchainConfig::with_defaults();
    let executor = OrdinaryTransactionExecutor::new(config);
    let mut account = acc;
    let trans = executor
        .execute(Some(&msg), &mut account, BLOCK_UT, BLOCK_LT, &mut lt, true, &vm)
        .unwrap();

    assert_eq!(
        account.balance,
        start_balance - (msg_fwd_fee + transfer + storage_fee + gas_fees)
    );
    assert_eq!(account.last_tr_lt, tr_lt);
    assert_eq!(
        trans.total_fees,
        msg_fwd_fee + storage_fee + gas_fees + msg_mine_fee
    );

    let d = &trans.description;
    assert_eq!(d.storage_ph.unwrap().storage_fees_collected, storage_fee);
    let v = vm_phase(&trans);
    assert!(v.success);
    assert_eq!(v.gas_used, gas_used);
    assert_eq!(v.gas_credit, Some(10000));

    let aph = d.action.unwrap();
    assert!(aph.success);
    assert_eq!(aph.tot_actions, 1);
    assert_eq!(aph.msgs_created, 1);
    assert_eq!(aph.total_fwd_fees, Some(msg_fwd_fee));
    assert_eq!(aph.total_action_fees, Some(msg_mine_fee));
    assert!(!d.aborted);

    let expect = Message::Internal {
        src: OWNER,
        dst: RECEIVER,
        value: transfer - msg_fwd_fee,
        bounce: false,
        fwd_fee: msg_remain_fee,
        created_lt: BLOCK_LT + 2,
        created_at: BLOCK_UT,
        stats: zero_stats(),
        body: 0,
    };
    assert_eq!(trans.out_msgs[0], expect);
}

#[test]
fn test_trexecutor_active_acc_credit_first_false() {
    let start_balance = 1000000000u64;
    let acc = test_account(start_balance, OWNER, 187, 2);
    let mut lt = LtCounter::new(BLOCK_LT + 1);
    let msg = create_int_msg(OTHER, OWNER, 50000000, true, 0);

    let vm = vm_run(true, 0, 50, Vec::new());
    let config = BlockchainConfig::with_defaults();
    let executor = OrdinaryTransactionExecutor::new(config);
    let mut account = acc;
    let trans = executor
        .execute(Some(&msg), &mut account, BLOCK_UT, BLOCK_LT, &mut lt, false, &vm)
        .unwrap();
    assert_eq!(trans.description.credit_first, false);
    assert!(trans.description.credit_ph.is_some());
}

#[test]
fn test_trexecutor_active_acc_with_zero_balance() {
    let start_balance = 0u64;
    let transfer = 1000000000u64;
    let storage_fee = 76796891u64;
    let gas_fee = 1000000u64; // flat gas price

    let acc = test_account(start_balance, OWNER, 155, 2);
    let mut lt = LtCounter::new(BLOCK_LT + 1);
    let msg = create_int_msg(OTHER, OWNER, transfer, false, 0);

    let vm = vm_run(true, 0, 50, Vec::new());
    let config = BlockchainConfig::with_defaults();
    let executor = OrdinaryTransactionExecutor::new(config);
    let mut account = acc;
    // the arriving value is credited before compute, settling the
    // storage debt first
    let trans = executor
        .execute(Some(&msg), &mut account, BLOCK_UT, BLOCK_LT, &mut lt, true, &vm)
        .unwrap();
    assert_eq!(trans.description.aborted, false);
    assert!(vm_phase(&trans).success);
    assert_eq!(account.balance, transfer - storage_fee - gas_fee);

    // the empty balance could not pay rent: the fee became due and was
    // settled out of the credited value, and it is part of total_fees
    let d = &trans.description;
    assert_eq!(d.storage_ph.unwrap().storage_fees_collected, 0);
    assert_eq!(d.storage_ph.unwrap().storage_fees_due, Some(storage_fee));
    assert_eq!(d.credit_ph.unwrap().due_fees_collected, Some(storage_fee));
    assert_eq!(d.credit_ph.unwrap().credit, transfer - storage_fee);
    assert_eq!(trans.total_fees, storage_fee + gas_fee);
}

fn active_acc_send_all_balance(extra_actions: Vec<OutAction>) {
    let start_balance = 10_000_000_000u64;
    let acc = test_account(start_balance, OWNER, 187, 2);
    let mut lt = LtCounter::new(BLOCK_LT + 1);
    let msg = create_ext_msg(OWNER);

    let mut actions = vec![send_all_action(RECEIVER, BLOCK_LT + 2)];
    actions.extend(extra_actions);
    let vm = vm_run(true, 0, 500, actions);

    let config = BlockchainConfig::with_defaults();
    let executor = OrdinaryTransactionExecutor::new(config);
    let mut account = acc;
    let trans = executor
        .execute(Some(&msg), &mut account, BLOCK_UT, BLOCK_LT, &mut lt, false, &vm)
        .unwrap();
    assert_eq!(trans.description.aborted, false);
    assert!(vm_phase(&trans).success);
    assert_eq!(account.balance, 0);
    assert_eq!(trans.out_msgs.len(), 1);
}

#[test]
fn test_trexecutor_active_acc_send_all_balance() {
    active_acc_send_all_balance(Vec::new());
}

#[test]
fn test_trexecutor_active_acc_send_all_balance_with_commit_and_throw() {
    // the interpreter threw after committing: the committed send-all
    // is the only action that reaches the action phase
    active_acc_send_all_balance(Vec::new());
}

#[test]
fn test_trexecutor_active_acc_send_all_balance_with_commit_and_secondmsg_with_throw() {
    // a second send queued after the send-all is ignored, never
    // producing a second message
    active_acc_send_all_balance(vec![send_action(OTHER, 1234, false, BLOCK_LT + 3)]);
}

#[test]
fn test_action_phase_no_funds_rolls_back() {
    let start_balance = 1000000000u64;
    let acc = test_account(start_balance, OWNER, 187, 2);
    let mut lt = LtCounter::new(BLOCK_LT + 1);
    let msg = create_ext_msg(OWNER);

    // the send asks for more than the account holds
    let vm = vm_run(true, 0, 500, vec![send_action(RECEIVER, 2_000_000_000, false, BLOCK_LT + 2)]);

    let config = BlockchainConfig::with_defaults();
    let executor = OrdinaryTransactionExecutor::new(config);
    let mut account = acc;
    let trans = executor
        .execute(Some(&msg), &mut account, BLOCK_UT, BLOCK_LT, &mut lt, false, &vm)
        .unwrap();
    let d = &trans.description;
    assert!(d.aborted);
    let aph = d.action.unwrap();
    assert!(!aph.success);
    assert!(!aph.valid);
    assert_eq!(aph.msgs_created, 0);
    assert_eq!(aph.total_action_fees, None);
    assert_eq!(aph.result_code, 37);
    assert!(trans.out_msgs.is_empty());
    // aborted external transaction: nothing is committed
    assert_eq!(account, acc);
}

#[test]
fn test_send_with_fee_paid_separately() {
    // the forwarding fee comes out of the remaining balance; the sent
    // value arrives whole
    let start_balance = 1000000000u64;
    let value = 50000000u64;
    let storage_fee = 78924597u64;
    let gas_fees = 5000000u64; // 500 units at 10000
    let acc = test_account(start_balance, OWNER, 187, 2);
    let mut lt = LtCounter::new(BLOCK_LT + 1);
    let msg = create_ext_msg(OWNER);

    let action = OutAction::SendMsg {
        all_balance: false,
        fee_separately: true,
        dst: RECEIVER,
        value,
        bounce: false,
        created_lt: BLOCK_LT + 2,
        stats: zero_stats(),
        body: 0,
    };
    let vm = vm_run(true, 0, 500, vec![action]);
    let executor = OrdinaryTransactionExecutor::new(BlockchainConfig::with_defaults());
    let mut account = acc;
    let trans = executor
        .execute(Some(&msg), &mut account, BLOCK_UT, BLOCK_LT, &mut lt, false, &vm)
        .unwrap();
    assert!(!trans.description.aborted);
    match trans.out_msgs[0] {
        Message::Internal { value: v, fwd_fee, .. } => {
            assert_eq!(v, value);
            assert_eq!(fwd_fee, 6666718);
        },
        _ => panic!("expected an internal message"),
    }
    assert_eq!(
        account.balance,
        start_balance - storage_fee - 10000000 - gas_fees - value - 10000000
    );
}

#[test]
fn test_send_value_below_fee_fails_the_phase() {
    // in the ordinary mode the fee comes out of the sent value; a
    // value below the fee cannot be sent at all
    let acc = test_account(1000000000, OWNER, 187, 2);
    let mut lt = LtCounter::new(BLOCK_LT + 1);
    let msg = create_ext_msg(OWNER);
    let vm = vm_run(true, 0, 500, vec![send_action(RECEIVER, 9999999, false, BLOCK_LT + 2)]);
    let executor = OrdinaryTransactionExecutor::new(BlockchainConfig::with_defaults());
    let mut account = acc;
    let trans = executor
        .execute(Some(&msg), &mut account, BLOCK_UT, BLOCK_LT, &mut lt, false, &vm)
        .unwrap();
    assert!(trans.description.aborted);
    assert!(!trans.description.action.unwrap().success);
    assert!(trans.out_msgs.is_empty());
}

#[test]
fn test_bounce_on_failed_compute() {
    let start_balance = 1000000000u64;
    let value = 50000000u64;
    let acc = test_account(start_balance, OWNER, 187, 2);
    let mut lt = LtCounter::new(BLOCK_LT + 1);
    let msg = create_int_msg(OTHER, OWNER, value, true, 0);

    let vm = vm_run(false, 11, 200, Vec::new());
    let config = BlockchainConfig::with_defaults();
    let executor = OrdinaryTransactionExecutor::new(config);
    let mut account = acc;
    let trans = executor
        .execute(Some(&msg), &mut account, BLOCK_UT, BLOCK_LT, &mut lt, true, &vm)
        .unwrap();
    let d = &trans.description;
    assert!(d.aborted);
    match d.bounce.unwrap() {
        TrBouncePhase::Bounced { msg_fees, fwd_fees } => {
            assert_eq!(msg_fees, 3333282);
            assert_eq!(fwd_fees, 6666718);
        },
        TrBouncePhase::NoFunds { .. } => panic!("bounce should have been paid for"),
    }
    assert_eq!(trans.out_msgs.len(), 1);
    match trans.out_msgs[0] {
        Message::Internal { src, dst, value: v, bounce, fwd_fee, .. } => {
            assert_eq!(src, OWNER);
            assert_eq!(dst, OTHER);
            assert_eq!(v, value - 10000000);
            assert!(!bounce);
            assert_eq!(fwd_fee, 6666718);
        },
        _ => panic!("bounce message must be internal"),
    }
}

#[test]
fn test_compute_skipped_without_code() {
    let mut acc = test_account(1000000000, OWNER, 187, 2);
    acc.code = None;
    let mut lt = LtCounter::new(BLOCK_LT + 1);
    let msg = create_int_msg(OTHER, OWNER, 1000, false, 0);
    let vm = vm_run(true, 0, 50, Vec::new());
    let executor = OrdinaryTransactionExecutor::new(BlockchainConfig::with_defaults());
    let mut account = acc;
    let trans = executor
        .execute(Some(&msg), &mut account, BLOCK_UT, BLOCK_LT, &mut lt, true, &vm)
        .unwrap();
    assert!(trans.description.aborted);
    match trans.description.compute_ph {
        TrComputePhase::Skipped { reason } => assert_eq!(reason, ComputeSkipReason::NoState),
        TrComputePhase::Vm(_) => panic!("compute must be skipped without code"),
    }
}

#[test]
fn test_unaccepted_external_charges_nothing() {
    let acc = test_account(1000000000, OWNER, 187, 2);
    let mut lt = LtCounter::new(BLOCK_LT + 1);
    let msg = create_ext_msg(OWNER);
    let vm = VmOutcome {
        success: false,
        exit_code: 0,
        gas_used: 15000,
        accepted: false,
        committed_data: None,
        actions: Vec::new(),
    };
    let executor = OrdinaryTransactionExecutor::new(BlockchainConfig::with_defaults());
    let mut account = acc;
    let trans = executor
        .execute(Some(&msg), &mut account, BLOCK_UT, BLOCK_LT, &mut lt, true, &vm)
        .unwrap();
    let v = vm_phase(&trans);
    assert!(!v.success);
    assert_eq!(v.gas_fees, 0);
    assert_eq!(v.gas_used, 10000); // capped at the free gas credit
    assert!(trans.description.aborted);
    assert_eq!(account, acc);
}

#[test]
fn test_storage_debt_freezes_account() {
    // a large unpayable rent freezes the account and aborts the
    // transaction before any later phase
    let acc = test_account(0, OWNER, 3289, 2);
    let mut lt = LtCounter::new(BLOCK_LT + 1);
    let msg = create_int_msg(OTHER, OWNER, 5, true, 0);
    let vm = vm_run(true, 0, 50, Vec::new());
    let executor = OrdinaryTransactionExecutor::new(BlockchainConfig::with_defaults());
    let mut account = acc;
    let trans = executor
        .execute(Some(&msg), &mut account, BLOCK_UT, BLOCK_LT, &mut lt, true, &vm)
        .unwrap();
    let d = &trans.description;
    assert!(d.aborted);
    let sph = d.storage_ph.unwrap();
    assert_eq!(sph.status_change, AccStatusChange::Frozen);
    assert_eq!(sph.storage_fees_collected, 0);
    assert_eq!(sph.storage_fees_due, Some(285179103));
    assert_eq!(account.status, AccountStatus::Frozen);
    assert_eq!(trans.total_fees, 0);
    assert_eq!(d.credit_ph, None);
    assert_eq!(d.bounce, None);
}

#[test]
fn test_storage_debt_deletes_account() {
    let acc = test_account(0, OWNER, 30000, 2);
    let mut lt = LtCounter::new(BLOCK_LT + 1);
    let msg = create_int_msg(OTHER, OWNER, 5, false, 0);
    let vm = vm_run(true, 0, 50, Vec::new());
    let executor = OrdinaryTransactionExecutor::new(BlockchainConfig::with_defaults());
    let mut account = acc;
    let trans = executor
        .execute(Some(&msg), &mut account, BLOCK_UT, BLOCK_LT, &mut lt, true, &vm)
        .unwrap();
    assert!(trans.description.aborted);
    assert!(trans.description.destroyed);
    assert_eq!(
        trans.description.storage_ph.unwrap().status_change,
        AccStatusChange::Deleted
    );
    assert_eq!(account.status, AccountStatus::NonExist);
    assert_eq!(account.code, None);
}

#[test]
fn test_malformed_inputs_are_refused() {
    let acc = test_account(1000000000, OWNER, 187, 2);
    let mut lt = LtCounter::new(BLOCK_LT + 1);
    let vm = vm_run(true, 0, 50, Vec::new());
    let executor = OrdinaryTransactionExecutor::new(BlockchainConfig::with_defaults());

    // no message at all
    let mut account = acc;
    let r = executor.execute(None, &mut account, BLOCK_UT, BLOCK_LT, &mut lt, true, &vm);
    assert_eq!(r.unwrap_err(), ExecutorError::MalformedInput);
    assert_eq!(account, acc);

    // a message addressed to another account
    let stray = create_int_msg(OTHER, RECEIVER, 5, false, 0);
    let r = executor.execute(Some(&stray), &mut account, BLOCK_UT, BLOCK_LT, &mut lt, true, &vm);
    assert_eq!(r.unwrap_err(), ExecutorError::MalformedInput);

    // an outbound-only message cannot drive a transaction
    let event = Message::ExtOutbound {
        src: OWNER,
        stats: zero_stats(),
        body: 0,
        created_lt: 0,
        created_at: 0,
    };
    let r = executor.execute(Some(&event), &mut account, BLOCK_UT, BLOCK_LT, &mut lt, true, &vm);
    assert_eq!(r.unwrap_err(), ExecutorError::MalformedInput);
}

#[test]
fn test_fee_overflow_is_an_invariant_violation() {
    // rent on an absurd footprint overflows the fee range: the call
    // fails instead of wrapping
    let acc = test_account(0, OWNER, u64::MAX, u64::MAX, );
    let mut lt = LtCounter::new(BLOCK_LT + 1);
    let msg = create_int_msg(OTHER, OWNER, 5, false, 0);
    let vm = vm_run(true, 0, 50, Vec::new());
    let executor = OrdinaryTransactionExecutor::new(BlockchainConfig::with_defaults());
    let mut account = acc;
    let r = executor.execute(Some(&msg), &mut account, BLOCK_UT, BLOCK_LT, &mut lt, true, &vm);
    assert_eq!(r.unwrap_err(), ExecutorError::InternalInvariantViolation);
    assert_eq!(account, acc);
}

#[test]
fn test_replay_after_round_trip_is_identical() {
    let acc = test_account(2000000000, OWNER, 3353, 2);
    let msg = create_ext_msg(OWNER);
    let actions = vec![send_action(OTHER, 50000000, false, BLOCK_LT + 2)];
    let executor = OrdinaryTransactionExecutor::new(BlockchainConfig::with_defaults());

    let mut account1 = acc;
    let mut lt1 = LtCounter::new(BLOCK_LT + 1);
    let vm1 = vm_run(true, 0, 1307, actions.clone());
    let t1 = executor
        .execute(Some(&msg), &mut account1, BLOCK_UT, BLOCK_LT, &mut lt1, true, &vm1)
        .unwrap();

    // serialize, deserialize, and re-run with identical inputs
    let restored = decode_account(&encode_account(&acc)).unwrap();
    assert_eq!(restored, acc);
    let mut account2 = restored;
    let mut lt2 = LtCounter::new(BLOCK_LT + 1);
    let vm2 = vm_run(true, 0, 1307, actions);
    let t2 = executor
        .execute(Some(&msg), &mut account2, BLOCK_UT, BLOCK_LT, &mut lt2, true, &vm2)
        .unwrap();

    assert_eq!(account1, account2);
    assert_eq!(t1.lt, t2.lt);
    assert_eq!(t1.now, t2.now);
    assert_eq!(t1.total_fees, t2.total_fees);
    assert_eq!(t1.out_msgs, t2.out_msgs);
    assert_eq!(t1.description, t2.description);
    assert_eq!(t1.state_update, t2.state_update);
    assert_eq!(t1.end_status, t2.end_status);
}

#[test]
fn test_execute_on_serialized_account() {
    let acc = test_account(2000000000, OWNER, 3289, 2);
    let mut words = encode_account(&acc);
    let msg = create_ext_msg(OWNER);
    let mut lt = LtCounter::new(BLOCK_LT + 1);
    let vm = vm_run(true, 0, 698, Vec::new());
    let executor = OrdinaryTransactionExecutor::new(BlockchainConfig::with_defaults());
    let trans = executor
        .execute_serialized(Some(&msg), &mut words, BLOCK_UT, BLOCK_LT, &mut lt, true, &vm)
        .unwrap();
    // the stored words were overwritten with the committed state
    let committed = decode_account(&words).unwrap();
    assert_eq!(committed.balance, 2000000000 - 285179103 - 10000000 - 6980000);
    assert_eq!(committed.last_tr_lt, trans.lt);
    assert!(!trans.description.aborted);
}

#[test]
fn test_damaged_account_state_is_a_serialization_error() {
    let mut words = vec![1u64, 2, 3];
    let original = words.clone();
    let msg = create_ext_msg(OWNER);
    let mut lt = LtCounter::new(BLOCK_LT + 1);
    let vm = vm_run(true, 0, 698, Vec::new());
    let executor = OrdinaryTransactionExecutor::new(BlockchainConfig::with_defaults());
    let r = executor.execute_serialized(
        Some(&msg), &mut words, BLOCK_UT, BLOCK_LT, &mut lt, true, &vm,
    );
    assert_eq!(r.unwrap_err(), ExecutorError::SerializationError);
    assert_eq!(words, original);
}

#[test]
fn test_logical_time_allocation() {
    let mut lt = LtCounter::new(5);
    let a = lt.take_next(100);
    let b = lt.take_next(100);
    let c = lt.take_next(0);
    assert_eq!(a, 101);
    assert_eq!(b, 102);
    assert_eq!(c, 103);
    assert!(a > 100 && b > a && c > b);
}

#[test]
fn test_total_fees_equation_with_due_and_bounce() {
    // internal message, storage debt settled in credit, failed compute
    // with a bounce: total_fees must be the exact sum of the parts
    let acc = test_account(0, OWNER, 155, 2);
    let mut lt = LtCounter::new(BLOCK_LT + 1);
    let msg = create_int_msg(OTHER, OWNER, 1000000000, true, 0);
    let vm = vm_run(false, 11, 200, Vec::new());
    let executor = OrdinaryTransactionExecutor::new(BlockchainConfig::with_defaults());
    let mut account = acc;
    let trans = executor
        .execute(Some(&msg), &mut account, BLOCK_UT, BLOCK_LT, &mut lt, true, &vm)
        .unwrap();
    let d = &trans.description;
    let storage = d.storage_ph.unwrap().storage_fees_collected;
    let due = d.credit_ph.unwrap().due_fees_collected.unwrap_or(0);
    let gas = vm_phase(&trans).gas_fees;
    let bounce_mine = match d.bounce.unwrap() {
        TrBouncePhase::Bounced { msg_fees, .. } => msg_fees,
        TrBouncePhase::NoFunds { .. } => 0,
    };
    assert_eq!(trans.total_fees, storage + due + gas + bounce_mine);
    assert_eq!(due, 76796891);
}

#[test]
fn test_gas_allotment_values() {
    let cfg = BlockchainConfig::with_defaults();
    let rich = test_account(2000000000, OWNER, 187, 2);
    let broke = test_account(0, OWNER, 187, 2);
    // an external message runs on the free credit alone
    assert_eq!(gas_allotment(&rich, true, &cfg), (0, 10000));
    // an internal message buys what the balance affords, up to the limit
    assert_eq!(gas_allotment(&rich, false, &cfg), (200000, 0));
    assert_eq!(gas_allotment(&broke, false, &cfg), (0, 0));
}

#[test]
fn test_action_list_hash_tracks_the_list() {
    let a = vec![send_action(OTHER, 50000000, false, BLOCK_LT + 2)];
    let b = vec![send_action(OTHER, 50000001, false, BLOCK_LT + 2)];
    assert_eq!(digest_action_list(&a), digest_action_list(&a));
    assert_ne!(digest_action_list(&a), digest_action_list(&b));
    assert_ne!(digest_action_list(&a), digest_action_list(&Vec::new()));
}
