use ordinary_executor::config::BlockchainConfig;
use ordinary_executor::executor::OrdinaryTransactionExecutor;
use ordinary_executor::stack::StackEntry;
use ordinary_executor::types::{Account, AccountStatus, Message, MsgStats, StorageStat};

const ACCOUNT_UT: u32 = 1572169011;

fn test_account(balance: u64, addr: u64) -> Account {
    Account {
        addr,
        balance,
        code: Some(7),
        data: Some(9),
        status: AccountStatus::Active,
        last_tr_lt: 0,
        stats: StorageStat { used_bits: 1079, used_cells: 2, last_paid: ACCOUNT_UT },
        due_payment: 0,
    }
}

#[test]
fn test_build_ordinary_stack() {
    let acc_balance = 10_000_000u64;
    let msg_balance = 15_000u64;
    let acc_id = 0x22u64;
    let msg_int = Message::Internal {
        src: 0x11,
        dst: acc_id,
        value: msg_balance,
        bounce: false,
        fwd_fee: 5,
        created_lt: 0,
        created_at: 0,
        stats: MsgStats { bits: 0, cells: 0 },
        body: 42,
    };
    let acc = test_account(acc_balance, acc_id);
    let executor = OrdinaryTransactionExecutor::new(BlockchainConfig::with_defaults());

    let test_stack1 = executor.build_stack(Some(&msg_int), &acc);

    // stack for an internal message, bottom to top
    let etalon_stack1 = vec![
        StackEntry::Int(acc_balance as i128),
        StackEntry::Int(msg_balance as i128),
        StackEntry::Cell(msg_int),
        StackEntry::Slice(42),
        StackEntry::Int(0),
    ];
    assert_eq!(test_stack1, etalon_stack1);

    let msg_ext = Message::ExtInbound { dst: acc_id, stats: MsgStats { bits: 0, cells: 0 }, body: 7 };
    let executor = OrdinaryTransactionExecutor::new(BlockchainConfig::with_defaults());
    let test_stack2 = executor.build_stack(Some(&msg_ext), &acc);

    // stack for an externally injected message: no value, flag -1
    let etalon_stack2 = vec![
        StackEntry::Int(acc_balance as i128),
        StackEntry::Int(0),
        StackEntry::Cell(msg_ext),
        StackEntry::Slice(7),
        StackEntry::Int(-1),
    ];
    assert_eq!(test_stack2, etalon_stack2);
}

#[test]
fn build_stack_without_message_is_empty() {
    let acc = test_account(1, 0x22);
    let executor = OrdinaryTransactionExecutor::new(BlockchainConfig::with_defaults());
    let stack = executor.build_stack(None, &acc);
    assert!(stack.is_empty());
}
