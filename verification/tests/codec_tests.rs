use ordinary_executor::codec::{account_digest, decode_account, encode_account};
use ordinary_executor::types::{Account, AccountStatus, StorageStat};

fn sample(status: AccountStatus, code: Option<u64>, data: Option<u64>) -> Account {
    Account {
        addr: 0x11,
        balance: 2000000000,
        code,
        data,
        status,
        last_tr_lt: 1_000_000_001,
        stats: StorageStat { used_bits: 3289, used_cells: 2, last_paid: 1572169011 },
        due_payment: 12345,
    }
}

#[test]
fn account_round_trip_restores_every_field() {
    let cases = [
        sample(AccountStatus::Active, Some(7), Some(9)),
        sample(AccountStatus::Uninit, None, None),
        sample(AccountStatus::Frozen, None, Some(0)),
        sample(AccountStatus::NonExist, None, None),
        Account {
            addr: u64::MAX,
            balance: u64::MAX,
            code: Some(u64::MAX),
            data: Some(0),
            status: AccountStatus::Active,
            last_tr_lt: u64::MAX,
            stats: StorageStat { used_bits: u64::MAX, used_cells: u64::MAX, last_paid: u32::MAX },
            due_payment: u64::MAX,
        },
    ];
    for a in cases {
        assert_eq!(decode_account(&encode_account(&a)), Some(a));
    }
}

#[test]
fn decode_rejects_damaged_encodings() {
    let a = sample(AccountStatus::Active, Some(7), Some(9));
    let words = encode_account(&a);

    let mut short = words.clone();
    short.pop();
    assert_eq!(decode_account(&short), None);

    let mut bad_tag = words.clone();
    bad_tag[2] = 5;
    assert_eq!(decode_account(&bad_tag), None);

    let mut bad_status = words.clone();
    bad_status[6] = 9;
    assert_eq!(decode_account(&bad_status), None);

    let mut bad_time = words.clone();
    bad_time[10] = u64::MAX;
    assert_eq!(decode_account(&bad_time), None);
}

#[test]
fn digest_tracks_the_account_state() {
    let a = sample(AccountStatus::Active, Some(7), Some(9));
    let mut b = a;
    b.balance -= 1;
    assert_eq!(account_digest(&a), account_digest(&a));
    assert_ne!(account_digest(&a), account_digest(&b));
}
