//! Account serialization and the state-update digest.
//!
//! An account is persisted as a flat sequence of machine words; the
//! decoder restores exactly the account that was encoded.  The digest
//! over the encoding stands in for the content hash of the persisted
//! tree: the transaction's state-update pair records the digest of the
//! account before and after execution.

use vstd::prelude::*;
use vstd::wrapping::u64_specs;

use crate::types::{Account, AccountStatus, StorageStat};

verus! {

/// Number of words an encoded account occupies.
pub const ACCOUNT_WORDS: usize = 12;

pub open spec fn status_code_spec(s: AccountStatus) -> u64 {
    match s {
        AccountStatus::Uninit => 0,
        AccountStatus::Active => 1,
        AccountStatus::Frozen => 2,
        AccountStatus::NonExist => 3,
    }
}

pub open spec fn opt_tag_spec(o: Option<u64>) -> u64 {
    match o {
        Some(_) => 1,
        None => 0,
    }
}

pub open spec fn opt_val_spec(o: Option<u64>) -> u64 {
    match o {
        Some(v) => v,
        None => 0,
    }
}

/// Flat-word encoding of an account.
pub open spec fn encode_account_spec(a: Account) -> Seq<u64> {
    seq![
        a.addr,
        a.balance,
        opt_tag_spec(a.code),
        opt_val_spec(a.code),
        opt_tag_spec(a.data),
        opt_val_spec(a.data),
        status_code_spec(a.status),
        a.last_tr_lt,
        a.stats.used_bits,
        a.stats.used_cells,
        a.stats.last_paid as u64,
        a.due_payment,
    ]
}

pub open spec fn decode_opt_spec(tag: u64, val: u64) -> Option<Option<u64>> {
    if tag == 0 && val == 0 {
        Some(None::<u64>)
    } else if tag == 1 {
        Some(Some(val))
    } else {
        None::<Option<u64>>
    }
}

pub open spec fn decode_status_spec(code: u64) -> Option<AccountStatus> {
    if code == 0 {
        Some(AccountStatus::Uninit)
    } else if code == 1 {
        Some(AccountStatus::Active)
    } else if code == 2 {
        Some(AccountStatus::Frozen)
    } else if code == 3 {
        Some(AccountStatus::NonExist)
    } else {
        None::<AccountStatus>
    }
}

/// Meaning of decoding: `None` for any sequence that is not the exact
/// encoding of some account.
pub open spec fn decode_account_spec(s: Seq<u64>) -> Option<Account> {
    if s.len() != ACCOUNT_WORDS {
        None::<Account>
    } else if decode_opt_spec(s[2], s[3]) is None || decode_opt_spec(s[4], s[5]) is None
        || decode_status_spec(s[6]) is None || s[10] > u32::MAX {
        None::<Account>
    } else {
        Some(
            Account {
                addr: s[0],
                balance: s[1],
                code: decode_opt_spec(s[2], s[3])->Some_0,
                data: decode_opt_spec(s[4], s[5])->Some_0,
                status: decode_status_spec(s[6])->Some_0,
                last_tr_lt: s[7],
                stats: StorageStat {
                    used_bits: s[8],
                    used_cells: s[9],
                    last_paid: s[10] as u32,
                },
                due_payment: s[11],
            },
        )
    }
}

/// Law: decoding is a left inverse of encoding — re-serializing and
/// re-deserializing an account restores it exactly.
pub proof fn lemma_account_round_trip(a: Account)
    ensures
        decode_account_spec(encode_account_spec(a)) == Some(a),
{
}

/// Serializes an account to its flat-word form.
pub fn encode_account(a: &Account) -> (r: Vec<u64>)
    ensures
        r@ == encode_account_spec(*a),
{
    let mut v: Vec<u64> = Vec::new();
    v.push(a.addr);
    v.push(a.balance);
    match a.code {
        Some(c) => {
            v.push(1);
            v.push(c);
        },
        None => {
            v.push(0);
            v.push(0);
        },
    }
    match a.data {
        Some(d) => {
            v.push(1);
            v.push(d);
        },
        None => {
            v.push(0);
            v.push(0);
        },
    }
    let status_code: u64 = match a.status {
        AccountStatus::Uninit => 0,
        AccountStatus::Active => 1,
        AccountStatus::Frozen => 2,
        AccountStatus::NonExist => 3,
    };
    v.push(status_code);
    v.push(a.last_tr_lt);
    v.push(a.stats.used_bits);
    v.push(a.stats.used_cells);
    v.push(a.stats.last_paid as u64);
    v.push(a.due_payment);
    proof {
        assert(v@ =~= encode_account_spec(*a));
    }
    v
}

/// Restores an account from its flat-word form; `None` for any
/// sequence that no account encodes to.
pub fn decode_account(words: &Vec<u64>) -> (r: Option<Account>)
    ensures
        r == decode_account_spec(words@),
{
    if words.len() != ACCOUNT_WORDS {
        return None;
    }
    let code: Option<u64> = if words[2] == 0 && words[3] == 0 {
        None
    } else if words[2] == 1 {
        Some(words[3])
    } else {
        return None;
    };
    let data: Option<u64> = if words[4] == 0 && words[5] == 0 {
        None
    } else if words[4] == 1 {
        Some(words[5])
    } else {
        return None;
    };
    let status: AccountStatus = if words[6] == 0 {
        AccountStatus::Uninit
    } else if words[6] == 1 {
        AccountStatus::Active
    } else if words[6] == 2 {
        AccountStatus::Frozen
    } else if words[6] == 3 {
        AccountStatus::NonExist
    } else {
        return None;
    };
    if words[10] > u32::MAX as u64 {
        return None;
    }
    Some(
        Account {
            addr: words[0],
            balance: words[1],
            code,
            data,
            status,
            last_tr_lt: words[7],
            stats: StorageStat {
                used_bits: words[8],
                used_cells: words[9],
                last_paid: words[10] as u32,
            },
            due_payment: words[11],
        },
    )
}

/// Seed of the rolling digests.
pub const DIGEST_SEED: u64 = 14695981039346656037;

/// Multiplier of the rolling digests.
pub const DIGEST_PRIME: u64 = 1099511628211;

/// One step of the rolling digest over encoded words.
pub open spec fn digest_step(h: u64, w: u64) -> u64 {
    u64_specs::wrapping_add(u64_specs::wrapping_mul(h, DIGEST_PRIME), w)
}

/// Rolling digest of the first `n` words.
pub open spec fn digest_prefix(s: Seq<u64>, n: int) -> u64
    decreases n,
{
    if n <= 0 {
        DIGEST_SEED
    } else {
        digest_step(digest_prefix(s, n - 1), s[n - 1])
    }
}

/// Digest standing in for the content hash of an account's persisted
/// form.
pub open spec fn account_digest_spec(a: Account) -> u64 {
    digest_prefix(encode_account_spec(a), ACCOUNT_WORDS as int)
}

/// Computes the rolling digest of an encoded account.
pub fn account_digest(a: &Account) -> (r: u64)
    ensures
        r == account_digest_spec(*a),
{
    let words = encode_account(a);
    let mut h: u64 = DIGEST_SEED;
    let mut i: usize = 0;
    while i < words.len()
        invariant
            i <= words.len(),
            words@ == encode_account_spec(*a),
            h == digest_prefix(words@, i as int),
        decreases words.len() - i,
    {
        h = h.wrapping_mul(DIGEST_PRIME).wrapping_add(words[i]);
        i = i + 1;
    }
    h
}

} // verus!
