//! Data model of the execution core: accounts, messages, interpreter
//! outcomes and the error kinds of the executor.
//!
//! Persistent-tree values (cells) are external collaborators; what the
//! phase logic actually reads of them is modelled as plain values: a
//! serialized size in bits and cells, and opaque identifiers for code,
//! data and message bodies.

use vstd::prelude::*;

verus! {

/// Environmental failure kinds.  Contract-level failures (out of gas,
/// bad code, insufficient balance) never surface here: they produce a
/// valid but aborted transaction instead.
#[derive(Clone, Copy, Debug, PartialEq, Eq, Structural)]
pub enum ExecutorError {
    /// The inbound message cannot drive an ordinary transaction at all.
    MalformedInput,
    /// The persisted account state does not decode to an account.
    SerializationError,
    /// Fee arithmetic overflowed the machine range; wrapping silently
    /// would break consensus determinism, so the call fails instead.
    InternalInvariantViolation,
}

/// Serialized size of a persistent-tree value.
#[derive(Clone, Copy, Debug, PartialEq, Eq, Structural)]
pub struct MsgStats {
    pub bits: u64,
    pub cells: u64,
}

/// Storage statistics of an account: how much it keeps in the persistent
/// tree and when rent was last settled.
#[derive(Clone, Copy, Debug, PartialEq, Eq, Structural)]
pub struct StorageStat {
    pub used_bits: u64,
    pub used_cells: u64,
    pub last_paid: u32,
}

/// Activation status of an account.
#[derive(Clone, Copy, Debug, PartialEq, Eq, Structural)]
pub enum AccountStatus {
    Uninit,
    Active,
    Frozen,
    NonExist,
}

/// On-chain account state as the phase engine reads and writes it.
/// Code and persistent data are opaque tree values, carried as content
/// identifiers; the phases only test their presence and replace them.
#[derive(Clone, Copy, Debug, PartialEq, Eq, Structural)]
pub struct Account {
    pub addr: u64,
    pub balance: u64,
    pub code: Option<u64>,
    pub data: Option<u64>,
    pub status: AccountStatus,
    pub last_tr_lt: u64,
    pub stats: StorageStat,
    /// Storage rent still owed from earlier periods the balance could
    /// not cover; settled from the next credited value.
    pub due_payment: u64,
}

/// Inbound or outbound unit of value and data transfer.
#[derive(Clone, Copy, Debug, PartialEq, Eq, Structural)]
pub enum Message {
    /// Value-carrying transfer between two accounts.
    Internal {
        src: u64,
        dst: u64,
        value: u64,
        bounce: bool,
        /// Forward fee travelling with the message (the "remaining"
        /// share; the "mine" share was retained by the sender's
        /// validator).
        fwd_fee: u64,
        created_lt: u64,
        created_at: u32,
        stats: MsgStats,
        body: u64,
    },
    /// Externally injected message: carries no value, triggers
    /// execution, pays an import fee out of the account balance.
    ExtInbound { dst: u64, stats: MsgStats, body: u64 },
    /// Informational outbound-only message (an event); carries no value
    /// and never drives an ordinary transaction.
    ExtOutbound { src: u64, stats: MsgStats, body: u64, created_lt: u64, created_at: u32 },
}

impl Message {
    pub open spec fn is_internal(self) -> bool {
        self is Internal
    }

    pub open spec fn value_spec(self) -> u64 {
        match self {
            Message::Internal { value, .. } => value,
            _ => 0,
        }
    }

    pub open spec fn bounce_enabled(self) -> bool {
        match self {
            Message::Internal { bounce, .. } => bounce,
            _ => false,
        }
    }

    pub open spec fn body_spec(self) -> u64 {
        match self {
            Message::Internal { body, .. } => body,
            Message::ExtInbound { body, .. } => body,
            Message::ExtOutbound { body, .. } => body,
        }
    }

    pub open spec fn stats_spec(self) -> MsgStats {
        match self {
            Message::Internal { stats, .. } => stats,
            Message::ExtInbound { stats, .. } => stats,
            Message::ExtOutbound { stats, .. } => stats,
        }
    }

    pub open spec fn dst_spec(self) -> u64 {
        match self {
            Message::Internal { dst, .. } => dst,
            Message::ExtInbound { dst, .. } => dst,
            Message::ExtOutbound { .. } => 0,
        }
    }

    pub open spec fn src_spec(self) -> u64 {
        match self {
            Message::Internal { src, .. } => src,
            Message::ExtInbound { .. } => 0,
            Message::ExtOutbound { src, .. } => src,
        }
    }

    /// Sender address; an externally injected message has no on-chain
    /// sender.
    pub fn src(&self) -> (r: u64)
        ensures
            r == self.src_spec(),
    {
        match self {
            Message::Internal { src, .. } => *src,
            Message::ExtInbound { .. } => 0,
            Message::ExtOutbound { src, .. } => *src,
        }
    }

    /// Value the message delivers: its declared value for an internal
    /// message, zero otherwise.
    pub fn value(&self) -> (r: u64)
        ensures
            r == self.value_spec(),
    {
        match self {
            Message::Internal { value, .. } => *value,
            _ => 0,
        }
    }

    /// Serialized size of the message.
    pub fn stats(&self) -> (r: MsgStats)
        ensures
            r == self.stats_spec(),
    {
        match self {
            Message::Internal { stats, .. } => *stats,
            Message::ExtInbound { stats, .. } => *stats,
            Message::ExtOutbound { stats, .. } => *stats,
        }
    }

    /// Whether a failed execution should bounce the value back.
    pub fn bounce(&self) -> (r: bool)
        ensures
            r == self.bounce_enabled(),
    {
        match self {
            Message::Internal { bounce, .. } => *bounce,
            _ => false,
        }
    }
}

/// A side effect emitted by contract execution, applied in emission
/// order by the action phase.  Only message sends occur in an ordinary
/// transaction.
#[derive(Clone, Copy, Debug, PartialEq, Eq, Structural)]
pub enum OutAction {
    SendMsg {
        /// Send the whole remaining account balance; valid only as the
        /// last executed send of the phase, later sends are ignored.
        all_balance: bool,
        /// Pay the forwarding fee from the remaining balance instead of
        /// deducting it from the sent value.
        fee_separately: bool,
        dst: u64,
        value: u64,
        bounce: bool,
        created_lt: u64,
        stats: MsgStats,
        body: u64,
    },
}

/// What the external stack-machine interpreter reported for one
/// invocation.  The compute phase is verified for every possible value
/// of this record: nothing here is trusted beyond being the
/// interpreter's report.
pub struct VmOutcome {
    /// The interpreter finished without throwing.
    pub success: bool,
    pub exit_code: i32,
    pub gas_used: u64,
    /// The contract executed the gas-commitment instruction, agreeing
    /// to pay for the computation.
    pub accepted: bool,
    /// Persistent data committed by the execution, if any.
    pub committed_data: Option<u64>,
    /// Actions committed by the execution, in emission order.
    pub actions: Vec<OutAction>,
}

} // verus!
