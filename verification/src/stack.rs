//! Initial interpreter stack for an ordinary transaction.
//!
//! The order of the entries and the exact kind flag are a wire
//! contract with the interpreter: account balance, message value,
//! the full message as a tree value, the message body as a cursor,
//! and a flag distinguishing internal from externally injected
//! messages.

use vstd::prelude::*;

use crate::types::{Account, Message};

verus! {

/// One entry of the interpreter's value stack, as far as the executor
/// shapes it: integers, a full message tree value, or a body cursor.
#[derive(Clone, Copy, Debug, PartialEq, Eq, Structural)]
pub enum StackEntry {
    Int(i128),
    Cell(Message),
    Slice(u64),
}

/// The kind flag pushed on top of the stack: 0 for an internal
/// message, -1 for an externally injected one.
pub open spec fn msg_kind_flag(m: Message) -> i128 {
    if m is Internal {
        0i128
    } else {
        -1i128
    }
}

/// Builds the initial interpreter stack, bottom to top: account
/// balance, message value, the message itself, its body, and the
/// message-kind flag.  Without an inbound message (the tick-tock
/// path, outside the ordinary transaction) the stack is empty.
pub fn build_stack(msg: Option<&Message>, acc: &Account) -> (r: Vec<StackEntry>)
    requires
        msg matches Some(m) ==> !(*m is ExtOutbound),
    ensures
        match msg {
            Some(m) => r@ =~= seq![
                StackEntry::Int(acc.balance as i128),
                StackEntry::Int(m.value_spec() as i128),
                StackEntry::Cell(*m),
                StackEntry::Slice(m.body_spec()),
                StackEntry::Int(msg_kind_flag(*m)),
            ],
            None => r@ =~= Seq::<StackEntry>::empty(),
        },
{
    let mut v: Vec<StackEntry> = Vec::new();
    match msg {
        Some(m) => {
            v.push(StackEntry::Int(acc.balance as i128));
            v.push(StackEntry::Int(m.value() as i128));
            v.push(StackEntry::Cell(*m));
            let body = match m {
                Message::Internal { body, .. } => *body,
                Message::ExtInbound { body, .. } => *body,
                Message::ExtOutbound { body, .. } => *body,
            };
            v.push(StackEntry::Slice(body));
            let flag: i128 = if matches!(m, Message::Internal { .. }) {
                0
            } else {
                -1
            };
            v.push(StackEntry::Int(flag));
        },
        None => {},
    }
    v
}

} // verus!
