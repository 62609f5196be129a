//! Execution against the persisted account form: the executor entry
//! point that decodes the stored words, runs the transaction, and
//! overwrites the words in place with the committed state.

use vstd::prelude::*;

use crate::codec::{decode_account, decode_account_spec, encode_account, encode_account_spec};
use crate::executor::{
    run_transaction_spec, tr_model, valid_inbound, OrdinaryTransactionExecutor, Transaction,
};
use crate::lt::{next_lt, LtCounter};
use crate::types::{ExecutorError, Message, VmOutcome};

verus! {

impl OrdinaryTransactionExecutor {
    /// Executes one ordinary transaction against the persisted form of
    /// the account: decodes it, runs the phases, and overwrites the
    /// persisted words in place with the committed state.  Words that
    /// decode to no account are refused as a serialization error
    /// before anything else happens.
    pub fn execute_serialized(
        &self,
        in_msg: Option<&Message>,
        account_state: &mut Vec<u64>,
        block_unixtime: u32,
        block_lt: u64,
        lt_counter: &mut LtCounter,
        credit_first: bool,
        vm: &VmOutcome,
    ) -> (r: Result<Transaction, ExecutorError>)
        requires
            self.config.wf(),
            old(lt_counter).next <= u64::MAX - 1,
            block_lt <= u64::MAX - 2,
        ensures
            r is Err ==> final(account_state)@ == old(account_state)@,
            (r == Err::<Transaction, ExecutorError>(ExecutorError::SerializationError))
                <==> decode_account_spec(old(account_state)@) is None,
            r == Err::<Transaction, ExecutorError>(ExecutorError::SerializationError)
                ==> *final(lt_counter) == *old(lt_counter),
            (r == Err::<Transaction, ExecutorError>(ExecutorError::MalformedInput)) <==> (
            decode_account_spec(old(account_state)@) matches Some(a) && !valid_inbound(in_msg, a)),
            r == Err::<Transaction, ExecutorError>(ExecutorError::InternalInvariantViolation)
                ==> (decode_account_spec(old(account_state)@) matches Some(a)
                && final(lt_counter).next == next_lt(old(lt_counter).next, block_lt) + 1
                && run_transaction_spec(
                a,
                *(in_msg->Some_0),
                *vm,
                self.config,
                block_unixtime,
                next_lt(old(lt_counter).next, block_lt),
                credit_first,
            ) is None),
            r matches Ok(tr) ==> decode_account_spec(old(account_state)@) matches Some(a)
                && run_transaction_spec(
                a,
                *(in_msg->Some_0),
                *vm,
                self.config,
                block_unixtime,
                tr.lt,
                credit_first,
            ) matches Some(res) && res.1 == tr_model(tr) && final(account_state)@
                == encode_account_spec(res.0) && tr.lt == next_lt(old(lt_counter).next, block_lt)
                && final(lt_counter).next == tr.lt + 1,
    {
        let mut a = match decode_account(account_state) {
            Some(a) => a,
            None => {
                return Err(ExecutorError::SerializationError);
            },
        };
        let r = self.execute(
            in_msg,
            &mut a,
            block_unixtime,
            block_lt,
            lt_counter,
            credit_first,
            vm,
        );
        match r {
            Ok(tr) => {
                let enc = encode_account(&a);
                *account_state = enc;
                Ok(tr)
            },
            Err(e) => Err(e),
        }
    }
}

} // verus!
