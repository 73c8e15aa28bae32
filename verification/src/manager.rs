use crate::calls::{EnvPtr, TxnCall, TxnPtr};
use crate::error::{error_of, mdbx_result, outcome, Error};
use vstd::prelude::*;

verus! {

/// What a write transaction asks of the transaction manager.
#[derive(Clone, Copy, Debug, PartialEq, Eq, Structural)]
pub enum TxnManagerMessage {
    Begin { parent: TxnPtr, flags: libc::c_uint },
    Abort { tx: TxnPtr },
    Commit { tx: TxnPtr },
}

/// What the transaction manager sends back.
#[derive(Clone, Copy, Debug, PartialEq, Eq)]
pub enum TxnManagerReply {
    /// To `Begin`: the new transaction.
    Begun(Result<TxnPtr, Error>),
    /// To `Abort` and `Commit`: how the transaction ended.
    Ended(Result<bool, Error>),
}

/// Runs all write transactions of one environment, on a thread of its own: the storage engine
/// wants a write transaction to end on the thread that it began on.
#[derive(Clone, Copy, Debug, PartialEq, Eq, Structural)]
pub struct TxnManager {
    pub env: EnvPtr,
}

/// The transaction of a `Begin` whose call came back with `err_code` and the address `txn`.
pub open spec fn begun(err_code: libc::c_int, txn: TxnPtr) -> Result<TxnPtr, Error> {
    match outcome(err_code) {
        Ok(_) => Ok(txn),
        Err(e) => Err(e),
    }
}

/// The call that a message stands for.
pub open spec fn call_of(manager: TxnManager, message: TxnManagerMessage) -> TxnCall {
    match message {
        TxnManagerMessage::Begin { parent, flags } => TxnCall::Begin {
            env: manager.env,
            parent,
            flags,
        },
        TxnManagerMessage::Abort { tx } => TxnCall::Abort { txn: tx },
        TxnManagerMessage::Commit { tx } => TxnCall::Commit { txn: tx },
    }
}

/// The reply to a message whose call came back with `err_code` and, for a new transaction, the
/// address `txn`.
pub open spec fn reply_of(
    message: TxnManagerMessage,
    err_code: libc::c_int,
    txn: TxnPtr,
) -> TxnManagerReply {
    match message {
        TxnManagerMessage::Begin { .. } => TxnManagerReply::Begun(begun(err_code, txn)),
        _ => TxnManagerReply::Ended(outcome(err_code)),
    }
}

/// The transaction of a `Begin` whose call came back with `err_code` and the address `txn`.
pub(crate) fn begin_result(err_code: libc::c_int, txn: TxnPtr) -> (r: Result<TxnPtr, Error>)
    ensures
        r == begun(err_code, txn),
        err_code == 0 || err_code == -1 ==> r == Ok::<TxnPtr, Error>(txn),
{
    match mdbx_result(err_code) {
        Ok(_) => Ok(txn),
        Err(e) => Err(e),
    }
}

impl TxnManager {
    /// The call to make for what was received. `None` stands for a channel that is closed; the
    /// manager then has no call to make and stops.
    pub fn call(&self, received: Option<TxnManagerMessage>) -> (call: Option<TxnCall>)
        ensures
            call is None <==> received is None,
            received matches Some(message) ==> call == Some(call_of(*self, message)),
            received matches Some(TxnManagerMessage::Begin { parent, flags }) ==> call == Some(
                TxnCall::Begin { env: self.env, parent, flags },
            ),
            received matches Some(TxnManagerMessage::Abort { tx }) ==> call == Some(
                TxnCall::Abort { txn: tx },
            ),
            received matches Some(TxnManagerMessage::Commit { tx }) ==> call == Some(
                TxnCall::Commit { txn: tx },
            ),
    {
        match received {
            Some(TxnManagerMessage::Begin { parent, flags }) => Some(
                TxnCall::Begin { env: self.env, parent, flags },
            ),
            Some(TxnManagerMessage::Abort { tx }) => Some(TxnCall::Abort { txn: tx }),
            Some(TxnManagerMessage::Commit { tx }) => Some(TxnCall::Commit { txn: tx }),
            None => None,
        }
    }

    /// The reply to a message whose call came back with `err_code` and, for a new transaction, the
    /// address `txn`.
    pub fn reply(
        &self,
        message: TxnManagerMessage,
        err_code: libc::c_int,
        txn: TxnPtr,
    ) -> (reply: TxnManagerReply)
        ensures
            reply == reply_of(message, err_code, txn),
            message is Begin && (err_code == 0 || err_code == -1) ==> reply
                == TxnManagerReply::Begun(Ok(txn)),
            !(message is Begin) && (err_code == 0 || err_code == -1) ==> reply
                == TxnManagerReply::Ended(Ok(err_code == -1)),
    {
        match message {
            TxnManagerMessage::Begin { .. } => TxnManagerReply::Begun(begin_result(err_code, txn)),
            TxnManagerMessage::Abort { .. } => TxnManagerReply::Ended(mdbx_result(err_code)),
            TxnManagerMessage::Commit { .. } => TxnManagerReply::Ended(mdbx_result(err_code)),
        }
    }
}

/// A transaction that has begun is known by the very address that the engine gave it: whoever asked
/// for it is told that address, whatever it is, exactly where the engine reported success.
pub proof fn law_new_transaction_keeps_its_address(
    parent: TxnPtr,
    flags: libc::c_uint,
    err_code: libc::c_int,
    txn: TxnPtr,
)
    ensures
        err_code == 0 || err_code == -1 ==> begun(err_code, txn) == Ok::<TxnPtr, Error>(txn),
        err_code == 0 || err_code == -1 ==> reply_of(
            TxnManagerMessage::Begin { parent, flags },
            err_code,
            txn,
        ) == TxnManagerReply::Begun(Ok(txn)),
        err_code != 0 && err_code != -1 ==> begun(err_code, txn) == Err::<TxnPtr, Error>(
            error_of(err_code),
        ),
        err_code != 0 && err_code != -1 ==> reply_of(
            TxnManagerMessage::Begin { parent, flags },
            err_code,
            txn,
        ) == TxnManagerReply::Begun(Err(error_of(err_code))),
{
}

/// The manager passes on what it was asked for: it begins a transaction under the given parent and
/// with the given flags, in its own environment, and ends the very transaction that was named.
pub proof fn law_manager_does_what_it_was_asked(
    manager: TxnManager,
    parent: TxnPtr,
    flags: libc::c_uint,
    tx: TxnPtr,
    err_code: libc::c_int,
    txn: TxnPtr,
)
    ensures
        call_of(manager, TxnManagerMessage::Begin { parent, flags }) == (TxnCall::Begin {
            env: manager.env,
            parent,
            flags,
        }),
        call_of(manager, TxnManagerMessage::Abort { tx }) == (TxnCall::Abort { txn: tx }),
        call_of(manager, TxnManagerMessage::Commit { tx }) == (TxnCall::Commit { txn: tx }),
        err_code == 0 || err_code == -1 ==> reply_of(
            TxnManagerMessage::Abort { tx },
            err_code,
            txn,
        ) == TxnManagerReply::Ended(Ok(err_code == -1)),
        err_code == 0 || err_code == -1 ==> reply_of(
            TxnManagerMessage::Commit { tx },
            err_code,
            txn,
        ) == TxnManagerReply::Ended(Ok(err_code == -1)),
        err_code != 0 && err_code != -1 ==> reply_of(
            TxnManagerMessage::Abort { tx },
            err_code,
            txn,
        ) == TxnManagerReply::Ended(Err(error_of(err_code))),
        err_code != 0 && err_code != -1 ==> reply_of(
            TxnManagerMessage::Commit { tx },
            err_code,
            txn,
        ) == TxnManagerReply::Ended(Err(error_of(err_code))),
{
}

/// A failed call is reported to whoever asked for it, and a call that succeeded never is.
pub proof fn law_failures_are_reported(
    message: TxnManagerMessage,
    err_code: libc::c_int,
    txn: TxnPtr,
)
    ensures
        match reply_of(message, err_code, txn) {
            TxnManagerReply::Begun(r) => message is Begin && (r is Err <==> outcome(err_code)
                is Err) && (r is Err ==> r->Err_0 == outcome(err_code)->Err_0),
            TxnManagerReply::Ended(r) => !(message is Begin) && r == outcome(err_code),
        },
{
}

} // verus!
