use crate::calls::TxnPtr;
use crate::environment::{EnvironmentKind, GenericEnvironment};
use crate::private::Sealed;
use std::fmt::Debug;
use std::marker::PhantomData;
use vstd::prelude::*;

verus! {

/// Transaction flag: reads and writes.
pub const MDBX_TXN_READWRITE: libc::c_uint = 0;

/// Transaction flag: reads only.
pub const MDBX_TXN_RDONLY: libc::c_uint = 0x20000;

/// What a transaction may do.
pub trait TransactionKind: Sealed + Debug + 'static {
    /// Whether every page that the transaction sees is as it stands on disk.
    const ONLY_CLEAN: bool;

    /// The flags that such a transaction is begun with.
    const OPEN_FLAGS: libc::c_uint;
}

/// Kind of the transactions that read.
#[derive(Debug)]
pub struct RO;

/// Kind of the transactions that read and write.
#[derive(Debug)]
pub struct RW;

impl Sealed for RO {

}

impl Sealed for RW {

}

impl TransactionKind for RO {
    const ONLY_CLEAN: bool = true;

    const OPEN_FLAGS: libc::c_uint = MDBX_TXN_RDONLY;
}

impl TransactionKind for RW {
    const ONLY_CLEAN: bool = false;

    const OPEN_FLAGS: libc::c_uint = MDBX_TXN_READWRITE;
}

/// What is fixed for each kind of transaction.
pub proof fn law_transaction_kinds()
    ensures
        RO::ONLY_CLEAN,
        RO::OPEN_FLAGS == MDBX_TXN_RDONLY == 0x20000,
        !RW::ONLY_CLEAN,
        RW::OPEN_FLAGS == MDBX_TXN_READWRITE == 0,
{
}

/// A transaction that has begun.
pub struct Transaction<'env, K, E> where K: TransactionKind, E: EnvironmentKind {
    txn: TxnPtr,
    env: &'env GenericEnvironment<E>,
    _marker: PhantomData<K>,
}

impl<'env, K, E> Transaction<'env, K, E> where K: TransactionKind, E: EnvironmentKind {
    /// The address of the transaction.
    pub closed spec fn ptr(self) -> TxnPtr {
        self.txn
    }

    /// The environment that the transaction runs in.
    pub closed spec fn environment(self) -> GenericEnvironment<E> {
        *self.env
    }

    /// A transaction from its address.
    pub fn new_from_ptr(env: &'env GenericEnvironment<E>, ptr: TxnPtr) -> (t: Self)
        ensures
            t.ptr() == ptr,
            t.environment() == *env,
    {
        Transaction { txn: ptr, env, _marker: PhantomData }
    }

    /// The address of the transaction.
    pub fn txn(&self) -> (ptr: TxnPtr)
        ensures
            ptr == self.ptr(),
    {
        self.txn
    }

    /// The environment that the transaction runs in.
    pub fn env(&self) -> (env: &GenericEnvironment<E>)
        ensures
            *env == self.environment(),
    {
        self.env
    }
}

} // verus!
