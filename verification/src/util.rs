use crate::calls::{DirtyCall, TxnPtr};
use crate::error::{mdbx_result, outcome, Error};
use crate::transaction::TransactionKind;
use lifetimed_bytes::Bytes;
use vstd::prelude::*;

verus! {

/// `Bytes` of the crate lifetimed_bytes: bytes that are either borrowed or owned.
#[verifier::external_type_specification]
#[verifier::external_body]
pub struct ExBytes<'b>(lifetimed_bytes::Bytes<'b>);

/// The bytes that a `Bytes` gives access to.
pub uninterp spec fn bytes_content(b: Bytes<'_>) -> Seq<u8>;

/// Whether a `Bytes` that is not empty refers to the memory of a slice that it was made from. One
/// that does not refers to memory of its own.
pub uninterp spec fn bytes_borrowed(b: Bytes<'_>) -> bool;

/// `From<&[u8]>` of `Bytes`: gives access to the bytes of the slice, where they are.
#[verifier::external_body]
fn bytes_from_slice<'b>(s: &'b [u8]) -> (b: Bytes<'b>)
    ensures
        bytes_content(b) == s@,
        s@.len() > 0 ==> bytes_borrowed(b),
{
    Bytes::from(s)
}

/// `From<Vec<u8>>` of `Bytes`: takes over the vector with its bytes.
#[verifier::external_body]
fn bytes_from_vec<'b>(v: Vec<u8>) -> (b: Bytes<'b>)
    ensures
        bytes_content(b) == v@,
        v@.len() > 0 ==> !bytes_borrowed(b),
{
    Bytes::from(v)
}

/// What has to be asked before a value at the address `addr` can be handed out: a transaction that
/// writes may change the page again.
pub fn dirty_check<K>(txn: TxnPtr, addr: usize) -> (call: Option<DirtyCall>) where
    K: TransactionKind,

    ensures
        call == if K::ONLY_CLEAN {
            None
        } else {
            Some(DirtyCall { txn, addr })
        },
{
    if K::ONLY_CLEAN {
        None
    } else {
        Some(DirtyCall { txn, addr })
    }
}

/// Whether a value stands on a page that may change, from the answer to [`dirty_check`].
pub open spec fn dirty<K>(err_code: libc::c_int) -> Result<bool, Error> where K: TransactionKind {
    if K::ONLY_CLEAN {
        Ok(false)
    } else {
        outcome(err_code)
    }
}

/// Hands out the value `data` of a transaction: as it stands in the memory map where its page
/// cannot change, as a copy where it can. `err_code` is the answer to [`dirty_check`]; where
/// nothing had to be asked, it is not looked at.
pub fn freeze_bytes<'b, K>(err_code: libc::c_int, data: &'b [u8]) -> (r: Result<
    Bytes<'b>,
    Error,
>) where K: TransactionKind
    ensures
        match dirty::<K>(err_code) {
            Ok(is_dirty) => r is Ok && bytes_content(r->Ok_0) == data@ && (data@.len() > 0 ==>
                bytes_borrowed(r->Ok_0) == !is_dirty),
            Err(e) => r is Err && r->Err_0 == e,
        },
        K::ONLY_CLEAN || err_code == 0 || err_code == -1 ==> r is Ok && bytes_content(r->Ok_0)
            == data@,
        (K::ONLY_CLEAN || err_code == 0) && data@.len() > 0 ==> bytes_borrowed(r->Ok_0),
        !K::ONLY_CLEAN && err_code == -1 && data@.len() > 0 ==> !bytes_borrowed(r->Ok_0),
        !K::ONLY_CLEAN && err_code != 0 && err_code != -1 ==> r is Err,
{
    let is_dirty = if K::ONLY_CLEAN {
        false
    } else {
        match mdbx_result(err_code) {
            Ok(is_dirty) => is_dirty,
            Err(e) => {
                return Err(e);
            },
        }
    };
    Ok(
        if is_dirty {
            bytes_from_vec(vstd::slice::slice_to_vec(data))
        } else {
            bytes_from_slice(data)
        },
    )
}

/// A value is taken to be dirty exactly where the engine was asked and said so, and where nothing
/// had to be asked, nothing can fail.
pub proof fn law_dirty_is_what_the_engine_says<K>(err_code: libc::c_int) where K: TransactionKind
    ensures
        dirty::<K>(err_code) == Ok::<bool, Error>(true) <==> !K::ONLY_CLEAN && err_code == -1,
        dirty::<K>(err_code) == Ok::<bool, Error>(false) <==> K::ONLY_CLEAN || err_code == 0,
        dirty::<K>(err_code) is Err ==> dirty::<K>(err_code) == outcome(err_code),
{
}

} // verus!
