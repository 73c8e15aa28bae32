use vstd::prelude::*;

verus! {

/// Status code of a call that succeeded.
pub const MDBX_SUCCESS: libc::c_int = 0;

/// Status code of a call that succeeded with a positive answer.
pub const MDBX_RESULT_TRUE: libc::c_int = -1;

/// Status code: another write transaction is running.
pub const MDBX_BUSY: libc::c_int = -30778;

/// Status code: the database is damaged.
pub const MDBX_CORRUPTED: libc::c_int = -30796;

/// Status code: access denied, `EACCES` of POSIX.
pub const MDBX_EACCESS: libc::c_int = 13;

/// Status code: invalid argument, `EINVAL` of POSIX.
pub const MDBX_EINVAL: libc::c_int = 22;

/// What can go wrong with an environment.
#[derive(Clone, Copy, Debug, PartialEq, Eq, Structural)]
pub enum Error {
    /// The environment does not permit the operation.
    Access,
    /// Another write transaction is running; trying again later may help.
    Busy,
    /// The database is damaged.
    Corrupted,
    /// An argument is not acceptable.
    Invalid,
    /// Any other status code of the storage engine.
    Other(libc::c_int),
}

/// The error that a failing status code stands for.
pub open spec fn error_of(err_code: libc::c_int) -> Error {
    if err_code == MDBX_EACCESS {
        Error::Access
    } else if err_code == MDBX_BUSY {
        Error::Busy
    } else if err_code == MDBX_CORRUPTED {
        Error::Corrupted
    } else if err_code == MDBX_EINVAL {
        Error::Invalid
    } else {
        Error::Other(err_code)
    }
}

/// What a status code says: the answer of a call that succeeded, or the error of one that failed.
pub open spec fn outcome(err_code: libc::c_int) -> Result<bool, Error> {
    if err_code == MDBX_SUCCESS {
        Ok(false)
    } else if err_code == MDBX_RESULT_TRUE {
        Ok(true)
    } else {
        Err(error_of(err_code))
    }
}

impl Error {
    /// The error that a failing status code stands for.
    pub fn from_err_code(err_code: libc::c_int) -> (e: Error)
        ensures
            e == error_of(err_code),
    {
        if err_code == MDBX_EACCESS {
            Error::Access
        } else if err_code == MDBX_BUSY {
            Error::Busy
        } else if err_code == MDBX_CORRUPTED {
            Error::Corrupted
        } else if err_code == MDBX_EINVAL {
            Error::Invalid
        } else {
            Error::Other(err_code)
        }
    }
}

/// Turns a status code of the storage engine into a result.
pub fn mdbx_result(err_code: libc::c_int) -> (r: Result<bool, Error>)
    ensures
        r == outcome(err_code),
        r is Ok <==> err_code == 0 || err_code == -1,
        r matches Ok(answer) ==> (answer <==> err_code == -1),
{
    if err_code == MDBX_SUCCESS {
        Ok(false)
    } else if err_code == MDBX_RESULT_TRUE {
        Ok(true)
    } else {
        Err(Error::from_err_code(err_code))
    }
}

/// A status code reports success exactly where it is 0 or -1, a positive answer exactly where it is
/// -1; of all others, four have a name of their own and the rest are kept as they are.
pub proof fn law_status_codes(err_code: libc::c_int)
    ensures
        outcome(err_code) is Ok <==> err_code == 0 || err_code == -1,
        outcome(err_code) == Ok::<bool, Error>(true) <==> err_code == -1,
        outcome(err_code) == Err::<bool, Error>(Error::Access) <==> err_code == 13,
        outcome(err_code) == Err::<bool, Error>(Error::Invalid) <==> err_code == 22,
        outcome(err_code) == Err::<bool, Error>(Error::Busy) <==> err_code == -30778,
        outcome(err_code) == Err::<bool, Error>(Error::Corrupted) <==> err_code == -30796,
        forall|other: libc::c_int|
            outcome(err_code) == Err::<bool, Error>(Error::Other(other)) ==> other == err_code,
        outcome(err_code) is Err ==> error_of(err_code) == outcome(err_code)->Err_0,
        error_of(err_code) is Access <==> err_code == 13,
        error_of(err_code) is Invalid <==> err_code == 22,
        error_of(err_code) is Busy <==> err_code == -30778,
        error_of(err_code) is Corrupted <==> err_code == -30796,
        error_of(err_code) matches Error::Other(other) ==> other == err_code,
{
}

/// Two failing status codes that differ stand for different errors, so no failure is mistaken for
/// another one.
pub proof fn law_errors_are_distinct(a: libc::c_int, b: libc::c_int)
    requires
        outcome(a) is Err,
        outcome(b) is Err,
    ensures
        outcome(a) == outcome(b) ==> a == b,
{
}

} // verus!
