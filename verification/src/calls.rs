use vstd::prelude::*;

verus! {

/// Address of an environment of the storage engine.
#[derive(Clone, Copy, Debug, PartialEq, Eq, Structural)]
pub struct EnvPtr(pub usize);

/// Address of a transaction of the storage engine; 0 stands for no transaction.
#[derive(Clone, Copy, Debug, PartialEq, Eq, Structural)]
pub struct TxnPtr(pub usize);

/// Environment option: the number of named databases.
pub const MDBX_OPT_MAX_DB: libc::c_uint = 0;

/// Environment option: the number of reader slots.
pub const MDBX_OPT_MAX_READERS: libc::c_uint = 1;

/// A size parameter that is left to the storage engine.
pub const UNSET: isize = -1;

/// The size parameters of an environment, as the storage engine takes them: each is a number or
/// [`UNSET`].
#[derive(Clone, Copy, Debug, PartialEq, Eq, Structural)]
pub struct GeometryArgs {
    pub size_lower: isize,
    pub size_now: isize,
    pub size_upper: isize,
    pub growth_step: isize,
    pub shrink_threshold: isize,
    /// 0 asks for the smallest page size that is possible.
    pub page_size: isize,
}

/// A call that opening an environment makes; `P` is the type of the path.
#[derive(Debug)]
pub enum SetupCall<P> {
    /// Make an environment that is not open yet. The answer carries its address.
    Create,
    SetGeometry { env: EnvPtr, geometry: GeometryArgs },
    SetOption { env: EnvPtr, option: libc::c_uint, value: u64 },
    /// Open the environment. The path ends with a null character.
    Open { env: EnvPtr, path: P, flags: libc::c_uint, mode: u32 },
    /// Dispose of the environment. Its answer is not looked at.
    Close { env: EnvPtr, dont_sync: bool },
}

impl View for SetupCall<Vec<u8>> {
    type V = SetupCall<Seq<u8>>;

    open spec fn view(&self) -> SetupCall<Seq<u8>> {
        match *self {
            SetupCall::Create => SetupCall::Create,
            SetupCall::SetGeometry { env, geometry } => SetupCall::SetGeometry { env, geometry },
            SetupCall::SetOption { env, option, value } => SetupCall::SetOption {
                env,
                option,
                value,
            },
            SetupCall::Open { env, path, flags, mode } => SetupCall::Open {
                env,
                path: path@,
                flags,
                mode,
            },
            SetupCall::Close { env, dont_sync } => SetupCall::Close { env, dont_sync },
        }
    }
}

/// A call on an environment that is open.
#[derive(Clone, Copy, Debug, PartialEq, Eq, Structural)]
pub enum EnvCall {
    Sync { env: EnvPtr, force: bool, nonblock: bool },
    Stat { env: EnvPtr, txn: TxnPtr },
    Info { env: EnvPtr, txn: TxnPtr },
    Close { env: EnvPtr, dont_sync: bool },
}

/// A call that begins or ends a transaction.
#[derive(Clone, Copy, Debug, PartialEq, Eq, Structural)]
pub enum TxnCall {
    /// The answer carries the address of the new transaction.
    Begin { env: EnvPtr, parent: TxnPtr, flags: libc::c_uint },
    Abort { txn: TxnPtr },
    Commit { txn: TxnPtr },
}

/// The question whether the page at `addr` was changed by `txn`.
#[derive(Clone, Copy, Debug, PartialEq, Eq, Structural)]
pub struct DirtyCall {
    pub txn: TxnPtr,
    pub addr: usize,
}

/// What the contracts say of a call, they say of the very values in it.
pub proof fn law_call_view_is_faithful(call: SetupCall<Vec<u8>>)
    ensures
        call is Create <==> call@ is Create,
        call matches SetupCall::SetGeometry { env, geometry } ==> call@ == (
        SetupCall::<Seq<u8>>::SetGeometry { env, geometry }),
        call matches SetupCall::SetOption { env, option, value } ==> call@ == (
        SetupCall::<Seq<u8>>::SetOption { env, option, value }),
        call matches SetupCall::Open { env, path, flags, mode } ==> call@ == (
        SetupCall::<Seq<u8>>::Open { env, path: path@, flags, mode }),
        call matches SetupCall::Close { env, dont_sync } ==> call@ == (
        SetupCall::<Seq<u8>>::Close { env, dont_sync }),
{
}

} // verus!
