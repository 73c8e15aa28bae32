use crate::calls::{EnvCall, EnvPtr, GeometryArgs, SetupCall, TxnCall, TxnPtr, UNSET};
use crate::error::{mdbx_result, outcome, Error};
use crate::flags::{default_flags, EnvironmentFlags, Mode, MDBX_ENV_DEFAULTS, MDBX_WRITEMAP};
use crate::manager::{begin_result, begun, TxnManager, TxnManagerMessage};
use crate::opening::{settings_of, OpenRun, OpenStep, OpenView, Settings, StageView, StepView};
use crate::private::Sealed;
use crate::stat::{Info, Stat};
use crate::transaction::{law_transaction_kinds, Transaction, TransactionKind, RO, RW};
use crate::word::{signed_word, to_signed};
use std::fmt::Debug;
use std::marker::PhantomData;
use vstd::prelude::*;

verus! {

/// How an environment maps its pages into memory.
pub trait EnvironmentKind: Sealed + Debug + 'static {
    /// The flags that such an environment is opened with, besides the chosen ones.
    const EXTRA_FLAGS: libc::c_uint;
}

/// Kind of the environments whose memory map is read-only.
#[derive(Debug)]
pub struct NoWriteMap;

/// Kind of the environments whose memory map is writable.
#[derive(Debug)]
pub struct WriteMap;

impl Sealed for NoWriteMap {

}

impl Sealed for WriteMap {

}

impl EnvironmentKind for NoWriteMap {
    const EXTRA_FLAGS: libc::c_uint = MDBX_ENV_DEFAULTS;
}

impl EnvironmentKind for WriteMap {
    const EXTRA_FLAGS: libc::c_uint = MDBX_WRITEMAP;
}

/// What is fixed for each kind of environment.
pub proof fn law_environment_kinds()
    ensures
        NoWriteMap::EXTRA_FLAGS == MDBX_ENV_DEFAULTS == 0,
        WriteMap::EXTRA_FLAGS == MDBX_WRITEMAP == 0x80000,
{
}

/// An environment with a read-only memory map.
pub type Environment = GenericEnvironment<NoWriteMap>;

/// An environment supports multiple databases, all residing in the same shared-memory map.
pub struct GenericEnvironment<E> where E: EnvironmentKind {
    env: EnvPtr,
    txn_manager: Option<TxnManager>,
    _marker: PhantomData<E>,
}

/// What there is to know of an environment that is open.
pub struct EnvironmentView {
    pub env: EnvPtr,
    /// Present where write transactions can be begun.
    pub txn_manager: Option<TxnManager>,
}

impl<E> View for GenericEnvironment<E> where E: EnvironmentKind {
    type V = EnvironmentView;

    closed spec fn view(&self) -> EnvironmentView {
        EnvironmentView { env: self.env, txn_manager: self.txn_manager }
    }
}

/// How long to wait before a write transaction is asked for again, in milliseconds.
pub const BUSY_PAUSE_MILLIS: u64 = 250;

/// What follows from a reply to the request for a write transaction.
pub enum RwTxnStep<'env, E> where E: EnvironmentKind {
    /// Wait, then send the message again.
    Retry { pause_millis: u64, message: TxnManagerMessage },
    /// The request is answered.
    Done(Result<Transaction<'env, RW, E>, Error>),
}

/// The message that asks for a write transaction.
pub open spec fn rw_request() -> TxnManagerMessage {
    TxnManagerMessage::Begin { parent: TxnPtr(0), flags: RW::OPEN_FLAGS }
}

/// The first step towards a write transaction: the message to send, or the error where there is
/// nobody to send it to.
pub open spec fn rw_first(e: EnvironmentView) -> Result<TxnManagerMessage, Error> {
    match e.txn_manager {
        Some(_) => Ok(rw_request()),
        None => Err(Error::Access),
    }
}

/// What a reply to the request for a write transaction settles: everything but `Busy` is final.
pub open spec fn rw_settled(reply: Result<TxnPtr, Error>) -> Option<Result<TxnPtr, Error>> {
    if reply is Err && reply->Err_0 is Busy {
        None
    } else {
        Some(reply)
    }
}

/// A transaction of environment `e` where the begin succeeded, its error where it did not.
pub open spec fn began<'env, K, E>(
    r: Result<Transaction<'env, K, E>, Error>,
    e: GenericEnvironment<E>,
    reply: Result<TxnPtr, Error>,
) -> bool where K: TransactionKind, E: EnvironmentKind {
    match reply {
        Ok(ptr) => r is Ok && r->Ok_0.ptr() == ptr && r->Ok_0.environment() == e,
        Err(error) => r is Err && r->Err_0 == error,
    }
}

impl<E> GenericEnvironment<E> where E: EnvironmentKind {
    /// Creates a new builder for specifying options for opening an environment.
    pub fn new() -> (builder: EnvironmentBuilder<E>)
        ensures
            builder@ == (BuilderView {
                flags: default_flags(),
                max_readers: None,
                max_dbs: None,
                geometry: None,
            }),
    {
        EnvironmentBuilder {
            flags: EnvironmentFlags::default(),
            max_readers: None,
            max_dbs: None,
            geometry: None,
            _marker: PhantomData,
        }
    }

    /// An environment that has just been opened.
    pub(crate) fn opened(env: EnvPtr, txn_manager: Option<TxnManager>) -> (e: Self)
        ensures
            e@ == (EnvironmentView { env, txn_manager }),
    {
        GenericEnvironment { env, txn_manager, _marker: PhantomData }
    }

    /// Returns the address of the underlying environment.
    pub fn env(&self) -> (env: EnvPtr)
        ensures
            env == self@.env,
    {
        self.env
    }

    /// The manager of the write transactions, where the environment has one.
    pub fn txn_manager(&self) -> (manager: Option<TxnManager>)
        ensures
            manager == self@.txn_manager,
    {
        self.txn_manager
    }

    /// The call that begins a read-only transaction.
    pub fn begin_ro_txn_call(&self) -> (call: TxnCall)
        ensures
            call == (TxnCall::Begin {
                env: self@.env,
                parent: TxnPtr(0),
                flags: RO::OPEN_FLAGS,
            }),
            call == (TxnCall::Begin { env: self@.env, parent: TxnPtr(0), flags: 0x20000 }),
    {
        proof {
            law_transaction_kinds();
        }
        TxnCall::Begin { env: self.env, parent: TxnPtr(0), flags: RO::OPEN_FLAGS }
    }

    /// Create a read-only transaction for use with the environment, from the answer to
    /// [`begin_ro_txn_call`](Self::begin_ro_txn_call).
    pub fn begin_ro_txn(&self, err_code: libc::c_int, txn: TxnPtr) -> (r: Result<
        Transaction<'_, RO, E>,
        Error,
    >)
        ensures
            began(r, *self, begun(err_code, txn)),
            r is Ok <==> err_code == 0 || err_code == -1,
            r matches Ok(t) ==> t.ptr() == txn && t.environment() == *self,
            r matches Err(e) ==> Err::<bool, Error>(e) == outcome(err_code),
    {
        match begin_result(err_code, txn) {
            Ok(ptr) => Ok(Transaction::new_from_ptr(self, ptr)),
            Err(e) => Err(e),
        }
    }

    /// The message that asks the transaction manager for a read-write transaction. An environment
    /// without a manager has no write transactions.
    pub fn begin_rw_txn_call(&self) -> (r: Result<TxnManagerMessage, Error>)
        ensures
            r == rw_first(self@),
            r is Ok <==> self@.txn_manager is Some,
            r matches Ok(message) ==> message == (TxnManagerMessage::Begin {
                parent: TxnPtr(0),
                flags: 0,
            }),
            r matches Err(e) ==> e == Error::Access,
    {
        proof {
            law_transaction_kinds();
        }
        match self.txn_manager {
            Some(_) => Ok(TxnManagerMessage::Begin { parent: TxnPtr(0), flags: RW::OPEN_FLAGS }),
            None => Err(Error::Access),
        }
    }

    /// Create a read-write transaction for use with the environment, from the manager's reply to
    /// [`begin_rw_txn_call`](Self::begin_rw_txn_call). While another read-write transaction is open
    /// on the environment, the message has to be sent again after a pause.
    pub fn begin_rw_txn(&self, reply: Result<TxnPtr, Error>) -> (step: RwTxnStep<'_, E>)
        ensures
            match rw_settled(reply) {
                None => step is Retry && step->pause_millis == BUSY_PAUSE_MILLIS && step->message
                    == rw_request(),
                Some(settled) => step is Done && began(step->Done_0, *self, settled),
            },
            step is Retry <==> reply == Err::<TxnPtr, Error>(Error::Busy),
            step is Retry ==> step->pause_millis == 250 && step->message == (
            TxnManagerMessage::Begin { parent: TxnPtr(0), flags: 0 }),
            reply matches Ok(ptr) ==> step is Done && step->Done_0 is Ok && step->Done_0->Ok_0.ptr()
                == ptr && step->Done_0->Ok_0.environment() == *self,
            reply matches Err(e) ==> e != Error::Busy ==> step is Done && step->Done_0 is Err
                && step->Done_0->Err_0 == e,
    {
        proof {
            law_transaction_kinds();
        }
        match reply {
            Err(Error::Busy) => RwTxnStep::Retry {
                pause_millis: BUSY_PAUSE_MILLIS,
                message: TxnManagerMessage::Begin { parent: TxnPtr(0), flags: RW::OPEN_FLAGS },
            },
            Err(e) => RwTxnStep::Done(Err(e)),
            Ok(ptr) => RwTxnStep::Done(Ok(Transaction::new_from_ptr(self, ptr))),
        }
    }

    /// The call that flushes the environment data buffers to disk.
    pub fn sync_call(&self, force: bool) -> (call: EnvCall)
        ensures
            call == (EnvCall::Sync { env: self@.env, force, nonblock: false }),
    {
        EnvCall::Sync { env: self.env, force, nonblock: false }
    }

    /// Flush the environment data buffers to disk: the answer to [`sync_call`](Self::sync_call).
    pub fn sync(&self, err_code: libc::c_int) -> (r: Result<bool, Error>)
        ensures
            r == outcome(err_code),
    {
        mdbx_result(err_code)
    }

    /// The call that fills in statistics, starting from [`Stat::new`].
    pub fn stat_call(&self) -> (call: EnvCall)
        ensures
            call == (EnvCall::Stat { env: self@.env, txn: TxnPtr(0) }),
    {
        EnvCall::Stat { env: self.env, txn: TxnPtr(0) }
    }

    /// Retrieves statistics about this environment, from the answer to
    /// [`stat_call`](Self::stat_call).
    pub fn stat(&self, err_code: libc::c_int, stat: Stat) -> (r: Result<Stat, Error>)
        ensures
            r == match outcome(err_code) {
                Ok(_) => Ok(stat),
                Err(e) => Err(e),
            },
    {
        match mdbx_result(err_code) {
            Ok(_) => Ok(stat),
            Err(e) => Err(e),
        }
    }

    /// The call that fills in environment information, starting from [`Info::new`].
    pub fn info_call(&self) -> (call: EnvCall)
        ensures
            call == (EnvCall::Info { env: self@.env, txn: TxnPtr(0) }),
    {
        EnvCall::Info { env: self.env, txn: TxnPtr(0) }
    }

    /// Retrieves info about this environment, from the answer to [`info_call`](Self::info_call).
    pub fn info(&self, err_code: libc::c_int, info: Info) -> (r: Result<Info, Error>)
        ensures
            r == match outcome(err_code) {
                Ok(_) => Ok(info),
                Err(e) => Err(e),
            },
    {
        match mdbx_result(err_code) {
            Ok(_) => Ok(info),
            Err(e) => Err(e),
        }
    }

    /// The call that disposes of the environment once it is no longer used. The data buffers are
    /// flushed first.
    pub fn close_call(&self) -> (call: EnvCall)
        ensures
            call == (EnvCall::Close { env: self@.env, dont_sync: false }),
    {
        EnvCall::Close { env: self.env, dont_sync: false }
    }
}

///////////////////////////////////////////////////////////////////////////////////////////////////
//// Environment Builder
///////////////////////////////////////////////////////////////////////////////////////////////////
/// Size of a database page.
#[derive(Clone, Copy, Debug, PartialEq, Eq, Structural)]
pub enum PageSize {
    MinimalAcceptable,
    Exact(usize),
}

/// One end of a range of sizes.
#[derive(Clone, Copy, Debug, PartialEq, Eq, Structural)]
pub enum Bound {
    Included(usize),
    Excluded(usize),
    Unbounded,
}

/// The size-related parameters of an environment; `R` is the type of a range of sizes.
#[derive(Clone, Debug, PartialEq, Eq)]
pub struct Geometry<R> {
    pub size: Option<R>,
    pub growth_step: Option<isize>,
    pub shrink_threshold: Option<isize>,
    pub page_size: Option<PageSize>,
}

impl<R> Default for Geometry<R> {
    fn default() -> (g: Self)
        ensures
            g == (Geometry::<R> {
                size: None,
                growth_step: None,
                shrink_threshold: None,
                page_size: None,
            }),
    {
        Geometry { size: None, growth_step: None, shrink_threshold: None, page_size: None }
    }
}

/// The size that a bound names, whether or not the range includes it.
pub open spec fn bound_size(bound: Bound) -> Option<usize> {
    match bound {
        Bound::Included(v) => Some(v),
        Bound::Excluded(v) => Some(v),
        Bound::Unbounded => None,
    }
}

fn convert_bound(bound: Bound) -> (size: Option<usize>)
    ensures
        size == bound_size(bound),
{
    match bound {
        Bound::Included(v) | Bound::Excluded(v) => Some(v),
        Bound::Unbounded => None,
    }
}

/// The smallest and the largest size of the memory map, where they are given.
pub type Sizes = (Option<usize>, Option<usize>);

/// The geometry with each bound replaced by the size that it names.
pub open spec fn bounded(geometry: Geometry<(Bound, Bound)>) -> Geometry<Sizes> {
    Geometry {
        size: match geometry.size {
            Some(range) => Some((bound_size(range.0), bound_size(range.1))),
            None => None,
        },
        growth_step: geometry.growth_step,
        shrink_threshold: geometry.shrink_threshold,
        page_size: geometry.page_size,
    }
}

/// A size as the storage engine takes it.
pub open spec fn size_arg(size: Option<usize>) -> isize {
    match size {
        Some(size) => signed_word(size),
        None => UNSET,
    }
}

/// A parameter as the storage engine takes it.
pub open spec fn step_arg(step: Option<isize>) -> isize {
    match step {
        Some(step) => step,
        None => UNSET,
    }
}

/// The parameters as the storage engine takes them. The present size is never chosen.
pub open spec fn geometry_args(geometry: Geometry<Sizes>) -> GeometryArgs {
    GeometryArgs {
        size_lower: match geometry.size {
            Some(size) => size_arg(size.0),
            None => UNSET,
        },
        size_now: UNSET,
        size_upper: match geometry.size {
            Some(size) => size_arg(size.1),
            None => UNSET,
        },
        growth_step: step_arg(geometry.growth_step),
        shrink_threshold: step_arg(geometry.shrink_threshold),
        page_size: match geometry.page_size {
            None => UNSET,
            Some(PageSize::MinimalAcceptable) => 0,
            Some(PageSize::Exact(size)) => signed_word(size),
        },
    }
}

fn make_geometry_args(geometry: &Geometry<Sizes>) -> (args: GeometryArgs)
    ensures
        args == geometry_args(*geometry),
{
    let mut min_size: isize = UNSET;
    let mut max_size: isize = UNSET;
    if let Some(size) = geometry.size {
        if let Some(size) = size.0 {
            min_size = to_signed(size);
        }
        if let Some(size) = size.1 {
            max_size = to_signed(size);
        }
    }
    GeometryArgs {
        size_lower: min_size,
        size_now: UNSET,
        size_upper: max_size,
        growth_step: geometry.growth_step.unwrap_or(UNSET),
        shrink_threshold: geometry.shrink_threshold.unwrap_or(UNSET),
        page_size: match geometry.page_size {
            None => UNSET,
            Some(PageSize::MinimalAcceptable) => 0,
            Some(PageSize::Exact(size)) => to_signed(size),
        },
    }
}

/// Options for opening or creating an environment.
#[derive(Debug)]
pub struct EnvironmentBuilder<E> where E: EnvironmentKind {
    flags: EnvironmentFlags,
    max_readers: Option<libc::c_uint>,
    max_dbs: Option<usize>,
    geometry: Option<Geometry<Sizes>>,
    _marker: PhantomData<E>,
}

/// The chosen options.
pub struct BuilderView {
    pub flags: EnvironmentFlags,
    pub max_readers: Option<libc::c_uint>,
    pub max_dbs: Option<usize>,
    pub geometry: Option<Geometry<Sizes>>,
}

impl<E> View for EnvironmentBuilder<E> where E: EnvironmentKind {
    type V = BuilderView;

    closed spec fn view(&self) -> BuilderView {
        BuilderView {
            flags: self.flags,
            max_readers: self.max_readers,
            max_dbs: self.max_dbs,
            geometry: self.geometry,
        }
    }
}

impl<E> Clone for EnvironmentBuilder<E> where E: EnvironmentKind {
    fn clone(&self) -> (r: Self)
        ensures
            r@ == self@,
    {
        EnvironmentBuilder {
            flags: self.flags,
            max_readers: self.max_readers,
            max_dbs: self.max_dbs,
            geometry: match &self.geometry {
                Some(g) => Some(
                    Geometry {
                        size: g.size,
                        growth_step: g.growth_step,
                        shrink_threshold: g.shrink_threshold,
                        page_size: g.page_size,
                    },
                ),
                None => None,
            },
            _marker: PhantomData,
        }
    }
}

/// The permissions that the files of a new environment get on UNIX.
pub const DEFAULT_PERMISSIONS: u32 = 0o644;

impl<E> EnvironmentBuilder<E> where E: EnvironmentKind {
    /// Open an environment. The first step is to make it; what follows from each answer,
    /// [`OpenRun::reply`] says.
    ///
    /// On UNIX, the database files will be opened with 644 permissions. An environment that can be
    /// written to gets a transaction manager.
    ///
    /// The path may not contain the null character, Windows UNC (Uniform Naming Convention)
    /// paths are not supported either.
    pub fn open(&self, path: &[u8]) -> (step: OpenStep<E>)
        ensures
            step@ == open_start::<E>(self@, path@, DEFAULT_PERMISSIONS, self@.flags.mode
                is ReadWrite),
            step@ == open_start::<E>(self@, path@, 0o644, self@.flags.mode is ReadWrite),
    {
        let manager = match self.flags.mode {
            Mode::ReadWrite { .. } => true,
            Mode::ReadOnly => false,
        };
        OpenStep::Call(
            SetupCall::Create,
            OpenRun::new(self.settings(path, DEFAULT_PERMISSIONS), manager),
        )
    }

    /// Open an environment with the provided UNIX permissions, without a transaction manager. The
    /// first step is to make it; what follows from each answer, [`OpenRun::reply`] says.
    ///
    /// On Windows, the permissions will be ignored.
    ///
    /// The path may not contain the null character, Windows UNC (Uniform Naming Convention)
    /// paths are not supported either.
    pub fn open_with_permissions(&self, path: &[u8], mode: u32) -> (step: OpenStep<E>)
        ensures
            step@ == open_start::<E>(self@, path@, mode, false),
    {
        OpenStep::Call(
            SetupCall::Create,
            OpenRun::new(self.settings(path, mode), false),
        )
    }

    /// All that opening an environment at `path` needs to know.
    fn settings(&self, path: &[u8], mode: u32) -> (settings: Settings)
        ensures
            settings@ == settings_of::<E>(self@, path@, mode),
    {
        Settings {
            geometry: match &self.geometry {
                Some(geometry) => Some(make_geometry_args(geometry)),
                None => None,
            },
            max_dbs: match self.max_dbs {
                Some(max_dbs) => Some(max_dbs as u64),
                None => None,
            },
            max_readers: match self.max_readers {
                Some(max_readers) => Some(max_readers as u64),
                None => None,
            },
            path: vstd::slice::slice_to_vec(path),
            flags: self.flags.make_flags() | E::EXTRA_FLAGS,
            mode,
        }
    }

    /// Sets the provided options in the environment.
    pub fn set_flags(&mut self, flags: EnvironmentFlags) -> (r: &mut Self)
        ensures
            r@ == (BuilderView { flags, ..old(self)@ }),
            *final(self) == *final(r),
    {
        self.flags = flags;
        self
    }

    /// Sets the maximum number of threads or reader slots for the environment.
    ///
    /// This defines the number of slots in the lock table that is used to track readers in the
    /// the environment. The default is 126. Starting a read-only transaction normally ties a lock
    /// table slot to the [Transaction] object until it or the [GenericEnvironment] object is
    /// destroyed.
    pub fn set_max_readers(&mut self, max_readers: libc::c_uint) -> (r: &mut Self)
        ensures
            r@ == (BuilderView { max_readers: Some(max_readers), ..old(self)@ }),
            *final(self) == *final(r),
    {
        self.max_readers = Some(max_readers);
        self
    }

    /// Sets the maximum number of named databases for the environment.
    ///
    /// This function is only needed if multiple databases will be used in the
    /// environment. Simpler applications that use the environment as a single
    /// unnamed database can ignore this option.
    ///
    /// Currently a moderate number of slots are cheap but a huge number gets
    /// expensive: 7-120 words per transaction, and every time a database is opened
    /// there is a linear search of the opened slots.
    pub fn set_max_dbs(&mut self, max_dbs: usize) -> (r: &mut Self)
        ensures
            r@ == (BuilderView { max_dbs: Some(max_dbs), ..old(self)@ }),
            *final(self) == *final(r),
    {
        self.max_dbs = Some(max_dbs);
        self
    }

    /// Set all size-related parameters of environment, including page size and the min/max size of
    /// the memory map.
    pub fn set_geometry(&mut self, geometry: Geometry<(Bound, Bound)>) -> (r: &mut Self)
        ensures
            r@ == (BuilderView { geometry: Some(bounded(geometry)), ..old(self)@ }),
            r@.geometry matches Some(kept) && {
                &&& kept.growth_step == geometry.growth_step
                &&& kept.shrink_threshold == geometry.shrink_threshold
                &&& kept.page_size == geometry.page_size
                &&& kept.size is Some <==> geometry.size is Some
            },
            *final(self) == *final(r),
    {
        self.geometry = Some(
            Geometry {
                size: match geometry.size {
                    Some(range) => Some((convert_bound(range.0), convert_bound(range.1))),
                    None => None,
                },
                growth_step: geometry.growth_step,
                shrink_threshold: geometry.shrink_threshold,
                page_size: geometry.page_size,
            },
        );
        self
    }
}

/// The first step of opening an environment.
pub open spec fn open_start<E>(
    builder: BuilderView,
    path: Seq<u8>,
    mode: u32,
    manager: bool,
) -> StepView where E: EnvironmentKind {
    StepView::Call(
        SetupCall::Create,
        OpenView { stage: StageView::Creating(settings_of::<E>(builder, path, mode)), manager },
    )
}

} // verus!
