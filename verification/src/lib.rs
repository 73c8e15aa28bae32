//! Memory-mapped key-value environments: how an MDBX environment is configured, opened, queried
//! and closed, and how its transactions are started.
//!
//! The storage engine itself is a C library. This crate holds every decision around it and none of
//! the calls into it: an operation is described as a call to perform ([`SetupCall`], [`EnvCall`],
//! [`TxnCall`]), the caller performs it and hands back what the engine answered, and the crate says
//! what follows from the answer.
pub mod calls;
pub mod environment;
pub mod error;
pub mod flags;
pub mod freelist;
pub mod laws;
pub mod manager;
pub mod opening;
mod private;
pub mod stat;
pub mod transaction;
pub mod util;
pub mod word;

pub use calls::{DirtyCall, EnvCall, EnvPtr, GeometryArgs, SetupCall, TxnCall, TxnPtr};
pub use environment::{
    Bound, Environment, EnvironmentBuilder, EnvironmentKind, GenericEnvironment, Geometry,
    NoWriteMap, PageSize, RwTxnStep, WriteMap,
};
pub use error::{mdbx_result, Error};
pub use flags::{EnvironmentFlags, Mode, SyncMode};
pub use manager::{TxnManager, TxnManagerMessage, TxnManagerReply};
pub use opening::{OpenRun, OpenStep};
pub use stat::{GeometryInfo, Info, Stat};
pub use transaction::{Transaction, TransactionKind, RO, RW};
pub use util::{dirty_check, freeze_bytes};
