//! Environments against a storage engine that is played by a small model of one.
use mdbx::{
    Bound, EnvCall, EnvPtr, Environment, EnvironmentBuilder, EnvironmentFlags, Error,
    GenericEnvironment, Geometry, GeometryInfo, Info, Mode, NoWriteMap, OpenStep, RwTxnStep,
    SetupCall, Stat, TxnCall, TxnManager, TxnManagerMessage, TxnManagerReply, TxnPtr,
};

const ENOENT: i32 = 2;
const EACCES: i32 = 13;
const RDONLY: u32 = 0x20000;

/// What is on disk at one path, and what is open.
#[derive(Default)]
struct Engine {
    exists: bool,
    read_only: bool,
    map_lower: u64,
    entries: u64,
    freed: Vec<Vec<u8>>,
    closed: Vec<EnvPtr>,
    busy: usize,
}

impl Engine {
    fn setup(&mut self, call: &SetupCall<Vec<u8>>) -> (i32, EnvPtr) {
        match call {
            SetupCall::Create => return (0, EnvPtr(0x1000)),
            SetupCall::SetGeometry { geometry, .. } => {
                if geometry.size_lower >= 0 {
                    self.map_lower = geometry.size_lower as u64;
                }
            }
            SetupCall::SetOption { .. } => {}
            SetupCall::Open { path, flags, .. } => {
                assert_eq!(path.last(), Some(&0));
                self.read_only = flags & RDONLY != 0;
                if self.read_only && !self.exists {
                    return (ENOENT, EnvPtr(0));
                }
                self.exists = true;
            }
            SetupCall::Close { env, .. } => self.closed.push(*env),
        }
        (0, EnvPtr(0))
    }

    fn open(
        &mut self,
        builder: &EnvironmentBuilder<NoWriteMap>,
    ) -> Result<GenericEnvironment<NoWriteMap>, Error> {
        let mut step = builder.open(b"/db");
        loop {
            match step {
                OpenStep::Call(call, run) => {
                    let (code, env) = self.setup(&call);
                    step = run.reply(code, env);
                }
                OpenStep::Return(result) => return result,
            }
        }
    }

    fn txn(&mut self, call: TxnCall) -> (i32, TxnPtr) {
        match call {
            TxnCall::Begin { flags: 0, .. } if self.busy > 0 => {
                self.busy -= 1;
                (-30778, TxnPtr(0))
            }
            TxnCall::Begin { flags: 0, .. } if self.read_only => (EACCES, TxnPtr(0)),
            TxnCall::Begin { .. } => (0, TxnPtr(0x2000)),
            TxnCall::Abort { .. } | TxnCall::Commit { .. } => (0, TxnPtr(0)),
        }
    }

    fn manage(&mut self, manager: TxnManager, message: TxnManagerMessage) -> TxnManagerReply {
        let call = manager.call(Some(message)).unwrap();
        let (code, txn) = self.txn(call);
        manager.reply(message, code, txn)
    }

    /// Begins a write transaction; also says how long it took, in milliseconds.
    fn begin_rw(&mut self, env: &Environment) -> (Result<TxnPtr, Error>, u64) {
        let mut waited = 0;
        let mut message = match env.begin_rw_txn_call() {
            Ok(message) => message,
            Err(e) => return (Err(e), waited),
        };
        loop {
            let reply = match self.manage(env.txn_manager().unwrap(), message) {
                TxnManagerReply::Begun(reply) => reply,
                TxnManagerReply::Ended(_) => panic!("not a reply to Begin"),
            };
            match env.begin_rw_txn(reply) {
                RwTxnStep::Retry { pause_millis, message: again } => {
                    waited += pause_millis;
                    message = again;
                }
                RwTxnStep::Done(result) => return (result.map(|t| t.txn()), waited),
            }
        }
    }

    fn begin_ro(&mut self, env: &Environment) -> Result<TxnPtr, Error> {
        let (code, txn) = self.txn(env.begin_ro_txn_call());
        env.begin_ro_txn(code, txn).map(|t| t.txn())
    }

    fn env(&self, call: EnvCall) -> i32 {
        match call {
            EnvCall::Sync { nonblock, .. } => {
                assert!(!nonblock);
                if self.read_only {
                    EACCES
                } else {
                    0
                }
            }
            _ => 0,
        }
    }

    fn stat(&self, env: &Environment) -> Result<Stat, Error> {
        let mut stat = Stat::new();
        let code = self.env(env.stat_call());
        stat.ms_psize = 4096;
        if self.entries > 0 {
            stat.ms_depth = 1;
            stat.ms_leaf_pages = 1;
        }
        stat.ms_entries = self.entries;
        env.stat(code, stat)
    }

    fn info(&self, env: &Environment) -> Result<Info, Error> {
        let mut info = Info::new();
        let code = self.env(env.info_call());
        info.mi_geo = GeometryInfo { lower: self.map_lower };
        env.info(code, info)
    }

    fn freelist(&self, env: &Environment) -> Result<Option<usize>, Error> {
        env.freelist(&self.freed.iter().map(|value| Ok(value.clone())).collect())
    }

    fn put(&mut self, env: &Environment) {
        assert!(self.begin_rw(env).0.is_ok());
        self.entries += 1;
    }

    fn clear(&mut self, env: &Environment) {
        assert!(self.begin_rw(env).0.is_ok());
        self.entries = 0;
        let mut value = 1usize.to_ne_bytes().to_vec();
        value.extend_from_slice(&[7, 0, 0, 0]);
        self.freed.push(value);
    }
}

fn read_only() -> EnvironmentFlags {
    Mode::ReadOnly.into()
}

#[test]
fn test_open() {
    let mut engine = Engine::default();

    // opening non-existent env with read-only should fail
    assert!(engine.open(Environment::new().set_flags(read_only())).is_err());

    // opening non-existent env should succeed
    assert!(engine.open(&Environment::new()).is_ok());

    // opening env with read-only should succeed
    assert!(engine.open(Environment::new().set_flags(read_only())).is_ok());

    // the one that could not be opened was closed
    assert_eq!(engine.closed, vec![EnvPtr(0x1000)]);
}

#[test]
fn test_begin_txn() {
    let mut engine = Engine::default();

    {
        // writable environment
        let env = engine.open(&Environment::new()).unwrap();

        assert!(engine.begin_rw(&env).0.is_ok());
        assert!(engine.begin_ro(&env).is_ok());
    }

    {
        // read-only environment
        let env = engine.open(Environment::new().set_flags(read_only())).unwrap();

        assert!(engine.begin_rw(&env).0.is_err());
        assert!(engine.begin_ro(&env).is_ok());
    }
}

#[test]
fn test_sync() {
    let mut engine = Engine::default();
    {
        let env = engine.open(&Environment::new()).unwrap();
        env.sync(engine.env(env.sync_call(true))).unwrap();
    }
    {
        let env = engine.open(Environment::new().set_flags(read_only())).unwrap();
        env.sync(engine.env(env.sync_call(true))).unwrap_err();
    }
}

#[test]
fn test_stat() {
    let mut engine = Engine::default();
    let env = engine.open(&Environment::new()).unwrap();

    // Stats should be empty initially.
    let stat = engine.stat(&env).unwrap();
    assert_eq!(stat.page_size(), 4096);
    assert_eq!(stat.depth(), 0);
    assert_eq!(stat.branch_pages(), 0);
    assert_eq!(stat.leaf_pages(), 0);
    assert_eq!(stat.overflow_pages(), 0);
    assert_eq!(stat.entries(), 0);

    // Write a few small values.
    for _ in 0..64 {
        engine.put(&env);
    }

    // Stats should now reflect inserted values.
    let stat = engine.stat(&env).unwrap();
    assert_eq!(stat.page_size(), 4096);
    assert_eq!(stat.depth(), 1);
    assert_eq!(stat.branch_pages(), 0);
    assert_eq!(stat.leaf_pages(), 1);
    assert_eq!(stat.overflow_pages(), 0);
    assert_eq!(stat.entries(), 64);
}

#[test]
fn test_info() {
    let map_size = 1024 * 1024;
    let mut engine = Engine::default();
    let env = engine
        .open(Environment::new().set_geometry(Geometry {
            size: Some((Bound::Included(map_size), Bound::Unbounded)),
            ..Default::default()
        }))
        .unwrap();

    let info = engine.info(&env).unwrap();
    assert_eq!(info.geometry().min(), map_size as u64);
    assert_eq!(info.num_readers(), 0);
}

#[test]
fn test_freelist() {
    let mut engine = Engine::default();
    let env = engine.open(&Environment::new()).unwrap();

    let mut freelist = engine.freelist(&env).unwrap().unwrap();
    assert_eq!(freelist, 0);

    // Write a few small values.
    for _ in 0..64 {
        engine.put(&env);
    }
    engine.clear(&env);

    // Freelist should not be empty after the database was cleared.
    freelist = engine.freelist(&env).unwrap().unwrap();
    assert!(freelist > 0);
}

#[test]
fn write_transaction_waits_while_busy() {
    let mut engine = Engine::default();
    let env = engine.open(&Environment::new()).unwrap();
    engine.busy = 3;
    assert_eq!(engine.begin_rw(&env), (Ok(TxnPtr(0x2000)), 750));
    assert_eq!(engine.begin_rw(&env), (Ok(TxnPtr(0x2000)), 0));
}

#[test]
fn used_and_free_pages_add_up() {
    let mut engine = Engine::default();
    let env = engine.open(&Environment::new()).unwrap();
    engine.clear(&env);
    engine.clear(&env);
    let mut info = engine.info(&env).unwrap();
    info.mi_mapsize = 40960;
    info.mi_last_pgno = 6;
    let stat = engine.stat(&env).unwrap();
    let freelist = engine.freelist(&env).unwrap().unwrap();
    let last_pgno = info.last_pgno() + 1; // pgno is 0 based.
    let total_pgs = info.map_size() / stat.page_size() as usize;
    let pgs_in_use = last_pgno - freelist;
    let pgs_free = total_pgs - pgs_in_use;
    assert_eq!((pgs_in_use, pgs_free), (5, 5));
}
