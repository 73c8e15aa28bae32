use mdbx::{
    dirty_check, freeze_bytes, mdbx_result, DirtyCall, EnvCall, EnvPtr, Environment, Error,
    GenericEnvironment, GeometryInfo, Info, NoWriteMap, OpenStep, RwTxnStep, Stat, Transaction,
    TxnCall, TxnManager, TxnManagerMessage, TxnManagerReply, TxnPtr, RO, RW,
};

fn environment() -> GenericEnvironment<NoWriteMap> {
    match Environment::new().open(b"p") {
        OpenStep::Call(_, run) => match run.reply(0, EnvPtr(64)) {
            OpenStep::Call(_, run) => match run.reply(0, EnvPtr(0)) {
                OpenStep::Return(result) => result.ok().unwrap(),
                OpenStep::Call(..) => panic!("more calls"),
            },
            OpenStep::Return(_) => panic!("not opened"),
        },
        OpenStep::Return(_) => panic!("not made"),
    }
}

#[test]
fn status_codes() {
    assert_eq!(mdbx_result(0), Ok(false));
    assert_eq!(mdbx_result(-1), Ok(true));
    assert_eq!(mdbx_result(13), Err(Error::Access));
    assert_eq!(mdbx_result(22), Err(Error::Invalid));
    assert_eq!(mdbx_result(-30778), Err(Error::Busy));
    assert_eq!(mdbx_result(-30796), Err(Error::Corrupted));
    assert_eq!(mdbx_result(-2), Err(Error::Other(-2)));
    assert_eq!(Error::from_err_code(5), Error::Other(5));
}

#[test]
fn environment_calls() {
    let env = environment();
    let none = TxnPtr(0);
    assert_eq!(env.env(), EnvPtr(64));
    assert_eq!(
        env.sync_call(false),
        EnvCall::Sync { env: EnvPtr(64), force: false, nonblock: false }
    );
    assert_eq!(env.stat_call(), EnvCall::Stat { env: EnvPtr(64), txn: none });
    assert_eq!(env.info_call(), EnvCall::Info { env: EnvPtr(64), txn: none });
    assert_eq!(
        env.begin_ro_txn_call(),
        TxnCall::Begin { env: EnvPtr(64), parent: none, flags: 0x20000 }
    );
    assert_eq!(
        env.begin_rw_txn_call(),
        Ok(TxnManagerMessage::Begin { parent: none, flags: 0 })
    );
    assert_eq!(env.close_call(), EnvCall::Close { env: EnvPtr(64), dont_sync: false });
}

#[test]
fn answers_to_queries() {
    let env = environment();
    assert_eq!(env.sync(-1), Ok(true));
    assert_eq!(env.sync(22), Err(Error::Invalid));
    let stat = Stat { ms_entries: 3, ..Stat::new() };
    assert_eq!(env.stat(0, stat), Ok(stat));
    assert_eq!(env.stat(-30796, stat), Err(Error::Corrupted));
    let info = Info { mi_last_pgno: 3, ..Info::new() };
    assert_eq!(env.info(-1, info), Ok(info));
    assert_eq!(env.info(7, info), Err(Error::Other(7)));
}

#[test]
fn transactions_from_answers() {
    let env = environment();
    let txn = env.begin_ro_txn(0, TxnPtr(5)).ok().unwrap();
    assert_eq!(txn.txn(), TxnPtr(5));
    assert_eq!(txn.env().env(), EnvPtr(64));
    assert_eq!(env.begin_ro_txn(13, TxnPtr(5)).err(), Some(Error::Access));

    match env.begin_rw_txn(Ok(TxnPtr(6))) {
        RwTxnStep::Done(Ok(txn)) => assert_eq!(txn.txn(), TxnPtr(6)),
        _ => panic!("no transaction"),
    }
    match env.begin_rw_txn(Err(Error::Corrupted)) {
        RwTxnStep::Done(Err(e)) => assert_eq!(e, Error::Corrupted),
        _ => panic!("no error"),
    }
    match env.begin_rw_txn(Err(Error::Busy)) {
        RwTxnStep::Retry { pause_millis, message } => {
            assert_eq!(pause_millis, 250);
            assert_eq!(message, TxnManagerMessage::Begin { parent: TxnPtr(0), flags: 0 });
        }
        RwTxnStep::Done(_) => panic!("gave up"),
    }
    let txn: Transaction<'_, RW, NoWriteMap> = Transaction::new_from_ptr(&env, TxnPtr(9));
    assert_eq!(txn.txn(), TxnPtr(9));
}

#[test]
fn manager_makes_one_call_per_message() {
    let manager = TxnManager { env: EnvPtr(64) };
    let begin = TxnManagerMessage::Begin { parent: TxnPtr(3), flags: 17 };
    let abort = TxnManagerMessage::Abort { tx: TxnPtr(4) };
    let commit = TxnManagerMessage::Commit { tx: TxnPtr(5) };
    assert_eq!(
        manager.call(Some(begin)),
        Some(TxnCall::Begin { env: EnvPtr(64), parent: TxnPtr(3), flags: 17 })
    );
    assert_eq!(manager.call(Some(abort)), Some(TxnCall::Abort { txn: TxnPtr(4) }));
    assert_eq!(manager.call(Some(commit)), Some(TxnCall::Commit { txn: TxnPtr(5) }));
    assert_eq!(manager.call(None), None);

    assert_eq!(manager.reply(begin, 0, TxnPtr(8)), TxnManagerReply::Begun(Ok(TxnPtr(8))));
    assert_eq!(
        manager.reply(begin, -30778, TxnPtr(0)),
        TxnManagerReply::Begun(Err(Error::Busy))
    );
    assert_eq!(manager.reply(abort, 0, TxnPtr(0)), TxnManagerReply::Ended(Ok(false)));
    assert_eq!(manager.reply(commit, -1, TxnPtr(0)), TxnManagerReply::Ended(Ok(true)));
    assert_eq!(
        manager.reply(commit, 22, TxnPtr(0)),
        TxnManagerReply::Ended(Err(Error::Invalid))
    );
}

#[test]
fn numbers_of_a_stat() {
    let stat = Stat {
        ms_psize: 1,
        ms_depth: 2,
        ms_branch_pages: 3,
        ms_leaf_pages: 4,
        ms_overflow_pages: 5,
        ms_entries: u64::MAX,
    };
    assert_eq!((stat.page_size(), stat.depth()), (1, 2));
    assert_eq!((stat.branch_pages(), stat.leaf_pages(), stat.overflow_pages()), (3, 4, 5));
    assert_eq!(stat.entries(), usize::MAX);
    assert_eq!(Stat::new().entries(), 0);
}

#[test]
fn numbers_of_an_info() {
    let info = Info {
        mi_geo: GeometryInfo { lower: 1 },
        mi_mapsize: 2,
        mi_last_pgno: 3,
        mi_recent_txnid: 4,
        mi_maxreaders: 5,
        mi_numreaders: 6,
    };
    assert_eq!(info.geometry().min(), 1);
    assert_eq!((info.map_size(), info.last_pgno(), info.last_txnid()), (2, 3, 4));
    assert_eq!((info.max_readers(), info.num_readers()), (5, 6));
    assert_eq!(Info::new().geometry().min(), 0);
}

fn record(pages: usize, rest: &[u8]) -> Result<Vec<u8>, Error> {
    let mut value = pages.to_ne_bytes().to_vec();
    value.extend_from_slice(rest);
    Ok(value)
}

#[test]
fn freelist_adds_up_counts() {
    let env = environment();
    assert_eq!(env.freelist(&vec![]), Ok(Some(0)));
    assert_eq!(env.freelist(&vec![record(0x0102, &[])]), Ok(Some(0x0102)));
    let records = vec![record(2, &[9; 16]), record(70000, &[1]), record(0, &[])];
    assert_eq!(env.freelist(&records), Ok(Some(70002)));
    assert_eq!(env.freelist(&vec![record(usize::MAX, &[])]), Ok(Some(usize::MAX)));
}

#[test]
fn freelist_stops_at_the_first_bad_record() {
    let env = environment();
    let short: Result<Vec<u8>, Error> = Ok(vec![0; core::mem::size_of::<usize>() - 1]);
    assert_eq!(env.freelist(&vec![Ok(vec![])]), Err(Error::Corrupted));
    assert_eq!(
        env.freelist(&vec![record(1, &[]), short.clone(), Err(Error::Access)]),
        Err(Error::Corrupted)
    );
    assert_eq!(
        env.freelist(&vec![record(1, &[]), Err(Error::Access), short.clone()]),
        Err(Error::Access)
    );
    // A total that is too large is noticed before a record that comes later.
    assert_eq!(env.freelist(&vec![record(usize::MAX, &[]), record(1, &[]), short]), Ok(None));
}

#[test]
fn values_are_copied_only_from_dirty_pages() {
    let data = [1u8, 2, 3];
    let clean = freeze_bytes::<RW>(0, &data).unwrap();
    assert_eq!(&clean[..], &data[..]);
    assert_eq!(clean.as_ptr(), data.as_ptr());
    let dirty = freeze_bytes::<RW>(-1, &data).unwrap();
    assert_eq!(&dirty[..], &data[..]);
    assert_ne!(dirty.as_ptr(), data.as_ptr());
    assert_eq!(freeze_bytes::<RW>(22, &data).err(), Some(Error::Invalid));
    for code in [0, -1, 22] {
        let read_only = freeze_bytes::<RO>(code, &data).unwrap();
        assert_eq!(read_only.as_ptr(), data.as_ptr());
    }
}

#[test]
fn only_writers_ask_for_dirty_pages() {
    assert_eq!(dirty_check::<RO>(TxnPtr(1), 2), None);
    assert_eq!(
        dirty_check::<RW>(TxnPtr(1), 2),
        Some(DirtyCall { txn: TxnPtr(1), addr: 2 })
    );
}
