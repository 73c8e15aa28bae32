use mdbx::{
    Bound, EnvCall, EnvPtr, Environment, EnvironmentBuilder, EnvironmentFlags, EnvironmentKind,
    Error, GenericEnvironment, Geometry, GeometryArgs, Mode, OpenStep, PageSize, SetupCall,
    SyncMode, TxnManager, WriteMap,
};

const ENV: EnvPtr = EnvPtr(0xabc0);

/// Runs an opening with the given status codes; says which calls were made and what came of it.
fn run<E: EnvironmentKind>(
    start: OpenStep<E>,
    codes: &[i32],
) -> (Vec<String>, Result<GenericEnvironment<E>, Error>) {
    let mut calls = Vec::new();
    let mut step = start;
    let mut codes = codes.iter();
    loop {
        match step {
            OpenStep::Call(call, run) => {
                calls.push(name(&call));
                let created = match call {
                    SetupCall::Create => ENV,
                    _ => EnvPtr(1),
                };
                step = run.reply(*codes.next().expect("too few status codes"), created);
            }
            OpenStep::Return(result) => {
                assert!(codes.next().is_none(), "too many status codes");
                return (calls, result);
            }
        }
    }
}

fn name(call: &SetupCall<Vec<u8>>) -> String {
    match call {
        SetupCall::Create => "create".to_string(),
        SetupCall::SetGeometry { env, geometry } => {
            assert_eq!(*env, ENV);
            format!("geometry {} {}", geometry.size_lower, geometry.size_upper)
        }
        SetupCall::SetOption { env, option, value } => {
            assert_eq!(*env, ENV);
            format!("option {} {}", option, value)
        }
        SetupCall::Open { env, path, flags, mode } => {
            assert_eq!(*env, ENV);
            format!("open {:?} {:x} {:o}", path, flags, mode)
        }
        SetupCall::Close { env, dont_sync } => {
            assert_eq!(*env, ENV);
            assert!(!dont_sync);
            "close".to_string()
        }
    }
}

fn configured() -> EnvironmentBuilder<WriteMap> {
    let mut builder = GenericEnvironment::<WriteMap>::new();
    builder
        .set_geometry(Geometry {
            size: Some((Bound::Included(8), Bound::Excluded(16))),
            ..Default::default()
        })
        .set_max_dbs(11)
        .set_max_readers(200);
    builder
}

const CONFIGURED: [&str; 5] =
    ["create", "geometry 8 16", "option 0 11", "option 1 200", "open [97, 0] 280000 600"];

#[test]
fn open_makes_all_calls_in_order() {
    let (calls, result) = run(configured().open_with_permissions(b"a", 0o600), &[0, 0, -1, 0, 0]);
    assert_eq!(calls, CONFIGURED);
    let env = result.ok().unwrap();
    assert_eq!(env.env(), ENV);
    assert_eq!(env.txn_manager(), None);
    assert_eq!(env.close_call(), EnvCall::Close { env: ENV, dont_sync: false });
}

#[test]
fn open_without_options_only_creates_and_opens() {
    let (calls, result) = run(Environment::new().open(b""), &[0, 0]);
    assert_eq!(calls, ["create", "open [0] 200000 644"]);
    assert_eq!(result.ok().unwrap().txn_manager(), Some(TxnManager { env: ENV }));
}

#[test]
fn open_reports_the_first_failure_and_closes() {
    for k in 1..5 {
        let mut codes = vec![0; k];
        codes.push(1000 + k as i32);
        // What closing answers makes no difference.
        codes.push(-30796);
        let (calls, result) = run(configured().open_with_permissions(b"a", 0o600), &codes);
        let mut expected = CONFIGURED[..k + 1].to_vec();
        expected.push("close");
        assert_eq!(calls, expected);
        assert_eq!(result.err(), Some(Error::Other(1000 + k as i32)));
    }
}

#[test]
fn open_without_environment_has_nothing_to_close() {
    let (calls, result) = run(configured().open(b"a"), &[12]);
    assert_eq!(calls, ["create"]);
    assert_eq!(result.err(), Some(Error::Other(12)));
}

#[test]
fn open_refuses_null_character() {
    for path in [&b"\0"[..], b"a\0b", b"ab\0"] {
        let (calls, result) = run(configured().open(path), &[0, 0, 0, 0, 0]);
        assert_eq!(calls[..4], CONFIGURED[..4]);
        assert_eq!(calls[4..], ["close"]);
        assert_eq!(result.err(), Some(Error::Invalid));
    }
}

#[test]
fn failure_comes_before_null_character() {
    let (calls, result) = run(configured().open(b"\0"), &[0, -30778, 0]);
    assert_eq!(calls, ["create", "geometry 8 16", "close"]);
    assert_eq!(result.err(), Some(Error::Busy));
}

#[test]
fn read_only_environment_has_no_manager() {
    let mut builder = Environment::new();
    builder.set_flags(Mode::ReadOnly.into());
    let (calls, result) = run(builder.open(b"x"), &[0, 0]);
    assert_eq!(calls, ["create", "open [120, 0] 220000 644"]);
    let env = result.ok().unwrap();
    assert_eq!(env.txn_manager(), None);
    assert_eq!(env.begin_rw_txn_call(), Err(Error::Access));
}

#[test]
fn flag_words() {
    assert_eq!(EnvironmentFlags::default().make_flags(), 0x200000);
    let all = EnvironmentFlags {
        no_sub_dir: true,
        exclusive: true,
        accede: true,
        mode: Mode::ReadWrite { sync_mode: SyncMode::UtterlyNoSync },
        no_rdahead: true,
        no_meminit: true,
        coalesce: true,
        liforeclaim: true,
    };
    assert_eq!(all.make_flags(), 0x47f14000);
    let sync = |sync_mode: SyncMode| {
        EnvironmentFlags::from(Mode::ReadWrite { sync_mode }).make_flags()
    };
    assert_eq!(sync(SyncMode::Durable), 0x200000);
    assert_eq!(sync(SyncMode::NoMetaSync), 0x240000);
    assert_eq!(sync(SyncMode::SafeNoSync), 0x210000);
    assert_eq!(sync(SyncMode::UtterlyNoSync), 0x310000);
}

fn geometry_of(geometry: Geometry<(Bound, Bound)>) -> GeometryArgs {
    let mut builder = Environment::new();
    builder.set_geometry(geometry);
    // A copy has the same options.
    match builder.clone().open(b"p") {
        OpenStep::Call(_, run) => match run.reply(0, ENV) {
            OpenStep::Call(SetupCall::SetGeometry { geometry, .. }, _) => geometry,
            _ => panic!("no geometry"),
        },
        OpenStep::Return(_) => panic!("no call"),
    }
}

#[test]
fn geometry_arguments() {
    let unset = GeometryArgs {
        size_lower: -1,
        size_now: -1,
        size_upper: -1,
        growth_step: -1,
        shrink_threshold: -1,
        page_size: -1,
    };
    assert_eq!(geometry_of(Geometry::default()), unset);
    assert_eq!(
        geometry_of(Geometry {
            size: Some((Bound::Unbounded, Bound::Included(usize::MAX / 2))),
            growth_step: Some(-2),
            shrink_threshold: Some(3),
            page_size: Some(PageSize::MinimalAcceptable),
        }),
        GeometryArgs {
            size_upper: isize::MAX,
            growth_step: -2,
            shrink_threshold: 3,
            page_size: 0,
            ..unset
        }
    );
    assert_eq!(
        geometry_of(Geometry {
            size: Some((Bound::Excluded(5), Bound::Unbounded)),
            page_size: Some(PageSize::Exact(usize::MAX - 1)),
            ..Default::default()
        }),
        GeometryArgs { size_lower: 5, page_size: -2, ..unset }
    );
}
