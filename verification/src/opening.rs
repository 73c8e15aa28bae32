use crate::calls::{
    EnvPtr, GeometryArgs, SetupCall, MDBX_OPT_MAX_DB, MDBX_OPT_MAX_READERS,
};
use crate::environment::{
    geometry_args, BuilderView, EnvironmentKind, EnvironmentView, GenericEnvironment,
};
use crate::error::{mdbx_result, outcome, Error};
use crate::manager::TxnManager;
use std::marker::PhantomData;
use vstd::prelude::*;

verus! {

/// All that opening an environment needs to know.
pub struct Settings {
    pub geometry: Option<GeometryArgs>,
    pub max_dbs: Option<u64>,
    pub max_readers: Option<u64>,
    pub path: Vec<u8>,
    pub flags: libc::c_uint,
    pub mode: u32,
}

/// All that opening an environment needs to know.
pub struct SettingsView {
    pub geometry: Option<GeometryArgs>,
    pub max_dbs: Option<u64>,
    pub max_readers: Option<u64>,
    pub path: Seq<u8>,
    pub flags: libc::c_uint,
    pub mode: u32,
}

impl View for Settings {
    type V = SettingsView;

    open spec fn view(&self) -> SettingsView {
        SettingsView {
            geometry: self.geometry,
            max_dbs: self.max_dbs,
            max_readers: self.max_readers,
            path: self.path@,
            flags: self.flags,
            mode: self.mode,
        }
    }
}

/// The settings that the options of a builder come to.
pub open spec fn settings_of<E>(builder: BuilderView, path: Seq<u8>, mode: u32) -> SettingsView where
    E: EnvironmentKind,
 {
    SettingsView {
        geometry: match builder.geometry {
            Some(geometry) => Some(geometry_args(geometry)),
            None => None,
        },
        max_dbs: match builder.max_dbs {
            Some(max_dbs) => Some(max_dbs as u64),
            None => None,
        },
        max_readers: match builder.max_readers {
            Some(max_readers) => Some(max_readers as u64),
            None => None,
        },
        path,
        flags: builder.flags.word() | E::EXTRA_FLAGS,
        mode,
    }
}

/// Whether a path can be handed to the storage engine, which takes the first null character for
/// the end.
pub open spec fn path_valid(path: Seq<u8>) -> bool {
    !path.contains(0)
}

/// The calls that make a new environment an open one, in order. With a path that is not valid, the
/// last of them is missing.
pub open spec fn setup_calls(s: SettingsView, env: EnvPtr) -> Seq<SetupCall<Seq<u8>>> {
    let geometry = match s.geometry {
        Some(geometry) => seq![SetupCall::SetGeometry { env, geometry }],
        None => seq![],
    };
    let max_dbs = match s.max_dbs {
        Some(value) => seq![SetupCall::SetOption { env, option: MDBX_OPT_MAX_DB, value }],
        None => seq![],
    };
    let max_readers = match s.max_readers {
        Some(value) => seq![SetupCall::SetOption { env, option: MDBX_OPT_MAX_READERS, value }],
        None => seq![],
    };
    let open = if path_valid(s.path) {
        seq![SetupCall::Open { env, path: s.path.push(0), flags: s.flags, mode: s.mode }]
    } else {
        seq![]
    };
    geometry + max_dbs + max_readers + open
}

enum Stage {
    Creating(Settings),
    Setting { env: EnvPtr, remaining: Vec<SetupCall<Vec<u8>>>, path_ok: bool },
    Closing(Error),
}

/// The call that an opening has made last, with what is to be done afterwards.
pub enum StageView {
    /// `Create`.
    Creating(SettingsView),
    /// One of the setup calls; the others remain.
    Setting { env: EnvPtr, remaining: Seq<SetupCall<Seq<u8>>>, path_ok: bool },
    /// `Close`, because of an error.
    Closing(Error),
}

/// An environment on its way to being open.
pub struct OpenRun<E> where E: EnvironmentKind {
    stage: Stage,
    manager: bool,
    _marker: PhantomData<E>,
}

/// An environment on its way to being open, and whether it is to have a transaction manager.
pub struct OpenView {
    pub stage: StageView,
    pub manager: bool,
}

/// What is to be done next.
pub enum OpenStep<E> where E: EnvironmentKind {
    /// Make a call and hand its answer to the run.
    Call(SetupCall<Vec<u8>>, OpenRun<E>),
    /// The environment is open, or cannot be opened.
    Return(Result<GenericEnvironment<E>, Error>),
}

/// What is to be done next.
pub enum StepView {
    Call(SetupCall<Seq<u8>>, OpenView),
    Return(Result<EnvironmentView, Error>),
}

pub open spec fn calls_view(calls: Seq<SetupCall<Vec<u8>>>) -> Seq<SetupCall<Seq<u8>>> {
    calls.map_values(|call: SetupCall<Vec<u8>>| call@)
}

impl<E> View for OpenRun<E> where E: EnvironmentKind {
    type V = OpenView;

    closed spec fn view(&self) -> OpenView {
        OpenView {
            stage: match self.stage {
                Stage::Creating(settings) => StageView::Creating(settings@),
                Stage::Setting { env, remaining, path_ok } => StageView::Setting {
                    env,
                    remaining: calls_view(remaining@),
                    path_ok,
                },
                Stage::Closing(error) => StageView::Closing(error),
            },
            manager: self.manager,
        }
    }
}

impl<E> View for OpenStep<E> where E: EnvironmentKind {
    type V = StepView;

    open spec fn view(&self) -> StepView {
        match *self {
            OpenStep::Call(call, run) => StepView::Call(call@, run@),
            OpenStep::Return(Ok(env)) => StepView::Return(Ok(env@)),
            OpenStep::Return(Err(error)) => StepView::Return(Err(error)),
        }
    }
}

/// What follows when all calls so far have succeeded: the next one; when none remains, the open
/// environment, or the end of an opening whose path is not valid.
pub open spec fn proceed(
    env: EnvPtr,
    remaining: Seq<SetupCall<Seq<u8>>>,
    path_ok: bool,
    manager: bool,
) -> StepView {
    if remaining.len() > 0 {
        StepView::Call(
            remaining.first(),
            OpenView {
                stage: StageView::Setting { env, remaining: remaining.drop_first(), path_ok },
                manager,
            },
        )
    } else if path_ok {
        StepView::Return(
            Ok(
                EnvironmentView {
                    env,
                    txn_manager: if manager {
                        Some(TxnManager { env })
                    } else {
                        None
                    },
                },
            ),
        )
    } else {
        give_up(env, Error::Invalid, manager)
    }
}

/// What follows when an environment that was made cannot be opened: it is closed.
pub open spec fn give_up(env: EnvPtr, error: Error, manager: bool) -> StepView {
    StepView::Call(
        SetupCall::Close { env, dont_sync: false },
        OpenView { stage: StageView::Closing(error), manager },
    )
}

/// What follows from the answer to the last call: its status code and, for `Create`, the address
/// of the new environment.
pub open spec fn next_step(run: OpenView, err_code: libc::c_int, created: EnvPtr) -> StepView {
    match run.stage {
        StageView::Creating(settings) => match outcome(err_code) {
            Ok(_) => proceed(
                created,
                setup_calls(settings, created),
                path_valid(settings.path),
                run.manager,
            ),
            Err(error) => StepView::Return(Err(error)),
        },
        StageView::Setting { env, remaining, path_ok } => match outcome(err_code) {
            Ok(_) => proceed(env, remaining, path_ok, run.manager),
            Err(error) => give_up(env, error, run.manager),
        },
        StageView::Closing(error) => StepView::Return(Err(error)),
    }
}

/// Tells whether a path has no null character.
fn check_path(path: &Vec<u8>) -> (ok: bool)
    ensures
        ok == path_valid(path@),
{
    let mut i: usize = 0;
    while i < path.len()
        invariant
            i <= path@.len(),
            forall|j: int| 0 <= j < i ==> path@[j] != 0,
        decreases path@.len() - i,
    {
        if path[i] == 0 {
            assert(path@.contains(path@[i as int]));
            return false;
        }
        i = i + 1;
    }
    true
}

impl Settings {
    /// The setup calls for an environment, and whether the path is valid.
    fn into_calls(self, env: EnvPtr) -> (r: (Vec<SetupCall<Vec<u8>>>, bool))
        ensures
            calls_view(r.0@) == setup_calls(self@, env),
            r.1 == path_valid(self@.path),
    {
        let Settings { geometry, max_dbs, max_readers, mut path, flags, mode } = self;
        let mut calls: Vec<SetupCall<Vec<u8>>> = Vec::new();
        if let Some(geometry) = geometry {
            calls.push(SetupCall::SetGeometry { env, geometry });
        }
        if let Some(value) = max_dbs {
            calls.push(SetupCall::SetOption { env, option: MDBX_OPT_MAX_DB, value });
        }
        if let Some(value) = max_readers {
            calls.push(SetupCall::SetOption { env, option: MDBX_OPT_MAX_READERS, value });
        }
        let path_ok = check_path(&path);
        if path_ok {
            path.push(0);
            calls.push(SetupCall::Open { env, path, flags, mode });
        }
        proof {
            assert(calls_view(calls@) =~= setup_calls(self@, env));
        }
        (calls, path_ok)
    }
}

impl<E> OpenRun<E> where E: EnvironmentKind {
    /// A run that has asked for a new environment.
    pub(crate) fn new(settings: Settings, manager: bool) -> (run: Self)
        ensures
            run@ == (OpenView { stage: StageView::Creating(settings@), manager }),
    {
        OpenRun { stage: Stage::Creating(settings), manager, _marker: PhantomData }
    }

    /// Takes the answer to the last call: its status code and, for `Create`, the address of the
    /// new environment. For other calls the address is not looked at.
    pub fn reply(self, err_code: libc::c_int, created: EnvPtr) -> (step: OpenStep<E>)
        ensures
            step@ == next_step(self@, err_code, created),
    {
        let manager = self.manager;
        match self.stage {
            Stage::Creating(settings) => match mdbx_result(err_code) {
                Ok(_) => {
                    let (calls, path_ok) = settings.into_calls(created);
                    Self::proceed(created, calls, path_ok, manager)
                },
                Err(error) => OpenStep::Return(Err(error)),
            },
            Stage::Setting { env, remaining, path_ok } => match mdbx_result(err_code) {
                Ok(_) => Self::proceed(env, remaining, path_ok, manager),
                Err(error) => Self::give_up(env, error, manager),
            },
            Stage::Closing(error) => OpenStep::Return(Err(error)),
        }
    }

    fn proceed(
        env: EnvPtr,
        remaining: Vec<SetupCall<Vec<u8>>>,
        path_ok: bool,
        manager: bool,
    ) -> (step: OpenStep<E>)
        ensures
            step@ == proceed(env, calls_view(remaining@), path_ok, manager),
    {
        let mut remaining = remaining;
        if remaining.len() > 0 {
            let ghost before = remaining@;
            let call = remaining.remove(0);
            assert(calls_view(remaining@) =~= calls_view(before).drop_first());
            OpenStep::Call(
                call,
                OpenRun {
                    stage: Stage::Setting { env, remaining, path_ok },
                    manager,
                    _marker: PhantomData,
                },
            )
        } else if path_ok {
            OpenStep::Return(
                Ok(
                    GenericEnvironment::opened(
                        env,
                        if manager {
                            Some(TxnManager { env })
                        } else {
                            None
                        },
                    ),
                ),
            )
        } else {
            Self::give_up(env, Error::Invalid, manager)
        }
    }

    fn give_up(env: EnvPtr, error: Error, manager: bool) -> (step: OpenStep<E>)
        ensures
            step@ == give_up(env, error, manager),
    {
        OpenStep::Call(
            SetupCall::Close { env, dont_sync: false },
            OpenRun { stage: Stage::Closing(error), manager, _marker: PhantomData },
        )
    }
}

/// What the contracts say of a step, they say of the very call, environment or error in it.
pub proof fn law_step_view_is_faithful<E>(step: OpenStep<E>) where E: EnvironmentKind
    ensures
        step matches OpenStep::Call(call, run) ==> step@ == StepView::Call(call@, run@),
        step matches OpenStep::Return(Ok(env)) ==> step@ == StepView::Return(Ok(env@)),
        step matches OpenStep::Return(Err(error)) ==> step@ == StepView::Return(Err(error)),
{
}

} // verus!
