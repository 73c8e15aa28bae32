//! What holds of several operations together.
use crate::calls::{EnvPtr, SetupCall, TxnCall, TxnPtr, UNSET};
use crate::environment::{
    began, bounded, geometry_args, law_environment_kinds, open_start, rw_first, rw_request,
    rw_settled, Bound, BuilderView, EnvironmentKind, EnvironmentView, GenericEnvironment, Geometry,
    NoWriteMap, PageSize, Sizes, WriteMap, DEFAULT_PERMISSIONS,
};
use crate::error::{error_of, outcome, Error};
use crate::flags::{
    chosen, law_flag_word_bit_by_bit, lemma_word_bits, Mode, SyncMode, MDBX_RDONLY, MDBX_WRITEMAP,
};
use crate::manager::{begun, call_of, reply_of, TxnManager, TxnManagerMessage, TxnManagerReply};
use crate::opening::{
    next_step, path_valid, proceed, settings_of, setup_calls, OpenView, SettingsView,
    StageView, StepView,
};
use crate::transaction::{law_transaction_kinds, Transaction, TransactionKind, RO, RW};
use crate::util::dirty;
use crate::word::{law_signed_word_keeps_what_fits, signed_word};
use vstd::prelude::*;

verus! {

/// The answer to a setup call.
pub struct Answer {
    pub err_code: libc::c_int,
    /// For `Create`, the address of the new environment.
    pub created: EnvPtr,
}

/// What an opening comes to: the calls that were made and, once it is over, what was returned.
pub struct Opening {
    pub calls: Seq<SetupCall<Seq<u8>>>,
    pub result: Option<Result<EnvironmentView, Error>>,
}

/// The opening that starts with `step` and gets the given answers, one for each call.
pub open spec fn drive(step: StepView, answers: Seq<Answer>) -> Opening
    decreases answers.len(),
{
    match step {
        StepView::Return(result) => Opening { calls: seq![], result: Some(result) },
        StepView::Call(call, run) => if answers.len() == 0 {
            Opening { calls: seq![call], result: None }
        } else {
            let rest = drive(
                next_step(run, answers.first().err_code, answers.first().created),
                answers.drop_first(),
            );
            Opening { calls: seq![call] + rest.calls, result: rest.result }
        },
    }
}

/// Whether the first `n` answers all report success.
pub open spec fn succeeded(answers: Seq<Answer>, n: int) -> bool {
    n <= answers.len() && forall|i: int|
        0 <= i < n ==> outcome((#[trigger] answers[i]).err_code) is Ok
}

/// The environment that an opening returns.
pub open spec fn opened(env: EnvPtr, manager: bool) -> EnvironmentView {
    EnvironmentView {
        env,
        txn_manager: if manager {
            Some(TxnManager { env })
        } else {
            None
        },
    }
}

/// The call that disposes of an environment.
pub open spec fn close(env: EnvPtr) -> SetupCall<Seq<u8>> {
    SetupCall::Close { env, dont_sync: false }
}

/// Whether none of the calls disposes of an environment.
pub open spec fn keeps_open(calls: Seq<SetupCall<Seq<u8>>>) -> bool {
    forall|i: int| 0 <= i < calls.len() ==> !((#[trigger] calls[i]) is Close)
}

proof fn lemma_all_succeed(
    env: EnvPtr,
    remaining: Seq<SetupCall<Seq<u8>>>,
    path_ok: bool,
    manager: bool,
    answers: Seq<Answer>,
)
    requires
        succeeded(answers, remaining.len() as int),
        answers.len() == remaining.len() + if path_ok {
            0int
        } else {
            1
        },
    ensures
        drive(proceed(env, remaining, path_ok, manager), answers) == if path_ok {
            Opening { calls: remaining, result: Some(Ok(opened(env, manager))) }
        } else {
            Opening { calls: remaining.push(close(env)), result: Some(Err(Error::Invalid)) }
        },
    decreases remaining.len(),
{
    let o = drive(proceed(env, remaining, path_ok, manager), answers);
    if remaining.len() > 0 {
        let rest = answers.drop_first();
        assert forall|i: int| 0 <= i < remaining.len() - 1 implies outcome(
            (#[trigger] rest[i]).err_code,
        ) is Ok by {
            assert(rest[i] == answers[i + 1]);
        }
        lemma_all_succeed(env, remaining.drop_first(), path_ok, manager, rest);
        assert(outcome(answers[0].err_code) is Ok);
        assert(seq![remaining.first()] + remaining.drop_first() =~= remaining);
        assert(seq![remaining.first()] + remaining.drop_first().push(close(env))
            =~= remaining.push(close(env)));
    } else if !path_ok {
        reveal_with_fuel(drive, 3);
        assert(o.calls =~= remaining.push(close(env)));
    } else {
        assert(o.calls =~= remaining);
    }
}

proof fn lemma_one_fails(
    env: EnvPtr,
    remaining: Seq<SetupCall<Seq<u8>>>,
    path_ok: bool,
    manager: bool,
    answers: Seq<Answer>,
    k: int,
)
    requires
        0 <= k < remaining.len(),
        succeeded(answers, k),
        answers.len() == k + 2,
        outcome(answers[k].err_code) is Err,
    ensures
        drive(proceed(env, remaining, path_ok, manager), answers) == (Opening {
            calls: remaining.take(k + 1).push(close(env)),
            result: Some(Err(outcome(answers[k].err_code)->Err_0)),
        }),
    decreases k,
{
    let o = drive(proceed(env, remaining, path_ok, manager), answers);
    let rest = answers.drop_first();
    if k == 0 {
        reveal_with_fuel(drive, 3);
        assert(o.calls =~= remaining.take(1).push(close(env)));
    } else {
        assert forall|i: int| 0 <= i < k - 1 implies outcome((#[trigger] rest[i]).err_code)
            is Ok by {
            assert(rest[i] == answers[i + 1]);
        }
        assert(rest[k - 1] == answers[k]);
        lemma_one_fails(env, remaining.drop_first(), path_ok, manager, rest, k - 1);
        assert(outcome(answers[0].err_code) is Ok);
        assert(seq![remaining.first()] + remaining.drop_first().take(k).push(close(env))
            =~= remaining.take(k + 1).push(close(env)));
    }
}

proof fn lemma_ends_well(
    env: EnvPtr,
    remaining: Seq<SetupCall<Seq<u8>>>,
    path_ok: bool,
    manager: bool,
    answers: Seq<Answer>,
)
    requires
        keeps_open(remaining),
    ensures
        ({
            let o = drive(proceed(env, remaining, path_ok, manager), answers);
            &&& answers.len() >= remaining.len() + 1 ==> o.result is Some
            &&& match o.result {
                Some(Ok(e)) => e == opened(env, manager) && path_ok && o.calls == remaining
                    && succeeded(answers, remaining.len() as int),
                Some(Err(_)) => o.calls.len() > 0 && o.calls.last() == close(env) && keeps_open(
                    o.calls.drop_last(),
                ),
                None => true,
            }
        }),
    decreases remaining.len(),
{
    let o = drive(proceed(env, remaining, path_ok, manager), answers);
    if remaining.len() == 0 {
        reveal_with_fuel(drive, 3);
        if path_ok {
            assert(o.calls =~= remaining);
        }
    } else if answers.len() > 0 {
        let rest = answers.drop_first();
        let left = remaining.drop_first();
        let after = drive(
            next_step(
                OpenView {
                    stage: StageView::Setting { env, remaining: left, path_ok },
                    manager,
                },
                answers[0].err_code,
                answers[0].created,
            ),
            rest,
        );
        assert(o.calls == seq![remaining.first()] + after.calls);
        if outcome(answers[0].err_code) is Ok {
            assert forall|i: int| 0 <= i < left.len() implies !((#[trigger] left[i]) is Close) by {
                assert(left[i] == remaining[i + 1]);
            }
            lemma_ends_well(env, left, path_ok, manager, rest);
            match o.result {
                Some(Ok(_)) => {
                    assert(o.calls =~= remaining);
                    assert forall|i: int| 0 <= i < remaining.len() implies outcome(
                        (#[trigger] answers[i]).err_code,
                    ) is Ok by {
                        if i > 0 {
                            assert(answers[i] == rest[i - 1]);
                        }
                    }
                },
                Some(Err(_)) => {
                    assert(o.calls.drop_last() =~= seq![remaining.first()]
                        + after.calls.drop_last());
                    assert(!(remaining[0] is Close));
                    assert forall|i: int| 0 <= i < o.calls.drop_last().len() implies !((
                    #[trigger] o.calls.drop_last()[i]) is Close) by {
                        if i > 0 {
                            assert(o.calls.drop_last()[i] == after.calls.drop_last()[i - 1]);
                        }
                    }
                },
                None => {},
            }
        } else {
            reveal_with_fuel(drive, 3);
            assert(!(remaining[0] is Close));
        }
    }
}

proof fn lemma_setup_keeps_open(s: SettingsView, env: EnvPtr)
    ensures
        keeps_open(setup_calls(s, env)),
{
}

/// An environment is opened by making it, setting its geometry and its options where they were
/// chosen, and opening it at a path that is valid. When all of this succeeds, the new environment
/// is returned, and has a transaction manager exactly where one was asked for.
pub proof fn law_open_succeeds<E>(
    builder: BuilderView,
    path: Seq<u8>,
    mode: u32,
    manager: bool,
    answers: Seq<Answer>,
) where E: EnvironmentKind
    requires
        path_valid(path),
        answers.len() == 1 + setup_calls(
            settings_of::<E>(builder, path, mode),
            answers[0].created,
        ).len(),
        succeeded(answers, answers.len() as int),
    ensures
        drive(open_start::<E>(builder, path, mode, manager), answers) == (Opening {
            calls: seq![SetupCall::Create] + setup_calls(
                settings_of::<E>(builder, path, mode),
                answers[0].created,
            ),
            result: Some(Ok(opened(answers[0].created, manager))),
        }),
{
    let env = answers[0].created;
    let rest = answers.drop_first();
    assert forall|i: int| 0 <= i < rest.len() implies outcome((#[trigger] rest[i]).err_code)
        is Ok by {
        assert(rest[i] == answers[i + 1]);
    }
    lemma_all_succeed(
        env,
        setup_calls(settings_of::<E>(builder, path, mode), env),
        true,
        manager,
        rest,
    );
}

/// A path with a null character is refused: the environment is set up but not opened, then closed,
/// and the error is `Invalid`.
pub proof fn law_open_refuses_null_in_path<E>(
    builder: BuilderView,
    path: Seq<u8>,
    mode: u32,
    manager: bool,
    answers: Seq<Answer>,
) where E: EnvironmentKind
    requires
        path.contains(0),
        answers.len() == 2 + setup_calls(
            settings_of::<E>(builder, path, mode),
            answers[0].created,
        ).len(),
        succeeded(answers, answers.len() - 1),
    ensures
        drive(open_start::<E>(builder, path, mode, manager), answers) == (Opening {
            calls: seq![SetupCall::Create] + setup_calls(
                settings_of::<E>(builder, path, mode),
                answers[0].created,
            ).push(close(answers[0].created)),
            result: Some(Err(Error::Invalid)),
        }),
        forall|i: int|
            0 <= i < drive(open_start::<E>(builder, path, mode, manager), answers).calls.len()
                ==> !(#[trigger] drive(
                open_start::<E>(builder, path, mode, manager),
                answers,
            ).calls[i] is Open),
{
    let env = answers[0].created;
    let rest = answers.drop_first();
    assert forall|i: int| 0 <= i < rest.len() - 1 implies outcome((#[trigger] rest[i]).err_code)
        is Ok by {
        assert(rest[i] == answers[i + 1]);
    }
    lemma_all_succeed(
        env,
        setup_calls(settings_of::<E>(builder, path, mode), env),
        false,
        manager,
        rest,
    );
}

/// Where the environment cannot be made, that error is returned and nothing else is done.
pub proof fn law_open_fails_without_environment<E>(
    builder: BuilderView,
    path: Seq<u8>,
    mode: u32,
    manager: bool,
    answers: Seq<Answer>,
) where E: EnvironmentKind
    requires
        answers.len() >= 1,
        outcome(answers[0].err_code) is Err,
    ensures
        drive(open_start::<E>(builder, path, mode, manager), answers) == (Opening {
            calls: seq![SetupCall::Create],
            result: Some(Err(outcome(answers[0].err_code)->Err_0)),
        }),
{
    reveal_with_fuel(drive, 2);
    assert(drive(open_start::<E>(builder, path, mode, manager), answers).calls =~= seq![
        SetupCall::Create,
    ]);
}

/// The first setup call that fails ends the opening: no further one is made, the environment is
/// closed, and the error of that call is returned, whatever closing answers.
pub proof fn law_open_reports_first_failure<E>(
    builder: BuilderView,
    path: Seq<u8>,
    mode: u32,
    manager: bool,
    answers: Seq<Answer>,
    k: int,
) where E: EnvironmentKind
    requires
        answers.len() == k + 3,
        0 <= k < setup_calls(settings_of::<E>(builder, path, mode), answers[0].created).len(),
        succeeded(answers, k + 1),
        outcome(answers[k + 1].err_code) is Err,
    ensures
        drive(open_start::<E>(builder, path, mode, manager), answers) == (Opening {
            calls: seq![SetupCall::Create] + setup_calls(
                settings_of::<E>(builder, path, mode),
                answers[0].created,
            ).take(k + 1).push(close(answers[0].created)),
            result: Some(Err(outcome(answers[k + 1].err_code)->Err_0)),
        }),
{
    let env = answers[0].created;
    let rest = answers.drop_first();
    assert forall|i: int| 0 <= i < k implies outcome((#[trigger] rest[i]).err_code) is Ok by {
        assert(rest[i] == answers[i + 1]);
    }
    assert(rest[k] == answers[k + 1]);
    assert(outcome(answers[0].err_code) is Ok);
    lemma_one_fails(
        env,
        setup_calls(settings_of::<E>(builder, path, mode), env),
        path_valid(path),
        manager,
        rest,
        k,
    );
}

/// Whatever the answers are, an environment that was made is either returned open or closed, never
/// both and never neither; and an opening is over after two answers more than there are setup
/// calls.
pub proof fn law_open_returns_or_closes<E>(
    builder: BuilderView,
    path: Seq<u8>,
    mode: u32,
    manager: bool,
    answers: Seq<Answer>,
) where E: EnvironmentKind
    requires
        answers.len() >= 1,
        outcome(answers[0].err_code) is Ok,
    ensures
        ({
            let env = answers[0].created;
            let calls = setup_calls(settings_of::<E>(builder, path, mode), env);
            let o = drive(open_start::<E>(builder, path, mode, manager), answers);
            &&& answers.len() >= calls.len() + 2 ==> o.result is Some
            &&& match o.result {
                Some(Ok(e)) => e == opened(env, manager) && keeps_open(o.calls),
                Some(Err(_)) => o.calls.last() == close(env) && keeps_open(o.calls.drop_last()),
                None => true,
            }
        }),
{
    let env = answers[0].created;
    let calls = setup_calls(settings_of::<E>(builder, path, mode), env);
    let o = drive(open_start::<E>(builder, path, mode, manager), answers);
    let rest = answers.drop_first();
    let after = drive(proceed(env, calls, path_valid(path), manager), rest);
    lemma_setup_keeps_open(settings_of::<E>(builder, path, mode), env);
    lemma_ends_well(env, calls, path_valid(path), manager, rest);
    assert(o.calls == seq![SetupCall::Create] + after.calls);
    match o.result {
        Some(Ok(_)) => {
            assert forall|i: int| 0 <= i < o.calls.len() implies !((#[trigger] o.calls[i])
                is Close) by {
                if i > 0 {
                    assert(o.calls[i] == calls[i - 1]);
                }
            }
        },
        Some(Err(_)) => {
            assert forall|i: int| 0 <= i < o.calls.drop_last().len() implies !((
            #[trigger] o.calls.drop_last()[i]) is Close) by {
                if i > 0 {
                    assert(o.calls.drop_last()[i] == after.calls.drop_last()[i - 1]);
                }
            }
        },
        None => {},
    }
}

/// Write transactions are for environments that were opened to be written to: with the mode
/// read-only they are refused with `Access`, with a read-write mode they can be asked for.
pub proof fn law_read_only_refuses_write_transactions<E>(
    builder: BuilderView,
    path: Seq<u8>,
    answers: Seq<Answer>,
) where E: EnvironmentKind
    ensures
        drive(
            open_start::<E>(builder, path, DEFAULT_PERMISSIONS, builder.flags.mode is ReadWrite),
            answers,
        ).result matches Some(Ok(e)) ==> rw_first(e) == if builder.flags.mode is ReadOnly {
            Err(Error::Access)
        } else {
            Ok(rw_request())
        },
{
    let manager = builder.flags.mode is ReadWrite;
    if answers.len() >= 1 && outcome(answers[0].err_code) is Ok {
        law_open_returns_or_closes::<E>(builder, path, DEFAULT_PERMISSIONS, manager, answers);
    } else {
        reveal_with_fuel(drive, 2);
    }
}

/// The manager of an environment that was just opened begins the write transactions in that very
/// environment, at top level, and passes on what came of it.
pub proof fn law_write_transaction_begins_in_its_environment<E>(
    builder: BuilderView,
    path: Seq<u8>,
    mode: u32,
    manager: bool,
    answers: Seq<Answer>,
    err_code: libc::c_int,
    txn: TxnPtr,
) where E: EnvironmentKind
    ensures
        drive(open_start::<E>(builder, path, mode, manager), answers).result matches Some(
            Ok(e),
        ) ==> (e.txn_manager matches Some(m) ==> call_of(m, rw_request()) == (TxnCall::Begin {
            env: e.env,
            parent: TxnPtr(0),
            flags: RW::OPEN_FLAGS,
        })),
        reply_of(rw_request(), err_code, txn) == TxnManagerReply::Begun(begun(err_code, txn)),
{
    if answers.len() >= 1 && outcome(answers[0].err_code) is Ok {
        law_open_returns_or_closes::<E>(builder, path, mode, manager, answers);
    } else {
        reveal_with_fuel(drive, 2);
    }
}

/// What asking for a write transaction comes to: how often the message was sent and, once it is
/// over, the reply that settled it.
pub struct Acquisition {
    pub sent: nat,
    pub result: Option<Result<TxnPtr, Error>>,
}

/// The acquisition that gets the given replies, one for each message.
pub open spec fn acquire(replies: Seq<Result<TxnPtr, Error>>) -> Acquisition
    decreases replies.len(),
{
    if replies.len() == 0 {
        Acquisition { sent: 1, result: None }
    } else {
        match rw_settled(replies.first()) {
            Some(result) => Acquisition { sent: 1, result: Some(result) },
            None => {
                let rest = acquire(replies.drop_first());
                Acquisition { sent: 1 + rest.sent, result: rest.result }
            },
        }
    }
}

/// A request for a write transaction is repeated for as long as the reply is `Busy`, and the first
/// other reply settles it.
pub proof fn law_write_transaction_waits_its_turn(replies: Seq<Result<TxnPtr, Error>>, k: int)
    requires
        0 <= k < replies.len(),
        forall|i: int|
            0 <= i < k ==> #[trigger] replies[i] == Err::<TxnPtr, Error>(Error::Busy),
        replies[k] != Err::<TxnPtr, Error>(Error::Busy),
    ensures
        acquire(replies) == (Acquisition { sent: (k + 1) as nat, result: Some(replies[k]) }),
    decreases k,
{
    if k > 0 {
        let rest = replies.drop_first();
        assert forall|i: int| 0 <= i < k - 1 implies #[trigger] rest[i] == Err::<TxnPtr, Error>(
            Error::Busy,
        ) by {
            assert(rest[i] == replies[i + 1]);
        }
        assert(rest[k - 1] == replies[k]);
        law_write_transaction_waits_its_turn(rest, k - 1);
        assert(replies[0] == Err::<TxnPtr, Error>(Error::Busy));
    }
}

/// Nobody who asks for a write transaction is ever told `Busy`.
pub proof fn law_write_transaction_is_never_busy(replies: Seq<Result<TxnPtr, Error>>)
    ensures
        acquire(replies).result != Some(Err::<TxnPtr, Error>(Error::Busy)),
    decreases replies.len(),
{
    if replies.len() > 0 {
        law_write_transaction_is_never_busy(replies.drop_first());
    }
}

/// A geometry with nothing chosen leaves every parameter to the storage engine.
pub proof fn law_default_geometry_leaves_all_unset(geometry: Geometry<Sizes>)
    requires
        geometry.size is None || geometry.size == Some((None::<usize>, None::<usize>)),
        geometry.growth_step is None,
        geometry.shrink_threshold is None,
        geometry.page_size is None,
    ensures
        ({
            let args = geometry_args(geometry);
            &&& args.size_lower == UNSET && args.size_now == UNSET && args.size_upper == UNSET
            &&& args.growth_step == UNSET && args.shrink_threshold == UNSET && args.page_size
                == UNSET
        }),
{
}

/// What was chosen reaches the storage engine unchanged, sizes up to the largest one that it can be
/// told.
pub proof fn law_chosen_geometry_reaches_the_engine(
    geometry: Geometry<Sizes>,
    n: usize,
    step: isize,
)
    requires
        n <= isize::MAX,
    ensures
        ({
            let args = geometry_args(geometry);
            &&& geometry.size matches Some(size) ==> size.0 == Some(n) ==> args.size_lower == n
            &&& geometry.size matches Some(size) ==> size.1 == Some(n) ==> args.size_upper == n
            &&& geometry.page_size == Some(PageSize::Exact(n)) ==> args.page_size == n
            &&& geometry.growth_step == Some(step) ==> args.growth_step == step
            &&& geometry.shrink_threshold == Some(step) ==> args.shrink_threshold == step
        }),
{
}

/// The two kinds of environments differ in one flag alone, and whether an environment is read-only
/// shows in another one.
pub proof fn law_kind_and_mode_show_in_flags(builder: BuilderView, path: Seq<u8>, mode: u32)
    ensures
        ({
            let without = settings_of::<NoWriteMap>(builder, path, mode).flags;
            let with = settings_of::<WriteMap>(builder, path, mode).flags;
            &&& without & MDBX_WRITEMAP == 0
            &&& with & MDBX_WRITEMAP == MDBX_WRITEMAP
            &&& with == without | MDBX_WRITEMAP
            &&& without & MDBX_RDONLY == chosen(builder.flags.mode is ReadOnly, MDBX_RDONLY)
            &&& with & MDBX_RDONLY == chosen(builder.flags.mode is ReadOnly, MDBX_RDONLY)
        }),
{
    let f = builder.flags;
    let w = f.word();
    lemma_word_bits(f);
    law_environment_kinds();
    assert(w | 0 == w && (w | 0x80000) & 0x80000 == 0x80000 && (w | 0x80000) & 0x20000 == w
        & 0x20000) by (bit_vector);
}

/// A read-only transaction hands out its values where they stand, without asking whether they may
/// change.
pub proof fn law_read_only_values_are_not_copied(err_code: libc::c_int)
    ensures
        RO::ONLY_CLEAN,
        dirty::<RO>(err_code) == Ok::<bool, Error>(false),
{
    law_transaction_kinds();
}

/// The setup of an environment follows the choices one by one: the geometry is set exactly where one
/// was chosen, then the number of databases, then the number of readers, each with the chosen value
/// and whatever else was chosen; the environment is opened last, exactly where the path has no null
/// character.
pub proof fn law_setup_follows_the_choices<E>(
    builder: BuilderView,
    path: Seq<u8>,
    mode: u32,
    env: EnvPtr,
) where E: EnvironmentKind
    ensures
        ({
            let calls = setup_calls(settings_of::<E>(builder, path, mode), env);
            let null = exists|i: int| 0 <= i < path.len() && path[i] == 0;
            let g: int = if builder.geometry is Some { 1 } else { 0 };
            let d: int = if builder.max_dbs is Some { 1 } else { 0 };
            let r: int = if builder.max_readers is Some { 1 } else { 0 };
            let o: int = if null { 0 } else { 1 };
            &&& calls.len() == g + d + r + o
            &&& builder.geometry matches Some(geometry) ==> calls[0] == (SetupCall::<Seq<u8>>::SetGeometry {
                env,
                geometry: geometry_args(geometry),
            })
            &&& builder.max_dbs matches Some(n) ==> calls[g] == (SetupCall::<Seq<u8>>::SetOption {
                env,
                option: 0,
                value: n as u64,
            })
            &&& builder.max_readers matches Some(n) ==> calls[g + d] == (SetupCall::<Seq<u8>>::SetOption {
                env,
                option: 1,
                value: n as u64,
            })
            &&& !null ==> calls[g + d + r] == (SetupCall::<Seq<u8>>::Open {
                env,
                path: path.push(0),
                flags: builder.flags.word() | E::EXTRA_FLAGS,
                mode,
            })
            &&& path_valid(path) == !null
        }),
{
}

/// With a path that has no null character and answers that all report success, an opening makes the
/// environment, sets what was chosen and nothing else, opens it and returns it: each choice has a
/// call of its own, before the one that opens the environment, whatever the other choices are.
pub proof fn law_every_choice_reaches_the_engine<E>(
    builder: BuilderView,
    path: Seq<u8>,
    mode: u32,
    manager: bool,
    answers: Seq<Answer>,
) where E: EnvironmentKind
    requires
        forall|i: int| 0 <= i < path.len() ==> #[trigger] path[i] != 0,
        answers.len() == 2 + (if builder.geometry is Some { 1int } else { 0 }) + (
        if builder.max_dbs is Some { 1int } else { 0 }) + (if builder.max_readers is Some {
            1int
        } else { 0 }),
        forall|i: int|
            0 <= i < answers.len() ==> (#[trigger] answers[i]).err_code == 0 || answers[i].err_code
                == -1,
    ensures
        ({
            let env = answers[0].created;
            let opening = drive(open_start::<E>(builder, path, mode, manager), answers);
            let calls = opening.calls;
            let g: int = if builder.geometry is Some { 1 } else { 0 };
            let d: int = if builder.max_dbs is Some { 1 } else { 0 };
            let r: int = if builder.max_readers is Some { 1 } else { 0 };
            &&& calls.len() == 2 + g + d + r
            &&& calls[0] is Create
            &&& builder.geometry matches Some(geometry) ==> calls[1] == (SetupCall::<Seq<u8>>::SetGeometry {
                env,
                geometry: geometry_args(geometry),
            })
            &&& builder.max_dbs matches Some(n) ==> calls[1 + g] == (SetupCall::<Seq<u8>>::SetOption {
                env,
                option: 0,
                value: n as u64,
            })
            &&& builder.max_readers matches Some(n) ==> calls[1 + g + d] == (SetupCall::<Seq<u8>>::SetOption {
                env,
                option: 1,
                value: n as u64,
            })
            &&& calls[1 + g + d + r] == (SetupCall::<Seq<u8>>::Open {
                env,
                path: path.push(0),
                flags: builder.flags.word() | E::EXTRA_FLAGS,
                mode,
            })
            &&& opening.result == Some(
                Ok::<EnvironmentView, Error>(
                    EnvironmentView {
                        env,
                        txn_manager: if manager {
                            Some(TxnManager { env })
                        } else {
                            None
                        },
                    },
                ),
            )
        }),
{
    law_setup_follows_the_choices::<E>(builder, path, mode, answers[0].created);
    law_open_succeeds::<E>(builder, path, mode, manager, answers);
}

/// With a path that has a null character and answers that all report success, an opening sets what
/// was chosen, opens nothing, flushes and closes the environment and reports `Invalid`.
pub proof fn law_null_in_path_is_invalid<E>(
    builder: BuilderView,
    path: Seq<u8>,
    mode: u32,
    manager: bool,
    answers: Seq<Answer>,
    at: int,
) where E: EnvironmentKind
    requires
        0 <= at < path.len(),
        path[at] == 0,
        answers.len() == 2 + (if builder.geometry is Some { 1int } else { 0 }) + (
        if builder.max_dbs is Some { 1int } else { 0 }) + (if builder.max_readers is Some {
            1int
        } else { 0 }),
        forall|i: int|
            0 <= i < answers.len() - 1 ==> (#[trigger] answers[i]).err_code == 0
                || answers[i].err_code == -1,
    ensures
        ({
            let env = answers[0].created;
            let opening = drive(open_start::<E>(builder, path, mode, manager), answers);
            let calls = opening.calls;
            let g: int = if builder.geometry is Some { 1 } else { 0 };
            let d: int = if builder.max_dbs is Some { 1 } else { 0 };
            let r: int = if builder.max_readers is Some { 1 } else { 0 };
            &&& calls.len() == 2 + g + d + r
            &&& calls[0] is Create
            &&& builder.geometry is Some ==> calls[1] is SetGeometry
            &&& builder.max_dbs is Some ==> calls[1 + g] is SetOption
            &&& builder.max_readers is Some ==> calls[1 + g + d] is SetOption
            &&& calls[1 + g + d + r] == (SetupCall::<Seq<u8>>::Close { env, dont_sync: false })
            &&& opening.result == Some(Err::<EnvironmentView, Error>(Error::Invalid))
        }),
{
    law_setup_follows_the_choices::<E>(builder, path, mode, answers[0].created);
    assert(path.contains(path[at]));
    law_open_refuses_null_in_path::<E>(builder, path, mode, manager, answers);
}

/// Where setup call number `k` is the first that fails, the calls up to it are those of an opening
/// that succeeds; then the environment is flushed and closed, and the error of that call is reported,
/// whatever closing answers.
pub proof fn law_failed_setup_closes_the_environment<E>(
    builder: BuilderView,
    path: Seq<u8>,
    mode: u32,
    manager: bool,
    answers: Seq<Answer>,
    k: int,
) where E: EnvironmentKind
    requires
        answers.len() == k + 3,
        0 <= k < (if builder.geometry is Some { 1int } else { 0 }) + (if builder.max_dbs is Some {
            1int
        } else { 0 }) + (if builder.max_readers is Some { 1int } else { 0 }) + (if exists|i: int|
            0 <= i < path.len() && path[i] == 0 { 0int } else { 1 }),
        forall|i: int|
            0 <= i <= k ==> (#[trigger] answers[i]).err_code == 0 || answers[i].err_code == -1,
        answers[k + 1].err_code != 0 && answers[k + 1].err_code != -1,
    ensures
        ({
            let env = answers[0].created;
            let opening = drive(open_start::<E>(builder, path, mode, manager), answers);
            let calls = opening.calls;
            let g: int = if builder.geometry is Some { 1 } else { 0 };
            let d: int = if builder.max_dbs is Some { 1 } else { 0 };
            let r: int = if builder.max_readers is Some { 1 } else { 0 };
            &&& calls.len() == k + 3
            &&& calls[0] is Create
            &&& builder.geometry matches Some(geometry) ==> calls[1] == (SetupCall::<Seq<u8>>::SetGeometry {
                env,
                geometry: geometry_args(geometry),
            })
            &&& builder.max_dbs matches Some(n) ==> k >= g ==> calls[1 + g] == (
            SetupCall::<Seq<u8>>::SetOption { env, option: 0, value: n as u64 })
            &&& builder.max_readers matches Some(n) ==> k >= g + d ==> calls[1 + g + d] == (
            SetupCall::<Seq<u8>>::SetOption { env, option: 1, value: n as u64 })
            &&& k == g + d + r ==> calls[1 + k] == (SetupCall::<Seq<u8>>::Open {
                env,
                path: path.push(0),
                flags: builder.flags.word() | E::EXTRA_FLAGS,
                mode,
            })
            &&& calls[k + 2] == (SetupCall::<Seq<u8>>::Close { env, dont_sync: false })
            &&& opening.result == Some(
                Err::<EnvironmentView, Error>(error_of(answers[k + 1].err_code)),
            )
        }),
{
    law_setup_follows_the_choices::<E>(builder, path, mode, answers[0].created);
    law_open_reports_first_failure::<E>(builder, path, mode, manager, answers, k);
}

/// An environment that cannot be made leaves nothing to close: the error is reported at once.
pub proof fn law_failed_create_is_reported<E>(
    builder: BuilderView,
    path: Seq<u8>,
    mode: u32,
    manager: bool,
    answers: Seq<Answer>,
) where E: EnvironmentKind
    requires
        answers.len() >= 1,
        answers[0].err_code != 0 && answers[0].err_code != -1,
    ensures
        ({
            let opening = drive(open_start::<E>(builder, path, mode, manager), answers);
            &&& opening.calls.len() == 1 && opening.calls[0] is Create
            &&& opening.result == Some(
                Err::<EnvironmentView, Error>(error_of(answers[0].err_code)),
            )
        }),
{
    law_open_fails_without_environment::<E>(builder, path, mode, manager, answers);
}

proof fn lemma_joined_flags(w: libc::c_uint, kind: libc::c_uint)
    by (bit_vector)
    requires
        w & 0x200000 != 0,
        w & !0x47f74000u32 == 0,
    ensures
        (w | kind) & w == w,
        (w | kind) & kind == kind,
        (w | kind) & !(w | kind) == 0,
        (w | kind) & 0x4000 != 0 <==> w & 0x4000 != 0 || kind & 0x4000 != 0,
        (w | kind) & 0x400000 != 0 <==> w & 0x400000 != 0 || kind & 0x400000 != 0,
        (w | kind) & 0x40000000 != 0 <==> w & 0x40000000 != 0 || kind & 0x40000000 != 0,
        (w | kind) & 0x800000 != 0 <==> w & 0x800000 != 0 || kind & 0x800000 != 0,
        (w | kind) & 0x1000000 != 0 <==> w & 0x1000000 != 0 || kind & 0x1000000 != 0,
        (w | kind) & 0x2000000 != 0 <==> w & 0x2000000 != 0 || kind & 0x2000000 != 0,
        (w | kind) & 0x4000000 != 0 <==> w & 0x4000000 != 0 || kind & 0x4000000 != 0,
        (w | kind) & 0x20000 != 0 <==> w & 0x20000 != 0 || kind & 0x20000 != 0,
        (w | kind) & 0x40000 != 0 <==> w & 0x40000 != 0 || kind & 0x40000 != 0,
        (w | kind) & 0x10000 != 0 <==> w & 0x10000 != 0 || kind & 0x10000 != 0,
        (w | kind) & 0x100000 != 0 <==> w & 0x100000 != 0 || kind & 0x100000 != 0,
        (w | kind) & 0x80000 != 0 <==> kind & 0x80000 != 0,
        (w | kind) & 0x200000 != 0,
{
}

/// The flags that an environment is opened with are those of its options and those of its kind, bit
/// by bit, and no others: each option shows in a bit of its own.
pub proof fn law_open_flags_show_every_option<E>(
    builder: BuilderView,
    path: Seq<u8>,
    mode: u32,
    manager: bool,
    answers: Seq<Answer>,
) where E: EnvironmentKind
    requires
        forall|i: int| 0 <= i < path.len() ==> #[trigger] path[i] != 0,
        answers.len() == 2 + (if builder.geometry is Some { 1int } else { 0 }) + (
        if builder.max_dbs is Some { 1int } else { 0 }) + (if builder.max_readers is Some {
            1int
        } else { 0 }),
        forall|i: int|
            0 <= i < answers.len() ==> (#[trigger] answers[i]).err_code == 0 || answers[i].err_code
                == -1,
    ensures
        drive(open_start::<E>(builder, path, mode, manager), answers).calls.last() matches
            SetupCall::Open { flags, .. } && ({
            let f = builder.flags;
            let kind = E::EXTRA_FLAGS;
            &&& flags & f.word() == f.word()
            &&& flags & kind == kind
            &&& flags & !(f.word() | kind) == 0
            &&& flags & 0x4000 != 0 <==> f.no_sub_dir || kind & 0x4000 != 0
            &&& flags & 0x400000 != 0 <==> f.exclusive || kind & 0x400000 != 0
            &&& flags & 0x40000000 != 0 <==> f.accede || kind & 0x40000000 != 0
            &&& flags & 0x800000 != 0 <==> f.no_rdahead || kind & 0x800000 != 0
            &&& flags & 0x1000000 != 0 <==> f.no_meminit || kind & 0x1000000 != 0
            &&& flags & 0x2000000 != 0 <==> f.coalesce || kind & 0x2000000 != 0
            &&& flags & 0x4000000 != 0 <==> f.liforeclaim || kind & 0x4000000 != 0
            &&& flags & 0x20000 != 0 <==> f.mode is ReadOnly || kind & 0x20000 != 0
            &&& flags & 0x40000 != 0 <==> f.mode == (Mode::ReadWrite {
                sync_mode: SyncMode::NoMetaSync,
            }) || kind & 0x40000 != 0
            &&& flags & 0x10000 != 0 <==> f.mode == (Mode::ReadWrite {
                sync_mode: SyncMode::SafeNoSync,
            }) || f.mode == (Mode::ReadWrite { sync_mode: SyncMode::UtterlyNoSync }) || kind
                & 0x10000 != 0
            &&& flags & 0x100000 != 0 <==> f.mode == (Mode::ReadWrite {
                sync_mode: SyncMode::UtterlyNoSync,
            }) || kind & 0x100000 != 0
            &&& flags & 0x80000 != 0 <==> kind & 0x80000 != 0
            &&& flags & 0x200000 != 0
        }),
{
    law_every_choice_reaches_the_engine::<E>(builder, path, mode, manager, answers);
    law_flag_word_bit_by_bit(builder.flags);
    lemma_joined_flags(builder.flags.word(), E::EXTRA_FLAGS);
}

/// Each parameter of a chosen geometry reaches the storage engine by itself, whatever the others
/// are: a step unchanged, a size as the word that it is, the minimal page size as 0, and as -1 what
/// was left open, the present size always.
pub proof fn law_geometry_is_handed_over(g: Geometry<(Bound, Bound)>)
    ensures
        bounded(g).growth_step == g.growth_step,
        bounded(g).shrink_threshold == g.shrink_threshold,
        bounded(g).page_size == g.page_size,
        bounded(g).size is Some <==> g.size is Some,
        ({
            let args = geometry_args(bounded(g));
            &&& args.size_now == -1
            &&& g.growth_step matches Some(step) ==> args.growth_step == step
            &&& g.growth_step is None ==> args.growth_step == -1
            &&& g.shrink_threshold matches Some(step) ==> args.shrink_threshold == step
            &&& g.shrink_threshold is None ==> args.shrink_threshold == -1
            &&& g.page_size is None ==> args.page_size == -1
            &&& g.page_size == Some(PageSize::MinimalAcceptable) ==> args.page_size == 0
            &&& g.page_size matches Some(PageSize::Exact(n)) ==> args.page_size == if n
                <= isize::MAX {
                n as int
            } else {
                n - usize::MAX - 1
            }
            &&& g.size is None ==> args.size_lower == -1 && args.size_upper == -1
            &&& g.size matches Some((Bound::Unbounded, _)) ==> args.size_lower == -1
            &&& g.size matches Some((_, Bound::Unbounded)) ==> args.size_upper == -1
            &&& g.size matches Some((Bound::Included(n), _)) ==> args.size_lower == if n <= isize::MAX {
                n as int
            } else {
                n - usize::MAX - 1
            }
            &&& g.size matches Some((Bound::Excluded(n), _)) ==> args.size_lower == if n <= isize::MAX {
                n as int
            } else {
                n - usize::MAX - 1
            }
            &&& g.size matches Some((_, Bound::Included(n))) ==> args.size_upper == if n <= isize::MAX {
                n as int
            } else {
                n - usize::MAX - 1
            }
            &&& g.size matches Some((_, Bound::Excluded(n))) ==> args.size_upper == if n <= isize::MAX {
                n as int
            } else {
                n - usize::MAX - 1
            }
        }),
{
    assert forall|n: usize| #[trigger]
        signed_word(n) == if n <= isize::MAX {
            n as int
        } else {
            n - usize::MAX - 1
        } by {
        law_signed_word_keeps_what_fits(n, n);
    }
}

/// An opening after a geometry was set hands each of its parameters to the storage engine, in the
/// call that follows the making of the environment, whatever else was chosen.
pub proof fn law_set_geometry_reaches_the_engine<E>(
    builder: BuilderView,
    g: Geometry<(Bound, Bound)>,
    path: Seq<u8>,
    mode: u32,
    manager: bool,
    answers: Seq<Answer>,
) where E: EnvironmentKind
    requires
        builder.geometry == Some(bounded(g)),
        forall|i: int| 0 <= i < path.len() ==> #[trigger] path[i] != 0,
        answers.len() == 3 + (if builder.max_dbs is Some { 1int } else { 0 }) + (
        if builder.max_readers is Some { 1int } else { 0 }),
        forall|i: int|
            0 <= i < answers.len() ==> (#[trigger] answers[i]).err_code == 0 || answers[i].err_code
                == -1,
    ensures
        drive(open_start::<E>(builder, path, mode, manager), answers).calls[1] matches
            SetupCall::SetGeometry { env, geometry: args } && ({
            &&& env == answers[0].created
            &&& args.growth_step == if g.growth_step is Some { g.growth_step->Some_0 as int } else {
                -1
            }
            &&& args.shrink_threshold == if g.shrink_threshold is Some {
                g.shrink_threshold->Some_0 as int
            } else {
                -1
            }
            &&& g.page_size is None ==> args.page_size == -1
            &&& g.page_size == Some(PageSize::MinimalAcceptable) ==> args.page_size == 0
            &&& g.page_size matches Some(PageSize::Exact(n)) ==> n <= isize::MAX ==> args.page_size
                == n
            &&& args.size_now == -1
            &&& g.size is None ==> args.size_lower == -1 && args.size_upper == -1
            &&& g.size matches Some((Bound::Included(n), _)) ==> n <= isize::MAX ==> args.size_lower
                == n
            &&& g.size matches Some((_, Bound::Excluded(n))) ==> n <= isize::MAX ==> args.size_upper
                == n
        }),
{
    law_every_choice_reaches_the_engine::<E>(builder, path, mode, manager, answers);
    law_geometry_is_handed_over(g);
}

/// A transaction that is begun has the very address that the storage engine or the manager named,
/// and belongs to the environment that it was begun in.
pub proof fn law_transaction_has_the_address_it_was_given<'env, K, E>(
    r: Result<Transaction<'env, K, E>, Error>,
    e: GenericEnvironment<E>,
    err_code: libc::c_int,
    txn: TxnPtr,
) where K: TransactionKind, E: EnvironmentKind
    ensures
        (err_code == 0 || err_code == -1) && began(r, e, begun(err_code, txn)) ==> r is Ok
            && r->Ok_0.ptr() == txn && r->Ok_0.environment() == e,
        err_code != 0 && err_code != -1 && began(r, e, begun(err_code, txn)) ==> r is Err
            && r->Err_0 == error_of(err_code),
        began(r, e, Ok(txn)) ==> r is Ok && r->Ok_0.ptr() == txn && r->Ok_0.environment() == e,
        forall|error: Error|
            #[trigger] began(r, e, Err(error)) ==> r is Err && r->Err_0 == error,
{
}

/// A write transaction is asked for at top level and with no flags, exactly where there is a manager
/// to ask; every reply but `Busy` is final, and is passed on as it is.
pub proof fn law_write_transaction_request(e: EnvironmentView, reply: Result<TxnPtr, Error>)
    ensures
        rw_request() == (TxnManagerMessage::Begin { parent: TxnPtr(0), flags: 0 }),
        e.txn_manager is Some ==> rw_first(e) == Ok::<TxnManagerMessage, Error>(
            TxnManagerMessage::Begin { parent: TxnPtr(0), flags: 0 },
        ),
        e.txn_manager is None ==> rw_first(e) == Err::<TxnManagerMessage, Error>(Error::Access),
        reply == Err::<TxnPtr, Error>(Error::Busy) ==> rw_settled(reply) is None,
        reply != Err::<TxnPtr, Error>(Error::Busy) ==> rw_settled(reply) == Some(reply),
{
    law_transaction_kinds();
}

} // verus!
