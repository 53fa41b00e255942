//! What holds of a whole run.
use vstd::prelude::*;

use crate::runner;
use crate::runner::RunStage;
use crate::text;

verus! {

/// The state after a list of events.
pub open spec fn after<E>(
    state: runner::RunView<E>,
    events: Seq<runner::RunEventView<E>>,
) -> runner::RunView<E>
    decreases events.len(),
{
    if events.len() == 0 {
        state
    } else {
        after(runner::next_state(state, events[0]), events.drop_first())
    }
}

/// The paths that a list of arguments names, in order.
pub open spec fn named_files(argv: Seq<Seq<char>>) -> Seq<Seq<char>>
    decreases argv.len(),
{
    if argv.len() == 0 {
        Seq::empty()
    } else if runner::names_file(argv[0]) {
        seq![argv[0].skip(1)] + named_files(argv.drop_first())
    } else {
        named_files(argv.drop_first())
    }
}

/// The arguments with each one that names a file replaced by the next of `contents`.
pub open spec fn replaced(argv: Seq<Seq<char>>, contents: Seq<Seq<char>>) -> Seq<Seq<char>>
    decreases argv.len(),
{
    if argv.len() == 0 {
        Seq::empty()
    } else if runner::names_file(argv[0]) {
        seq![contents[0]] + replaced(argv.drop_first(), contents.drop_first())
    } else {
        seq![argv[0]] + replaced(argv.drop_first(), contents)
    }
}

/// The events in which files are read, each with its content.
pub open spec fn reads<E>(contents: Seq<Seq<char>>) -> Seq<runner::RunEventView<E>> {
    contents.map_values(|text: Seq<char>| runner::RunEventView::ArgumentRead(Ok(text)))
}

/// An environment variable is its key, an equals sign and its value, the key without
/// an equals sign; one that holds no equals sign is all key.
pub proof fn law_env_pair_joins(s: Seq<char>)
    ensures
        !runner::env_pair(s).0.contains('='),
        s.contains('=') ==> s == runner::env_pair(s).0 + seq!['=']
            + runner::env_pair(s).1,
        !s.contains('=') ==> runner::env_pair(s) == (s, Seq::<char>::empty()),
{
    text::lemma_find(s, '=');
    let n = text::find(s, '=');
    if n < s.len() {
        assert(s[n as int] == '=');
        assert(s == s.take(n as int) + seq!['='] + s.skip(n as int + 1));
    }
}

/// Joining a key without an equals sign to a value and splitting again gives both back.
pub proof fn law_env_pair_splits(key: Seq<char>, value: Seq<char>)
    requires
        !key.contains('='),
    ensures
        runner::env_pair(key + seq!['='] + value) == (key, value),
{
    let s = key + seq!['='] + value;
    assert forall|i: int| 0 <= i < key.len() implies s[i] != '=' by {
        assert(s[i] == key[i]);
        assert(key.contains(key[i]));
    }
    text::lemma_find_unique(s, '=', key.len());
    assert(s.take(key.len() as int) == key);
    assert(s.skip(key.len() as int + 1) == value);
}

/// A run that is over stays as it is.
pub proof fn law_end_is_final<E>(
    state: runner::RunView<E>,
    events: Seq<runner::RunEventView<E>>,
)
    requires
        state is Finished || state is Failed,
    ensures
        after(state, events) == state,
    decreases events.len(),
{
    if events.len() > 0 {
        law_end_is_final(state, events.drop_first());
    }
}

pub proof fn lemma_after_split<E>(
    state: runner::RunView<E>,
    first: Seq<runner::RunEventView<E>>,
    second: Seq<runner::RunEventView<E>>,
)
    ensures
        after(state, first + second) == after(after(state, first), second),
    decreases first.len(),
{
    if first.len() == 0 {
        assert(first + second == second);
    } else {
        assert((first + second).drop_first() == first.drop_first() + second);
        assert((first + second)[0] == first[0]);
        lemma_after_split(runner::next_state(state, first[0]), first.drop_first(), second);
    }
}

/// With every file read, the arguments end up in the configuration in their order,
/// each that names a file replaced by its content.
pub proof fn law_arguments_are_replaced<E>(
    argv: Seq<Seq<char>>,
    contents: Seq<Seq<char>>,
    config: runner::InstanceConfigView,
    kill_timeout: Option<u64>,
)
    requires
        contents.len() == named_files(argv).len(),
    ensures
        after(
            runner::collected::<E>(argv, config, kill_timeout),
            reads(contents),
        ) == (runner::RunView::<E>::Start {
            config: (runner::InstanceConfigView {
                args: config.args + replaced(argv, contents),
                ..config
            }),
            kill_timeout,
        }),
    decreases argv.len(),
{
    if argv.len() == 0 {
        assert(config.args + replaced(argv, contents) == config.args);
    } else if runner::names_file(argv[0]) {
        let events = reads::<E>(contents);
        assert(events.drop_first() == reads::<E>(contents.drop_first()));
        let filled = runner::with_arg(config, contents[0]);
        law_arguments_are_replaced::<E>(
            argv.drop_first(),
            contents.drop_first(),
            filled,
            kill_timeout,
        );
        assert(filled.args + replaced(argv.drop_first(), contents.drop_first()) == config.args
            + replaced(argv, contents));
    } else {
        let filled = runner::with_arg(config, argv[0]);
        law_arguments_are_replaced::<E>(argv.drop_first(), contents, filled, kill_timeout);
        assert(filled.args + replaced(argv.drop_first(), contents) == config.args + replaced(
            argv,
            contents,
        ));
    }
}

/// The files are asked for one at a time, in the order of the arguments that name them:
/// with `contents` read, the next one is asked for.
pub proof fn law_files_are_read_in_order<E>(
    argv: Seq<Seq<char>>,
    contents: Seq<Seq<char>>,
    config: runner::InstanceConfigView,
    kill_timeout: Option<u64>,
)
    requires
        contents.len() < named_files(argv).len(),
    ensures
        after(
            runner::collected::<E>(argv, config, kill_timeout),
            reads(contents),
        ) matches runner::RunView::ReadArgument { path, .. } && path == named_files(
            argv,
        )[contents.len() as int],
    decreases argv.len(),
{
    if runner::names_file(argv[0]) {
        if contents.len() > 0 {
            let events = reads::<E>(contents);
            assert(events.drop_first() == reads::<E>(contents.drop_first()));
            law_files_are_read_in_order::<E>(
                argv.drop_first(),
                contents.drop_first(),
                runner::with_arg(config, contents[0]),
                kill_timeout,
            );
        }
    } else {
        law_files_are_read_in_order::<E>(
            argv.drop_first(),
            contents,
            runner::with_arg(config, argv[0]),
            kill_timeout,
        );
    }
}

/// Arguments that name no file reach the instance as they are, and none is read.
pub proof fn law_plain_arguments_are_kept(argv: Seq<Seq<char>>)
    requires
        forall|i: int| 0 <= i < argv.len() ==> !runner::names_file(#[trigger] argv[i]),
    ensures
        named_files(argv).len() == 0,
        replaced(argv, Seq::empty()) == argv,
    decreases argv.len(),
{
    if argv.len() > 0 {
        assert forall|i: int| 0 <= i < argv.drop_first().len() implies !runner::names_file(
            #[trigger] argv.drop_first()[i],
        ) by {
            assert(argv.drop_first()[i] == argv[i + 1]);
        }
        law_plain_arguments_are_kept(argv.drop_first());
        assert(argv == seq![argv[0]] + argv.drop_first());
    }
}

/// No argument is lost or added: the instance gets the program and one argument for
/// each of the others.
pub proof fn law_argument_count(argv: Seq<Seq<char>>, contents: Seq<Seq<char>>)
    requires
        contents.len() == named_files(argv).len(),
    ensures
        replaced(argv, contents).len() == argv.len(),
    decreases argv.len(),
{
    if argv.len() > 0 {
        if runner::names_file(argv[0]) {
            law_argument_count(argv.drop_first(), contents.drop_first());
        } else {
            law_argument_count(argv.drop_first(), contents);
        }
    }
}

/// The events of a run whose host succeeds up to the start of the instance.
pub open spec fn preparations<E>(code: Seq<u8>, contents: Seq<Seq<char>>) -> Seq<
    runner::RunEventView<E>,
> {
    seq![
        runner::RunEventView::ProgramRead(Ok(code)),
        runner::RunEventView::EngineCreated(Ok(())),
        runner::RunEventView::ModuleCompiled(Ok(())),
    ] + reads(contents)
}

/// A run whose host succeeds gets to start an instance with the program and its
/// arguments, the files among them replaced by their contents, and with every
/// environment variable split.
pub proof fn law_prepared_run_starts<E>(
    args: runner::ArgsView,
    code: Seq<u8>,
    contents: Seq<Seq<char>>,
)
    requires
        contents.len() == named_files(runner::full_argv(args)).len(),
    ensures
        after(
            runner::RunView::<E>::ReadProgram { args },
            preparations(code, contents),
        ) == (runner::RunView::<E>::Start {
            config: (runner::InstanceConfigView {
                args: replaced(runner::full_argv(args), contents),
                ..runner::bare_config(args)
            }),
            kill_timeout: args.kill_timeout,
        }),
{
    let first = seq![
        runner::RunEventView::<E>::ProgramRead(Ok(code)),
        runner::RunEventView::<E>::EngineCreated(Ok(())),
        runner::RunEventView::<E>::ModuleCompiled(Ok(())),
    ];
    let state = runner::RunView::<E>::ReadProgram { args };
    lemma_after_split(state, first, reads::<E>(contents));
    reveal_with_fuel(after, 4);
    assert(first.drop_first().drop_first().drop_first().len() == 0);
    law_arguments_are_replaced::<E>(
        runner::full_argv(args),
        contents,
        runner::bare_config(args),
        args.kill_timeout,
    );
    assert(Seq::<Seq<char>>::empty() + replaced(runner::full_argv(args), contents)
        == replaced(runner::full_argv(args), contents));
}

/// The step at which a state can fail.
pub open spec fn stage_of<E>(state: runner::RunView<E>) -> Option<RunStage> {
    match state {
        runner::RunView::ReadProgram { .. } => Some(RunStage::Program),
        runner::RunView::CreateEngine { .. } => Some(RunStage::Engine),
        runner::RunView::Compile { .. } => Some(RunStage::Module),
        runner::RunView::ReadArgument { .. } => Some(RunStage::Argument),
        runner::RunView::Start { .. } => Some(RunStage::Instance),
        _ => None,
    }
}

/// The step that an event reports a failure of, with its cause.
pub open spec fn failure<E>(event: runner::RunEventView<E>) -> Option<(RunStage, E)> {
    match event {
        runner::RunEventView::ProgramRead(Err(cause)) => Some((RunStage::Program, cause)),
        runner::RunEventView::EngineCreated(Err(cause)) => Some((RunStage::Engine, cause)),
        runner::RunEventView::ModuleCompiled(Err(cause)) => Some((RunStage::Module, cause)),
        runner::RunEventView::ArgumentRead(Err(cause)) => Some((RunStage::Argument, cause)),
        runner::RunEventView::InstanceStarted(Err(cause)) => Some(
            (RunStage::Instance, cause),
        ),
        _ => None,
    }
}

/// The first failure ends the run and is what it fails with, whatever is reported
/// afterwards.
pub proof fn law_first_failure_ends_the_run<E>(
    state: runner::RunView<E>,
    event: runner::RunEventView<E>,
    later: Seq<runner::RunEventView<E>>,
)
    requires
        stage_of(state) is Some,
        failure(event) is Some,
        stage_of(state)->0 == (failure(event)->0).0,
    ensures
        after(state, seq![event] + later) == (runner::RunView::<E>::Failed {
            stage: stage_of(state)->0,
            cause: (failure(event)->0).1,
        }),
{
    assert((seq![event] + later).drop_first() == later);
    law_end_is_final(runner::next_state(state, event), later);
}

/// Once its instance runs, a run cannot fail: however the instance exits, the run
/// finishes.
pub proof fn law_running_run_finishes<E>(
    kill_timeout: Option<u64>,
    exit: Result<(), E>,
)
    ensures
        runner::next_state(
            runner::RunView::<E>::Running { kill_timeout },
            runner::RunEventView::InstanceExited(exit),
        ) == (runner::RunView::<E>::Finished { output: Seq::empty() }),
{
}

/// A run whose host succeeds runs its instance under the time limit that was asked for,
/// and finishes however the instance exits.
pub proof fn law_successful_run_finishes<E>(
    args: runner::ArgsView,
    code: Seq<u8>,
    contents: Seq<Seq<char>>,
    exit: Result<(), E>,
)
    requires
        contents.len() == named_files(runner::full_argv(args)).len(),
    ensures
        after(
            runner::RunView::<E>::ReadProgram { args },
            preparations(code, contents) + seq![runner::RunEventView::InstanceStarted(Ok(()))],
        ) == (runner::RunView::<E>::Running { kill_timeout: args.kill_timeout }),
        after(
            runner::RunView::<E>::ReadProgram { args },
            preparations(code, contents) + seq![
                runner::RunEventView::InstanceStarted(Ok(())),
                runner::RunEventView::InstanceExited(exit),
            ],
        ) == (runner::RunView::<E>::Finished { output: Seq::empty() }),
{
    let state = runner::RunView::<E>::ReadProgram { args };
    let prepared = preparations::<E>(code, contents);
    let started = seq![runner::RunEventView::<E>::InstanceStarted(Ok(()))];
    let exited = seq![
        runner::RunEventView::<E>::InstanceStarted(Ok(())),
        runner::RunEventView::<E>::InstanceExited(exit),
    ];
    law_prepared_run_starts::<E>(args, code, contents);
    lemma_after_split(state, prepared, started);
    lemma_after_split(state, prepared, exited);
    reveal_with_fuel(after, 3);
    assert(started.drop_first().len() == 0);
    assert(exited.drop_first().drop_first().len() == 0);
}

/// The configuration in which the arguments `argv` stand, the files among them replaced
/// by `contents`.
pub open spec fn config_with(
    args: runner::ArgsView,
    argv: Seq<Seq<char>>,
    contents: Seq<Seq<char>>,
) -> runner::InstanceConfigView {
    runner::InstanceConfigView { args: replaced(argv, contents), ..runner::bare_config(args) }
}

/// Whether `state` is one that a run of `args` can be in.
pub open spec fn belongs_to<E>(args: runner::ArgsView, state: runner::RunView<E>) -> bool {
    match state {
        runner::RunView::ReadProgram { args: a } => a == args,
        runner::RunView::CreateEngine { args: a, .. } => a == args,
        runner::RunView::Compile { args: a, .. } => a == args,
        runner::RunView::ReadArgument { path, rest, config, kill_timeout } => {
            &&& kill_timeout == args.kill_timeout
            &&& exists|done: Seq<Seq<char>>, contents: Seq<Seq<char>>|
                #![trigger config_with(args, done, contents)]
                {
                    &&& runner::full_argv(args) == done.push(seq!['@'] + path) + rest
                    &&& contents.len() == named_files(done).len()
                    &&& config == config_with(args, done, contents)
                }
        },
        runner::RunView::Start { config, kill_timeout } => {
            &&& kill_timeout == args.kill_timeout
            &&& exists|contents: Seq<Seq<char>>|
                {
                    &&& contents.len() == named_files(runner::full_argv(args)).len()
                    &&& config == #[trigger] config_with(args, runner::full_argv(args), contents)
                }
        },
        runner::RunView::Running { kill_timeout } => kill_timeout == args.kill_timeout,
        runner::RunView::Finished { output } => output.len() == 0,
        runner::RunView::Failed { .. } => true,
    }
}

proof fn lemma_push_plain(argv: Seq<Seq<char>>, contents: Seq<Seq<char>>, arg: Seq<char>)
    requires
        contents.len() == named_files(argv).len(),
        !runner::names_file(arg),
    ensures
        named_files(argv.push(arg)) == named_files(argv),
        replaced(argv.push(arg), contents) == replaced(argv, contents).push(arg),
    decreases argv.len(),
{
    let longer = argv.push(arg);
    if argv.len() == 0 {
        assert(longer.drop_first().len() == 0);
        assert(named_files(longer) == named_files(longer.drop_first()));
        assert(replaced(longer, contents) == seq![arg] + replaced(longer.drop_first(), contents));
    } else {
        assert(longer.drop_first() == argv.drop_first().push(arg));
        assert(longer[0] == argv[0]);
        if runner::names_file(argv[0]) {
            lemma_push_plain(argv.drop_first(), contents.drop_first(), arg);
        } else {
            lemma_push_plain(argv.drop_first(), contents, arg);
        }
    }
}

proof fn lemma_push_file(
    argv: Seq<Seq<char>>,
    contents: Seq<Seq<char>>,
    arg: Seq<char>,
    content: Seq<char>,
)
    requires
        contents.len() == named_files(argv).len(),
        runner::names_file(arg),
    ensures
        named_files(argv.push(arg)) == named_files(argv).push(arg.skip(1)),
        replaced(argv.push(arg), contents.push(content)) == replaced(argv, contents).push(content),
    decreases argv.len(),
{
    let longer = argv.push(arg);
    let more = contents.push(content);
    if argv.len() == 0 {
        assert(longer.drop_first().len() == 0);
        assert(named_files(longer.drop_first()).len() == 0);
        assert(replaced(longer.drop_first(), more.drop_first()).len() == 0);
        assert(more[0] == content);
    } else {
        assert(longer.drop_first() == argv.drop_first().push(arg));
        assert(longer[0] == argv[0]);
        if runner::names_file(argv[0]) {
            assert(more.drop_first() == contents.drop_first().push(content));
            assert(more[0] == contents[0]);
            lemma_push_file(argv.drop_first(), contents.drop_first(), arg, content);
        } else {
            lemma_push_file(argv.drop_first(), contents, arg, content);
        }
    }
}

proof fn lemma_collected_belongs<E>(
    args: runner::ArgsView,
    done: Seq<Seq<char>>,
    contents: Seq<Seq<char>>,
    pending: Seq<Seq<char>>,
)
    requires
        runner::full_argv(args) == done + pending,
        contents.len() == named_files(done).len(),
    ensures
        belongs_to(
            args,
            runner::collected::<E>(pending, config_with(args, done, contents), args.kill_timeout),
        ),
    decreases pending.len(),
{
    let config = config_with(args, done, contents);
    if pending.len() == 0 {
        assert(done + pending == done);
    } else {
        let arg = pending[0];
        assert(done + pending == done.push(arg) + pending.drop_first());
        if runner::names_file(arg) {
            assert(seq!['@'] + arg.skip(1) == arg);
        } else {
            lemma_push_plain(done, contents, arg);
            assert(runner::with_arg(config, arg) == config_with(args, done.push(arg), contents));
            lemma_collected_belongs::<E>(args, done.push(arg), contents, pending.drop_first());
        }
    }
}

proof fn lemma_step_belongs<E>(
    args: runner::ArgsView,
    state: runner::RunView<E>,
    event: runner::RunEventView<E>,
)
    requires
        belongs_to(args, state),
    ensures
        belongs_to(args, runner::next_state(state, event)),
{
    if let (
        runner::RunView::Compile { .. },
        runner::RunEventView::ModuleCompiled(Ok(_)),
    ) = (state, event) {
        let none = Seq::<Seq<char>>::empty();
        assert(none + runner::full_argv(args) == runner::full_argv(args));
        assert(replaced(none, none) == none);
        assert(config_with(args, none, none) == runner::bare_config(args));
        lemma_collected_belongs::<E>(args, none, none, runner::full_argv(args));
    }
    if let (
        runner::RunView::ReadArgument { path, rest, config, kill_timeout },
        runner::RunEventView::ArgumentRead(Ok(content)),
    ) = (state, event) {
        let (done, contents) = choose|done: Seq<Seq<char>>, contents: Seq<Seq<char>>|
            #![trigger config_with(args, done, contents)]
            {
                &&& runner::full_argv(args) == done.push(seq!['@'] + path) + rest
                &&& contents.len() == named_files(done).len()
                &&& config == config_with(args, done, contents)
            };
        let arg = seq!['@'] + path;
        lemma_push_file(done, contents, arg, content);
        assert(runner::with_arg(config, content) == config_with(
            args,
            done.push(arg),
            contents.push(content),
        ));
        lemma_collected_belongs::<E>(args, done.push(arg), contents.push(content), rest);
    }
}

/// Whatever the host reports, and in whatever order, a run stays true to its arguments:
/// each file that it asks for is named by an argument, those before it being in place;
/// each instance that it starts has all of its arguments and environment; the time limit
/// is the one asked for; and the output of a finished run is empty.
pub proof fn law_run_stays_true<E>(
    args: runner::ArgsView,
    events: Seq<runner::RunEventView<E>>,
)
    ensures
        belongs_to(args, after(runner::RunView::<E>::ReadProgram { args }, events)),
{
    lemma_events_stay_true(args, runner::RunView::<E>::ReadProgram { args }, events);
}

proof fn lemma_events_stay_true<E>(
    args: runner::ArgsView,
    state: runner::RunView<E>,
    events: Seq<runner::RunEventView<E>>,
)
    requires
        belongs_to(args, state),
    ensures
        belongs_to(args, after(state, events)),
    decreases events.len(),
{
    if events.len() > 0 {
        lemma_step_belongs(args, state, events[0]);
        lemma_events_stay_true(
            args,
            runner::next_state(state, events[0]),
            events.drop_first(),
        );
    }
}

/// `state` with the decoding of the output asked for or not.
pub open spec fn with_decoding<E>(state: runner::RunView<E>, decode: bool) -> runner::RunView<E> {
    match state {
        runner::RunView::ReadProgram { args } => runner::RunView::ReadProgram {
            args: runner::ArgsView { decode_js_value: decode, ..args },
        },
        runner::RunView::CreateEngine { args, code } => runner::RunView::CreateEngine {
            args: runner::ArgsView { decode_js_value: decode, ..args },
            code,
        },
        runner::RunView::Compile { args, code } => runner::RunView::Compile {
            args: runner::ArgsView { decode_js_value: decode, ..args },
            code,
        },
        _ => state,
    }
}

/// Whether the output is to be decoded has no effect on the run.
pub proof fn law_decoding_has_no_effect<E>(
    state: runner::RunView<E>,
    events: Seq<runner::RunEventView<E>>,
    decode: bool,
)
    ensures
        after(with_decoding(state, decode), events) == with_decoding(after(state, events), decode),
    decreases events.len(),
{
    if events.len() > 0 {
        let next = runner::next_state(state, events[0]);
        if let runner::RunView::Compile { args, .. } = state {
            lemma_collected_holds_no_args::<E>(
                runner::full_argv(args),
                runner::bare_config(args),
                args.kill_timeout,
            );
        }
        if let (
            runner::RunView::ReadArgument { rest, config, kill_timeout, .. },
            runner::RunEventView::ArgumentRead(Ok(content)),
        ) = (state, events[0]) {
            lemma_collected_holds_no_args::<E>(
                rest,
                runner::with_arg(config, content),
                kill_timeout,
            );
        }
        assert(runner::next_state(with_decoding(state, decode), events[0]) == with_decoding(
            next,
            decode,
        ));
        law_decoding_has_no_effect(next, events.drop_first(), decode);
    }
}

proof fn lemma_collected_holds_no_args<E>(
    pending: Seq<Seq<char>>,
    config: runner::InstanceConfigView,
    kill_timeout: Option<u64>,
)
    ensures
        ({
            let state = runner::collected::<E>(pending, config, kill_timeout);
            state is ReadArgument || state is Start
        }),
    decreases pending.len(),
{
    if pending.len() > 0 && !runner::names_file(pending[0]) {
        lemma_collected_holds_no_args::<E>(
            pending.drop_first(),
            runner::with_arg(config, pending[0]),
            kill_timeout,
        );
    }
}

/// The memory of an instance is exactly its pages where they can be counted in a `u32`,
/// and never more than its pages.
pub proof fn law_memory_size(pages: u32)
    ensures
        pages < 65536 ==> runner::memory_size(pages) == 65536 * pages,
        pages >= 65536 ==> runner::memory_size(pages) == u32::MAX,
        runner::memory_size(pages) <= 65536 * pages,
        runner::memory_size(pages) <= u32::MAX,
{
}

/// The module that is compiled is byte for byte the program that was read, and each step
/// up to it keeps the arguments of the run.
pub proof fn law_program_is_compiled_as_read<E>(args: runner::ArgsView, code: Seq<u8>)
    ensures
        runner::next_state(
            runner::RunView::<E>::ReadProgram { args },
            runner::RunEventView::ProgramRead(Ok(code)),
        ) == (runner::RunView::<E>::CreateEngine { args, code }),
        runner::next_state(
            runner::RunView::<E>::CreateEngine { args, code },
            runner::RunEventView::EngineCreated(Ok(())),
        ) == (runner::RunView::<E>::Compile { args, code }),
        after(
            runner::RunView::<E>::ReadProgram { args },
            seq![
                runner::RunEventView::ProgramRead(Ok(code)),
                runner::RunEventView::EngineCreated(Ok(())),
            ],
        ) == (runner::RunView::<E>::Compile { args, code }),
{
    let events = seq![
        runner::RunEventView::<E>::ProgramRead(Ok(code)),
        runner::RunEventView::<E>::EngineCreated(Ok(())),
    ];
    reveal_with_fuel(after, 3);
    assert(events.drop_first().drop_first().len() == 0);
}

/// The state after events is that after all but the last of them, and then the last.
pub proof fn law_events_follow_each_other<E>(
    state: runner::RunView<E>,
    events: Seq<runner::RunEventView<E>>,
    event: runner::RunEventView<E>,
)
    ensures
        after(state, Seq::empty()) == state,
        after(state, events.push(event)) == runner::next_state(after(state, events), event),
{
    let last = seq![event];
    lemma_after_split(state, events, last);
    assert(events + last == events.push(event));
    reveal_with_fuel(after, 2);
    assert(last.drop_first().len() == 0);
}

/// Each step that fails ends the run with that step and its cause.
pub proof fn law_failed_steps<E>(
    args: runner::ArgsView,
    code: Seq<u8>,
    path: Seq<char>,
    rest: Seq<Seq<char>>,
    config: runner::InstanceConfigView,
    kill_timeout: Option<u64>,
    cause: E,
)
    ensures
        runner::next_state(
            runner::RunView::<E>::ReadProgram { args },
            runner::RunEventView::ProgramRead(Err(cause)),
        ) == (runner::RunView::<E>::Failed { stage: RunStage::Program, cause }),
        runner::next_state(
            runner::RunView::<E>::CreateEngine { args, code },
            runner::RunEventView::EngineCreated(Err(cause)),
        ) == (runner::RunView::<E>::Failed { stage: RunStage::Engine, cause }),
        runner::next_state(
            runner::RunView::<E>::Compile { args, code },
            runner::RunEventView::ModuleCompiled(Err(cause)),
        ) == (runner::RunView::<E>::Failed { stage: RunStage::Module, cause }),
        runner::next_state(
            runner::RunView::<E>::ReadArgument { path, rest, config, kill_timeout },
            runner::RunEventView::ArgumentRead(Err(cause)),
        ) == (runner::RunView::<E>::Failed { stage: RunStage::Argument, cause }),
        runner::next_state(
            runner::RunView::<E>::Start { config, kill_timeout },
            runner::RunEventView::InstanceStarted(Err(cause)),
        ) == (runner::RunView::<E>::Failed { stage: RunStage::Instance, cause }),
{
}

/// An instance that is started runs under the time limit it was started with.
pub proof fn law_started_instance_runs<E>(
    config: runner::InstanceConfigView,
    kill_timeout: Option<u64>,
)
    ensures
        runner::next_state(
            runner::RunView::<E>::Start { config, kill_timeout },
            runner::RunEventView::InstanceStarted(Ok(())),
        ) == (runner::RunView::<E>::Running { kill_timeout }),
{
}

/// What does not answer the question of a state changes nothing.
pub proof fn law_other_events_change_nothing<E>(
    state: runner::RunView<E>,
    event: runner::RunEventView<E>,
)
    requires
        !(state is ReadProgram && event is ProgramRead),
        !(state is CreateEngine && event is EngineCreated),
        !(state is Compile && event is ModuleCompiled),
        !(state is ReadArgument && event is ArgumentRead),
        !(state is Start && event is InstanceStarted),
        !(state is Running && event is InstanceExited),
    ensures
        runner::next_state(state, event) == state,
{
}

proof fn lemma_collected<E>(
    pending: Seq<Seq<char>>,
    config: runner::InstanceConfigView,
    kill_timeout: Option<u64>,
)
    ensures
        match runner::collected::<E>(pending, config, kill_timeout) {
            runner::RunView::Start { config: c, kill_timeout: k } => {
                &&& k == kill_timeout
                &&& c == (runner::InstanceConfigView { args: config.args + pending, ..config })
                &&& forall|i: int|
                    0 <= i < pending.len() ==> !(#[trigger] pending[i].len() > 0 && pending[i][0]
                        == '@')
            },
            runner::RunView::ReadArgument { path, rest, config: c, kill_timeout: k } => {
                let n = pending.len() - rest.len() - 1;
                &&& k == kill_timeout
                &&& n >= 0
                &&& c == (runner::InstanceConfigView {
                    args: config.args + pending.take(n),
                    ..config
                })
                &&& pending == pending.take(n).push(seq!['@'] + path) + rest
                &&& forall|i: int|
                    0 <= i < n ==> !(#[trigger] pending[i].len() > 0 && pending[i][0] == '@')
            },
            _ => false,
        },
    decreases pending.len(),
{
    if pending.len() == 0 {
        assert(config.args + pending == config.args);
    } else {
        let rest = pending.drop_first();
        if runner::names_file(pending[0]) {
            assert(config.args + pending.take(0) == config.args);
            assert(pending[0] == seq!['@'] + pending[0].skip(1));
            assert(pending == pending.take(0).push(pending[0]) + rest);
        } else {
            let filled = runner::with_arg(config, pending[0]);
            lemma_collected::<E>(rest, filled, kill_timeout);
            assert(filled.args + rest == config.args + pending);
            assert forall|i: int| 0 < i < pending.len() implies #[trigger] pending[i] == rest[i
                - 1] by {}
            if let runner::RunView::ReadArgument { path, rest: left, .. } = runner::collected::<E>(
                pending,
                config,
                kill_timeout,
            ) {
                let n = pending.len() - left.len() - 1;
                assert(filled.args + rest.take(n - 1) == config.args + pending.take(n));
                assert(pending.take(n) == seq![pending[0]] + rest.take(n - 1));
                assert(pending == seq![pending[0]] + rest);
                assert(pending == pending.take(n).push(seq!['@'] + path) + left);
            }
        }
    }
}

/// What follows the compilation of the module. The program and its arguments are taken in
/// order, up to the first that starts with an at sign: the file that it names is asked
/// for, and those behind it are kept for later. Where there is none, the instance is
/// started with all of them.
pub proof fn law_compiled_run_goes_on<E>(args: runner::ArgsView, code: Seq<u8>)
    ensures
        match runner::next_state(
            runner::RunView::<E>::Compile { args, code },
            runner::RunEventView::ModuleCompiled(Ok(())),
        ) {
            runner::RunView::Start { config, kill_timeout } => {
                &&& kill_timeout == args.kill_timeout
                &&& config.args == seq![args.program] + args.args
                &&& forall|i: int|
                    0 <= i < config.args.len() ==> !(#[trigger] config.args[i].len() > 0
                        && config.args[i][0] == '@')
            },
            runner::RunView::ReadArgument { path, rest, config, kill_timeout } => {
                &&& kill_timeout == args.kill_timeout
                &&& seq![args.program] + args.args == config.args.push(seq!['@'] + path) + rest
                &&& forall|i: int|
                    0 <= i < config.args.len() ==> !(#[trigger] config.args[i].len() > 0
                        && config.args[i][0] == '@')
            },
            _ => false,
        },
{
    let all = seq![args.program] + args.args;
    let config = runner::bare_config(args);
    lemma_collected::<E>(all, config, args.kill_timeout);
    assert(config.args + all == all);
    if let runner::RunView::ReadArgument { rest, .. } = runner::collected::<E>(
        all,
        config,
        args.kill_timeout,
    ) {
        let n = all.len() - rest.len() - 1;
        assert(config.args + all.take(n) == all.take(n));
        assert forall|i: int| 0 <= i < n implies #[trigger] all.take(n)[i] == all[i] by {}
    }
}

/// How an instance is set up but for its arguments, right after the compilation: the
/// limits are those asked for, each environment variable is there, in its place, as what
/// stands before and behind its first equals sign, and the rest is fixed.
pub proof fn law_compiled_run_sets_up<E>(args: runner::ArgsView, code: Seq<u8>)
    ensures
        ({
            let next = runner::next_state(
                runner::RunView::<E>::Compile { args, code },
                runner::RunEventView::ModuleCompiled(Ok(())),
            );
            let config = if next is Start {
                next->Start_config
            } else {
                next->ReadArgument_config
            };
            &&& config.epoch_deadline == args.epoch_deadline
            &&& config.max_memory_pages == args.max_memory_pages
            &&& config.blobs_dir == "./data/storage_files/blobs"@
            &&& config.tcp_listen_port_range == (0u16, 65535u16)
            &&& config.envs.len() == args.envs.len()
            &&& forall|i: int|
                #![trigger config.envs[i]]
                #![trigger args.envs[i]]
                0 <= i < args.envs.len() ==> {
                    &&& !config.envs[i].0.contains('=')
                    &&& args.envs[i].contains('=') ==> args.envs[i] == config.envs[i].0 + seq!['=']
                        + config.envs[i].1
                    &&& !args.envs[i].contains('=') ==> config.envs[i] == (
                        args.envs[i],
                        Seq::<char>::empty(),
                    )
                }
        }),
{
    lemma_collected::<E>(
        runner::full_argv(args),
        runner::bare_config(args),
        args.kill_timeout,
    );
    lemma_bare_config(args);
}

proof fn lemma_bare_config(args: runner::ArgsView)
    ensures
        ({
            let config = runner::bare_config(args);
            &&& config.args.len() == 0
            &&& config.epoch_deadline == args.epoch_deadline
            &&& config.max_memory_pages == args.max_memory_pages
            &&& config.blobs_dir == "./data/storage_files/blobs"@
            &&& config.tcp_listen_port_range == (0u16, 65535u16)
            &&& config.envs.len() == args.envs.len()
            &&& forall|i: int|
                #![trigger config.envs[i]]
                #![trigger args.envs[i]]
                0 <= i < args.envs.len() ==> {
                    &&& !config.envs[i].0.contains('=')
                    &&& args.envs[i].contains('=') ==> args.envs[i] == config.envs[i].0 + seq!['=']
                        + config.envs[i].1
                    &&& !args.envs[i].contains('=') ==> config.envs[i] == (
                        args.envs[i],
                        Seq::<char>::empty(),
                    )
                }
        }),
{
    let config = runner::bare_config(args);
    assert forall|i: int|
        #![trigger config.envs[i]]
        #![trigger args.envs[i]]
        0 <= i < args.envs.len() implies {
        &&& !config.envs[i].0.contains('=')
        &&& args.envs[i].contains('=') ==> args.envs[i] == config.envs[i].0 + seq!['=']
            + config.envs[i].1
        &&& !args.envs[i].contains('=') ==> config.envs[i] == (args.envs[i], Seq::<char>::empty())
    } by {
        law_env_pair_joins(args.envs[i]);
        assert(config.envs[i] == runner::env_pair(args.envs[i]));
    }
}

/// The content of a file stands, as it is, where the argument that names it stood. The
/// arguments behind it follow in order, up to the next that starts with an at sign, and
/// nothing else of the instance changes.
pub proof fn law_content_takes_its_place<E>(
    path: Seq<char>,
    rest: Seq<Seq<char>>,
    config: runner::InstanceConfigView,
    kill_timeout: Option<u64>,
    content: Seq<char>,
)
    ensures
        match runner::next_state(
            runner::RunView::<E>::ReadArgument { path, rest, config, kill_timeout },
            runner::RunEventView::ArgumentRead(Ok(content)),
        ) {
            runner::RunView::Start { config: c, kill_timeout: k } => {
                &&& k == kill_timeout
                &&& c.args == config.args.push(content) + rest
                &&& forall|i: int|
                    0 <= i < rest.len() ==> !(#[trigger] rest[i].len() > 0 && rest[i][0] == '@')
                &&& c.epoch_deadline == config.epoch_deadline
                &&& c.max_memory_pages == config.max_memory_pages
                &&& c.envs == config.envs
                &&& c.blobs_dir == config.blobs_dir
                &&& c.tcp_listen_port_range == config.tcp_listen_port_range
            },
            runner::RunView::ReadArgument { path: p, rest: r, config: c, kill_timeout: k } => {
                let n = rest.len() - r.len() - 1;
                &&& k == kill_timeout
                &&& n >= 0
                &&& rest == rest.take(n).push(seq!['@'] + p) + r
                &&& c.args == config.args.push(content) + rest.take(n)
                &&& forall|i: int|
                    0 <= i < n ==> !(#[trigger] rest[i].len() > 0 && rest[i][0] == '@')
                &&& c.epoch_deadline == config.epoch_deadline
                &&& c.max_memory_pages == config.max_memory_pages
                &&& c.envs == config.envs
                &&& c.blobs_dir == config.blobs_dir
                &&& c.tcp_listen_port_range == config.tcp_listen_port_range
            },
            _ => false,
        },
{
    lemma_collected::<E>(rest, runner::with_arg(config, content), kill_timeout);
}

proof fn lemma_filter_of_push<A>(s: Seq<A>, a: A, p: spec_fn(A) -> bool)
    ensures
        s.push(a).filter(p) == if p(a) {
            s.filter(p).push(a)
        } else {
            s.filter(p)
        },
{
    reveal(Seq::filter);
    assert(s.push(a).drop_last() == s);
}

/// The files that a list of arguments names are those of its parts that start with an at
/// sign, and each content stands where its file was named.
proof fn lemma_replaced_by_position(
    argv: Seq<Seq<char>>,
    contents: Seq<Seq<char>>,
    p: spec_fn(Seq<char>) -> bool,
)
    requires
        forall|a: Seq<char>| #[trigger] p(a) <==> a.len() > 0 && a[0] == '@',
    ensures
        named_files(argv).len() == argv.filter(p).len(),
        forall|k: int|
            0 <= k < named_files(argv).len() ==> #[trigger] argv.filter(p)[k] == seq!['@']
                + named_files(argv)[k],
        contents.len() == named_files(argv).len() ==> replaced(argv, contents).len() == argv.len(),
        forall|i: int|
            0 <= i < argv.len() && contents.len() == named_files(argv).len()
                ==> #[trigger] replaced(argv, contents)[i] == if p(argv[i]) {
                contents[argv.take(i).filter(p).len() as int]
            } else {
                argv[i]
            },
    decreases argv.len(),
{
    if argv.len() == 0 {
        reveal(Seq::filter);
    } else {
        let front = argv.drop_last();
        let last = argv.last();
        assert(front.push(last) == argv);
        lemma_filter_of_push(front, last, p);
        let some = if p(last) && contents.len() > 0 {
            contents.drop_last()
        } else {
            contents
        };
        lemma_replaced_by_position(front, some, p);
        if p(last) {
            let any = Seq::new(named_files(front).len(), |k: int| Seq::<char>::empty());
            lemma_push_file(front, any, last, Seq::empty());
            assert(last == seq!['@'] + last.skip(1));
        } else {
            let any = Seq::new(named_files(front).len(), |k: int| Seq::<char>::empty());
            lemma_push_plain(front, any, last);
        }
        if contents.len() == named_files(argv).len() {
            if p(last) {
                assert(contents == some.push(contents.last()));
                lemma_push_file(front, some, last, contents.last());
            } else {
                lemma_push_plain(front, some, last);
            }
            assert forall|i: int| 0 <= i < argv.len() implies #[trigger] replaced(argv, contents)[i]
                == if p(argv[i]) {
                contents[argv.take(i).filter(p).len() as int]
            } else {
                argv[i]
            } by {
                if i < front.len() {
                    assert(argv.take(i) == front.take(i));
                    assert(replaced(argv, contents)[i] == replaced(front, some)[i]);
                    if p(argv[i]) {
                        lemma_filter_of_push(front.take(i), front[i], p);
                        assert(front.take(i).push(front[i]) == front.take(i + 1));
                        lemma_filter_prefix(front, i + 1, p);
                    }
                } else {
                    assert(argv.take(i) == front);
                }
            }
        }
    }
}

proof fn lemma_filter_prefix<A>(s: Seq<A>, n: int, p: spec_fn(A) -> bool)
    requires
        0 <= n <= s.len(),
    ensures
        s.take(n).filter(p).len() <= s.filter(p).len(),
    decreases s.len(),
{
    if n == s.len() {
        assert(s.take(n) == s);
    } else {
        let front = s.drop_last();
        assert(front.push(s.last()) == s);
        lemma_filter_of_push(front, s.last(), p);
        assert(s.take(n) == front.take(n));
        lemma_filter_prefix(front, n, p);
    }
}

/// Whatever the host reports, and in whatever order: an instance that is started has the
/// limits that were asked for, every environment variable split at its first equals sign,
/// and as many arguments as were given, the program first. Each that does not start with
/// an at sign is there as it was given.
pub proof fn law_started_instance<E>(
    args: runner::ArgsView,
    events: Seq<runner::RunEventView<E>>,
)
    ensures
        after(
            runner::RunView::<E>::ReadProgram { args },
            events,
        ) matches runner::RunView::Start { config, kill_timeout } ==> {
            let all = seq![args.program] + args.args;
            &&& kill_timeout == args.kill_timeout
            &&& config.epoch_deadline == args.epoch_deadline
            &&& config.max_memory_pages == args.max_memory_pages
            &&& config.blobs_dir == "./data/storage_files/blobs"@
            &&& config.tcp_listen_port_range == (0u16, 65535u16)
            &&& config.args.len() == 1 + args.args.len()
            &&& forall|i: int|
                #![trigger config.args[i]]
                #![trigger all[i]]
                0 <= i < all.len() && !(all[i].len() > 0 && all[i][0] == '@') ==> config.args[i]
                    == all[i]
            &&& config.envs.len() == args.envs.len()
            &&& forall|i: int|
                #![trigger config.envs[i]]
                #![trigger args.envs[i]]
                0 <= i < args.envs.len() ==> {
                    &&& !config.envs[i].0.contains('=')
                    &&& args.envs[i].contains('=') ==> args.envs[i] == config.envs[i].0 + seq!['=']
                        + config.envs[i].1
                    &&& !args.envs[i].contains('=') ==> config.envs[i] == (
                        args.envs[i],
                        Seq::<char>::empty(),
                    )
                }
        },
{
    let state = after(runner::RunView::<E>::ReadProgram { args }, events);
    law_run_stays_true(args, events);
    if let runner::RunView::Start { config, kill_timeout } = state {
        let all = runner::full_argv(args);
        let contents = choose|contents: Seq<Seq<char>>|
            {
                &&& contents.len() == named_files(all).len()
                &&& config == #[trigger] config_with(args, all, contents)
            };
        let p = |a: Seq<char>| a.len() > 0 && a[0] == '@';
        lemma_replaced_by_position(all, contents, p);
        lemma_bare_config(args);
        assert forall|i: int|
            #![trigger config.args[i]]
            #![trigger all[i]]
            0 <= i < all.len() && !(all[i].len() > 0 && all[i][0] == '@') implies config.args[i]
            == all[i] by {
            assert(config.args[i] == replaced(all, contents)[i]);
            assert(!p(all[i]));
        }
    }
}

/// A run whose host succeeds, with `contents` read so far. The files asked for are those
/// that the program and the arguments name with an at sign, in order. With all of them
/// read, the instance is started: each content stands, as it was read, where its file was
/// named, and everything else is as it was given.
pub proof fn law_contents_stand_where_files_were_named<E>(
    args: runner::ArgsView,
    code: Seq<u8>,
    contents: Seq<Seq<char>>,
)
    requires
        contents.len() <= (seq![args.program] + args.args).filter(
            |a: Seq<char>| a.len() > 0 && a[0] == '@',
        ).len(),
    ensures
        ({
            let names_a_file = |a: Seq<char>| a.len() > 0 && a[0] == '@';
            let all = seq![args.program] + args.args;
            let events = seq![
                runner::RunEventView::<E>::ProgramRead(Ok(code)),
                runner::RunEventView::<E>::EngineCreated(Ok(())),
                runner::RunEventView::<E>::ModuleCompiled(Ok(())),
            ] + Seq::new(
                contents.len(),
                |k: int| runner::RunEventView::<E>::ArgumentRead(Ok(contents[k])),
            );
            match after(runner::RunView::<E>::ReadProgram { args }, events) {
                runner::RunView::ReadArgument { path, .. } => {
                    &&& contents.len() < all.filter(names_a_file).len()
                    &&& all.filter(names_a_file)[contents.len() as int] == seq!['@'] + path
                },
                runner::RunView::Start { config, kill_timeout } => {
                    &&& contents.len() == all.filter(names_a_file).len()
                    &&& kill_timeout == args.kill_timeout
                    &&& config.args.len() == all.len()
                    &&& forall|i: int|
                        #![trigger config.args[i]]
                        #![trigger all[i]]
                        0 <= i < all.len() ==> config.args[i] == if all[i].len() > 0 && all[i][0]
                            == '@' {
                            contents[all.take(i).filter(names_a_file).len() as int]
                        } else {
                            all[i]
                        }
                },
                _ => false,
            }
        }),
{
    let p = |a: Seq<char>| a.len() > 0 && a[0] == '@';
    let all = seq![args.program] + args.args;
    let first = seq![
        runner::RunEventView::<E>::ProgramRead(Ok(code)),
        runner::RunEventView::<E>::EngineCreated(Ok(())),
        runner::RunEventView::<E>::ModuleCompiled(Ok(())),
    ];
    let state = runner::RunView::<E>::ReadProgram { args };
    let events = first + Seq::new(
        contents.len(),
        |k: int| runner::RunEventView::<E>::ArgumentRead(Ok(contents[k])),
    );
    assert(events == first + reads::<E>(contents));
    lemma_after_split(state, first, reads::<E>(contents));
    reveal_with_fuel(after, 4);
    assert(first.drop_first().drop_first().drop_first().len() == 0);
    lemma_replaced_by_position(all, contents, p);
    lemma_bare_config(args);
    if contents.len() < all.filter(p).len() {
        law_files_are_read_in_order::<E>(
            all,
            contents,
            runner::bare_config(args),
            args.kill_timeout,
        );
    } else {
        law_prepared_run_starts::<E>(args, code, contents);
        assert(events == preparations::<E>(code, contents));
    }
}

/// An argument names a file where it starts with an at sign, and only there.
pub proof fn law_file_arguments(path: Seq<char>, arg: Seq<char>)
    ensures
        runner::names_file(seq!['@'] + path),
        runner::names_file(arg) <==> arg.len() > 0 && arg[0] == '@',
{
}

} // verus!
