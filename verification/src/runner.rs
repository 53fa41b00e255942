//! The command line runner: what a run asks of its host, step by step.
use vstd::prelude::*;

use crate::run_laws;
use crate::text;
use crate::text::chars;

verus! {

/// Default limit on the memory of an instance, in pages.
pub const DEFAULT_MAX_MEMORY_PAGES: u32 = 256;

/// Default time of one epoch tick, in milliseconds.
pub const DEFAULT_TICK_TIME_MS: u64 = 10;

/// Default number of ticks before an epoch deadline.
pub const DEFAULT_EPOCH_DEADLINE: u64 = 20;

/// The size of a page of WebAssembly memory, in bytes.
pub const PAGE_SIZE: u32 = 65536;

/// The compiler backend to use.
#[derive(Clone, Copy, Debug, PartialEq, Eq, Structural)]
pub enum Compiler {
    Auto,
    Cranelift,
    Winch,
}

/// The compilation strategy of the engine.
#[derive(Clone, Copy, Debug, PartialEq, Eq, Structural)]
pub enum Strategy {
    Auto,
    Cranelift,
    Winch,
}

/// The strategy that a compiler backend stands for.
pub open spec fn strategy_of(compiler: Compiler) -> Strategy {
    match compiler {
        Compiler::Auto => Strategy::Auto,
        Compiler::Cranelift => Strategy::Cranelift,
        Compiler::Winch => Strategy::Winch,
    }
}

impl From<Compiler> for Strategy {
    fn from(compiler: Compiler) -> (strategy: Self) {
        match compiler {
            Compiler::Auto => Strategy::Auto,
            Compiler::Cranelift => Strategy::Cranelift,
            Compiler::Winch => Strategy::Winch,
        }
    }
}

impl vstd::std_specs::convert::FromSpecImpl<Compiler> for Strategy {
    open spec fn obeys_from_spec() -> bool {
        true
    }

    open spec fn from_spec(compiler: Compiler) -> Self {
        strategy_of(compiler)
    }
}

/// The arguments of a run.
#[derive(Debug)]
pub struct Args {
    /// Max memory pages.
    pub max_memory_pages: u32,
    /// Decode the output as a JavaScript value.
    pub decode_js_value: bool,
    /// Seconds after which the instance is stopped.
    pub kill_timeout: Option<u64>,
    /// The time of a single epoch tick.
    pub tick_time_ms: u64,
    /// The number of ticks of the epoch deadline.
    pub epoch_deadline: u64,
    /// The compiler to use.
    pub compiler: Compiler,
    /// Environment variables, each as `KEY=VALUE`.
    pub envs: Vec<String>,
    /// The program to run.
    pub program: String,
    /// The arguments that the program gets.
    pub args: Vec<String>,
}

/// What the arguments of a run say.
pub ghost struct ArgsView {
    pub max_memory_pages: u32,
    pub decode_js_value: bool,
    pub kill_timeout: Option<u64>,
    pub tick_time_ms: u64,
    pub epoch_deadline: u64,
    pub compiler: Compiler,
    pub envs: Seq<Seq<char>>,
    pub program: Seq<char>,
    pub args: Seq<Seq<char>>,
}

impl View for Args {
    type V = ArgsView;

    open spec fn view(&self) -> ArgsView {
        ArgsView {
            max_memory_pages: self.max_memory_pages,
            decode_js_value: self.decode_js_value,
            kill_timeout: self.kill_timeout,
            tick_time_ms: self.tick_time_ms,
            epoch_deadline: self.epoch_deadline,
            compiler: self.compiler,
            envs: text::string_views(self.envs@),
            program: self.program@,
            args: text::string_views(self.args@),
        }
    }
}

/// How the engine is set up.
#[derive(Clone, Copy, Debug, PartialEq, Eq, Structural)]
pub struct EngineConfig {
    pub strategy: Strategy,
    pub tick_time_ms: u64,
    /// The memory that an instance may take, in bytes.
    pub instance_memory_size: usize,
    /// The number of instances for which memory is reserved ahead.
    pub pooled_instances: u32,
}

/// How an instance is started. It gets no runtime calls.
#[derive(Debug)]
pub struct InstanceConfig {
    pub epoch_deadline: u64,
    pub max_memory_pages: u32,
    pub args: Vec<String>,
    pub envs: Vec<(String, String)>,
    pub blobs_dir: String,
    /// The first and the last port that the instance may listen on.
    pub tcp_listen_port_range: (u16, u16),
}

/// What the configuration of an instance says.
pub ghost struct InstanceConfigView {
    pub epoch_deadline: u64,
    pub max_memory_pages: u32,
    pub args: Seq<Seq<char>>,
    pub envs: Seq<(Seq<char>, Seq<char>)>,
    pub blobs_dir: Seq<char>,
    pub tcp_listen_port_range: (u16, u16),
}

/// The character sequences that a list of pairs of strings holds.
pub open spec fn pair_views(list: Seq<(String, String)>) -> Seq<(Seq<char>, Seq<char>)> {
    list.map_values(|p: (String, String)| (p.0@, p.1@))
}

impl View for InstanceConfig {
    type V = InstanceConfigView;

    open spec fn view(&self) -> InstanceConfigView {
        InstanceConfigView {
            epoch_deadline: self.epoch_deadline,
            max_memory_pages: self.max_memory_pages,
            args: text::string_views(self.args@),
            envs: pair_views(self.envs@),
            blobs_dir: self.blobs_dir@,
            tcp_listen_port_range: self.tcp_listen_port_range,
        }
    }
}

/// The key and the value of an environment variable: what stands before the first
/// equals sign and what stands behind it. Without one, all of it is the key.
pub open spec fn env_pair(s: Seq<char>) -> (Seq<char>, Seq<char>) {
    let n = text::find(s, '=');
    if n >= s.len() {
        (s, Seq::empty())
    } else {
        (s.take(n as int), s.skip(n as int + 1))
    }
}

/// Whether an argument names a file whose content takes its place.
pub open spec fn names_file(arg: Seq<char>) -> bool {
    arg.len() > 0 && arg[0] == '@'
}

/// The memory that `pages` pages take, in bytes, capped at the largest `u32`.
pub open spec fn memory_size(pages: u32) -> usize {
    if pages * PAGE_SIZE > u32::MAX {
        u32::MAX as usize
    } else {
        (pages * PAGE_SIZE) as usize
    }
}

/// Splits an environment variable into key and value.
pub fn split_env(s: &str) -> (pair: (String, String))
    ensures
        (pair.0@, pair.1@) == env_pair(s@),
        !pair.0@.contains('='),
        s@.contains('=') ==> s@ == pair.0@ + seq!['='] + pair.1@,
        !s@.contains('=') ==> pair.0@ == s@ && pair.1@.len() == 0,
{
    let list = chars(s);
    let mut n: usize = 0;
    while n < list.len() && list[n] != '='
        invariant
            n <= list@.len(),
            forall|i: int| 0 <= i < n ==> list@[i] != '=',
        decreases list@.len() - n,
    {
        n += 1;
    }
    proof {
        text::lemma_find_unique(s@, '=', n as nat);
        run_laws::law_env_pair_joins(s@);
    }
    if n == list.len() {
        (s.to_owned(), String::new())
    } else {
        (s.substring_char(0, n).to_owned(), s.substring_char(n + 1, list.len()).to_owned())
    }
}

/// Splits every environment variable into key and value.
pub fn split_envs(envs: &Vec<String>) -> (pairs: Vec<(String, String)>)
    ensures
        pair_views(pairs@) == text::string_views(envs@).map_values(
            |s: Seq<char>| env_pair(s),
        ),
        pairs@.len() == envs@.len(),
        forall|i: int|
            #![trigger pairs@[i]]
            #![trigger envs@[i]]
            0 <= i < envs@.len() ==> {
                &&& !pairs@[i].0@.contains('=')
                &&& envs@[i]@.contains('=') ==> envs@[i]@ == pairs@[i].0@ + seq!['=']
                    + pairs@[i].1@
                &&& !envs@[i]@.contains('=') ==> pairs@[i].0@ == envs@[i]@ && pairs@[i].1@.len()
                    == 0
            },
{
    let mut pairs: Vec<(String, String)> = Vec::new();
    let mut i: usize = 0;
    while i < envs.len()
        invariant
            i <= envs@.len(),
            pairs@.len() == i,
            forall|k: int|
                0 <= k < i ==> (pairs@[k].0@, pairs@[k].1@) == env_pair(#[trigger] envs@[k]@),
        decreases envs@.len() - i,
    {
        pairs.push(split_env(envs[i].as_str()));
        i += 1;
    }
    assert forall|k: int|
        #![trigger pairs@[k]]
        #![trigger envs@[k]]
        0 <= k < envs@.len() implies {
        &&& !pairs@[k].0@.contains('=')
        &&& envs@[k]@.contains('=') ==> envs@[k]@ == pairs@[k].0@ + seq!['='] + pairs@[k].1@
        &&& !envs@[k]@.contains('=') ==> pairs@[k].0@ == envs@[k]@ && pairs@[k].1@.len() == 0
    } by {
        run_laws::law_env_pair_joins(envs@[k]@);
    }
    pairs
}

/// The path that an argument names, if it names a file.
pub fn file_of(arg: &str) -> (path: Option<String>)
    ensures
        path is Some <==> names_file(arg@),
        path matches Some(p) ==> p@ == arg@.skip(1),
        path is Some <==> arg@.len() > 0 && arg@[0] == '@',
        path matches Some(p) ==> arg@ == seq!['@'] + p@,
{
    let n = arg.unicode_len();
    if n > 0 && arg.get_char(0) == '@' {
        let path = arg.substring_char(1, n).to_owned();
        assert(path@ == arg@.skip(1));
        Some(path)
    } else {
        None
    }
}

impl Args {
    /// How the engine of this run is set up.
    pub fn engine_config(&self) -> (config: EngineConfig)
        ensures
            config.strategy == strategy_of(self.compiler),
            config.tick_time_ms == self.tick_time_ms,
            config.instance_memory_size == memory_size(self.max_memory_pages),
            config.pooled_instances == 0,
            self.compiler is Auto ==> config.strategy == Strategy::Auto,
            self.compiler is Cranelift ==> config.strategy == Strategy::Cranelift,
            self.compiler is Winch ==> config.strategy == Strategy::Winch,
            self.max_memory_pages < 65536 ==> config.instance_memory_size == 65536
                * self.max_memory_pages,
            self.max_memory_pages >= 65536 ==> config.instance_memory_size == u32::MAX,
    {
        let bytes: u64 = self.max_memory_pages as u64 * PAGE_SIZE as u64;
        let size: u32 = if bytes > u32::MAX as u64 {
            u32::MAX
        } else {
            bytes as u32
        };
        EngineConfig {
            strategy: Strategy::from(self.compiler),
            tick_time_ms: self.tick_time_ms,
            instance_memory_size: size as usize,
            pooled_instances: 0,
        }
    }
}

/// The step at which a run can fail.
#[derive(Clone, Copy, Debug, PartialEq, Eq, Structural)]
pub enum RunStage {
    Program,
    Engine,
    Module,
    Argument,
    Instance,
}

/// What is said of a failure beside its cause.
pub open spec fn stage_context(stage: RunStage) -> Option<Seq<char>> {
    match stage {
        RunStage::Program => None,
        RunStage::Engine => Some("failed to create Wasm engine"@),
        RunStage::Module => None,
        RunStage::Argument => Some("failed to read file"@),
        RunStage::Instance => Some("failed to start the instance"@),
    }
}

impl RunStage {
    /// What is said of a failure at this step beside its cause.
    pub fn context(self) -> (message: Option<&'static str>)
        ensures
            message is Some <==> stage_context(self) is Some,
            message matches Some(m) ==> stage_context(self) == Some(m@),
            self is Program || self is Module ==> message is None,
            self is Engine ==> message is Some && message->0@ == "failed to create Wasm engine"@,
            self is Argument ==> message is Some && message->0@ == "failed to read file"@,
            self is Instance ==> message is Some && message->0@ == "failed to start the instance"@,
    {
        match self {
            RunStage::Program => None,
            RunStage::Engine => Some("failed to create Wasm engine"),
            RunStage::Module => None,
            RunStage::Argument => Some("failed to read file"),
            RunStage::Instance => Some("failed to start the instance"),
        }
    }
}

/// A run in progress: each state names what the host has to do next.
pub enum RunState<E> {
    /// Read the file `args.program`.
    ReadProgram { args: Args },
    /// Create the engine that `args.engine_config()` describes.
    CreateEngine { args: Args, code: Vec<u8> },
    /// Compile `code` with that engine.
    Compile { args: Args, code: Vec<u8> },
    /// Read the file at `path` as text: it takes the place of the argument that names
    /// it. Those before it are in `config` already, those behind it are `rest`, the
    /// next one last.
    ReadArgument {
        path: String,
        rest: Vec<String>,
        config: InstanceConfig,
        kill_timeout: Option<u64>,
    },
    /// Start an instance of the module.
    Start { config: InstanceConfig, kill_timeout: Option<u64> },
    /// Wait for the instance, and stop it after `kill_timeout` seconds if that is given.
    Running { kill_timeout: Option<u64> },
    /// Nothing: the run is over.
    Finished { output: Vec<u8> },
    /// Nothing: the run has failed.
    Failed { stage: RunStage, cause: E },
}

/// What the host has done.
pub enum RunEvent<E> {
    ProgramRead(Result<Vec<u8>, E>),
    EngineCreated(Result<(), E>),
    ModuleCompiled(Result<(), E>),
    ArgumentRead(Result<String, E>),
    InstanceStarted(Result<(), E>),
    InstanceExited(Result<(), E>),
}

/// What the state of a run says.
pub ghost enum RunView<E> {
    ReadProgram { args: ArgsView },
    CreateEngine { args: ArgsView, code: Seq<u8> },
    Compile { args: ArgsView, code: Seq<u8> },
    ReadArgument {
        path: Seq<char>,
        rest: Seq<Seq<char>>,
        config: InstanceConfigView,
        kill_timeout: Option<u64>,
    },
    Start { config: InstanceConfigView, kill_timeout: Option<u64> },
    Running { kill_timeout: Option<u64> },
    Finished { output: Seq<u8> },
    Failed { stage: RunStage, cause: E },
}

/// What an event of a run says.
pub ghost enum RunEventView<E> {
    ProgramRead(Result<Seq<u8>, E>),
    EngineCreated(Result<(), E>),
    ModuleCompiled(Result<(), E>),
    ArgumentRead(Result<Seq<char>, E>),
    InstanceStarted(Result<(), E>),
    InstanceExited(Result<(), E>),
}

impl<E> View for RunState<E> {
    type V = RunView<E>;

    open spec fn view(&self) -> RunView<E> {
        match *self {
            RunState::ReadProgram { args } => RunView::ReadProgram { args: args@ },
            RunState::CreateEngine { args, code } => RunView::CreateEngine {
                args: args@,
                code: code@,
            },
            RunState::Compile { args, code } => RunView::Compile { args: args@, code: code@ },
            RunState::ReadArgument { path, rest, config, kill_timeout } => {
                RunView::ReadArgument {
                    path: path@,
                    rest: text::string_views(rest@).reverse(),
                    config: config@,
                    kill_timeout,
                }
            },
            RunState::Start { config, kill_timeout } => RunView::Start {
                config: config@,
                kill_timeout,
            },
            RunState::Running { kill_timeout } => RunView::Running { kill_timeout },
            RunState::Finished { output } => RunView::Finished { output: output@ },
            RunState::Failed { stage, cause } => RunView::Failed { stage, cause },
        }
    }
}

impl<E> View for RunEvent<E> {
    type V = RunEventView<E>;

    open spec fn view(&self) -> RunEventView<E> {
        match *self {
            RunEvent::ProgramRead(Ok(code)) => RunEventView::ProgramRead(Ok(code@)),
            RunEvent::ProgramRead(Err(cause)) => RunEventView::ProgramRead(Err(cause)),
            RunEvent::EngineCreated(done) => RunEventView::EngineCreated(done),
            RunEvent::ModuleCompiled(done) => RunEventView::ModuleCompiled(done),
            RunEvent::ArgumentRead(Ok(text)) => RunEventView::ArgumentRead(Ok(text@)),
            RunEvent::ArgumentRead(Err(cause)) => RunEventView::ArgumentRead(Err(cause)),
            RunEvent::InstanceStarted(done) => RunEventView::InstanceStarted(done),
            RunEvent::InstanceExited(done) => RunEventView::InstanceExited(done),
        }
    }
}

/// `config` with one more argument.
pub open spec fn with_arg(config: InstanceConfigView, arg: Seq<char>) -> InstanceConfigView {
    InstanceConfigView { args: config.args.push(arg), ..config }
}

/// The configuration of the instance before any argument is in it.
pub open spec fn bare_config(args: ArgsView) -> InstanceConfigView {
    InstanceConfigView {
        epoch_deadline: args.epoch_deadline,
        max_memory_pages: args.max_memory_pages,
        args: Seq::empty(),
        envs: args.envs.map_values(|s: Seq<char>| env_pair(s)),
        blobs_dir: "./data/storage_files/blobs"@,
        tcp_listen_port_range: (0, 65535),
    }
}

/// The arguments that the instance is given: the program, then the arguments behind it.
pub open spec fn full_argv(args: ArgsView) -> Seq<Seq<char>> {
    seq![args.program] + args.args
}

/// The state in which the arguments up to the next one that names a file have been
/// put into `config`.
pub open spec fn collected<E>(
    pending: Seq<Seq<char>>,
    config: InstanceConfigView,
    kill_timeout: Option<u64>,
) -> RunView<E>
    decreases pending.len(),
{
    if pending.len() == 0 {
        RunView::Start { config, kill_timeout }
    } else if names_file(pending[0]) {
        RunView::ReadArgument {
            path: pending[0].skip(1),
            rest: pending.drop_first(),
            config,
            kill_timeout,
        }
    } else {
        collected(pending.drop_first(), with_arg(config, pending[0]), kill_timeout)
    }
}

/// The state that follows `state` when the host reports `event`. An event that does
/// not answer what `state` asks for changes nothing.
pub open spec fn next_state<E>(state: RunView<E>, event: RunEventView<E>) -> RunView<E> {
    match (state, event) {
        (RunView::ReadProgram { args }, RunEventView::ProgramRead(read)) => match read {
            Ok(code) => RunView::CreateEngine { args, code },
            Err(cause) => RunView::Failed { stage: RunStage::Program, cause },
        },
        (RunView::CreateEngine { args, code }, RunEventView::EngineCreated(done)) => match done {
            Ok(_) => RunView::Compile { args, code },
            Err(cause) => RunView::Failed { stage: RunStage::Engine, cause },
        },
        (RunView::Compile { args, code }, RunEventView::ModuleCompiled(done)) => match done {
            Ok(_) => collected(full_argv(args), bare_config(args), args.kill_timeout),
            Err(cause) => RunView::Failed { stage: RunStage::Module, cause },
        },
        (
            RunView::ReadArgument { path, rest, config, kill_timeout },
            RunEventView::ArgumentRead(read),
        ) => match read {
            Ok(text) => collected(rest, with_arg(config, text), kill_timeout),
            Err(cause) => RunView::Failed { stage: RunStage::Argument, cause },
        },
        (RunView::Start { config, kill_timeout }, RunEventView::InstanceStarted(done)) => {
            match done {
                Ok(_) => RunView::Running { kill_timeout },
                Err(cause) => RunView::Failed { stage: RunStage::Instance, cause },
            }
        },
        (RunView::Running { kill_timeout }, RunEventView::InstanceExited(_)) => {
            RunView::Finished { output: Seq::empty() }
        },
        _ => state,
    }
}

/// Puts the arguments of `pending`, the next one last, up to one that names a file into
/// `config`.
fn collect<E>(pending: Vec<String>, config: InstanceConfig, kill_timeout: Option<u64>) -> (state:
    RunState<E>)
    ensures
        state is Start || state is ReadArgument,
        state@ == collected::<E>(
            text::string_views(pending@).reverse(),
            config@,
            kill_timeout,
        ),
{
    let mut rest = pending;
    let mut filled = config;
    let ghost target = collected::<E>(
        text::string_views(rest@).reverse(),
        filled@,
        kill_timeout,
    );
    loop
        invariant
            target == collected::<E>(
                text::string_views(rest@).reverse(),
                filled@,
                kill_timeout,
            ),
            target == collected::<E>(
                text::string_views(pending@).reverse(),
                config@,
                kill_timeout,
            ),
        decreases rest@.len(),
    {
        let ghost before = text::string_views(rest@).reverse();
        match rest.pop() {
            None => {
                return RunState::Start { config: filled, kill_timeout };
            },
            Some(arg) => {
                assert(before[0] == arg@);
                assert(before.drop_first() == text::string_views(rest@).reverse());
                match file_of(arg.as_str()) {
                    Some(path) => {
                        return RunState::ReadArgument { path, rest, config: filled, kill_timeout };
                    },
                    None => {
                        let ghost args = filled@.args;
                        filled.args.push(arg);
                        assert(filled@.args == args.push(arg@));
                    },
                }
            },
        }
    }
}

/// Starts a run.
pub fn run<E>(args: Args) -> (state: RunState<E>)
    ensures
        state@ == (RunView::<E>::ReadProgram { args: args@ }),
        state == (RunState::<E>::ReadProgram { args }),
{
    RunState::ReadProgram { args }
}

/// The first state behind the compilation of the module.
fn collect_all<E>(args: Args) -> (state: RunState<E>)
    ensures
        state is Start || state is ReadArgument,
        state@ == collected::<E>(full_argv(args@), bare_config(args@), args.kill_timeout),
{
    let config = InstanceConfig {
        epoch_deadline: args.epoch_deadline,
        max_memory_pages: args.max_memory_pages,
        args: Vec::new(),
        envs: split_envs(&args.envs),
        blobs_dir: "./data/storage_files/blobs".to_owned(),
        tcp_listen_port_range: (0, 65535),
    };
    assert(config@.args == Seq::<Seq<char>>::empty());
    let ghost given = args@;
    let mut list = args.args;
    let mut pending: Vec<String> = Vec::new();
    loop
        invariant
            given.args == text::string_views(list@) + text::string_views(
                pending@,
            ).reverse(),
        ensures
            given.args == text::string_views(pending@).reverse(),
        decreases list@.len(),
    {
        let ghost front = text::string_views(list@);
        let ghost back = text::string_views(pending@).reverse();
        match list.pop() {
            None => {
                break;
            },
            Some(arg) => {
                assert(front == text::string_views(list@).push(arg@));
                pending.push(arg);
                assert(text::string_views(pending@).reverse() == seq![arg@] + back);
            },
        }
    }
    let ghost behind = text::string_views(pending@).reverse();
    pending.push(args.program);
    assert(text::string_views(pending@).reverse() == seq![given.program] + behind);
    collect(pending, config, args.kill_timeout)
}

impl<E> RunState<E> {
    /// The state that follows when the host reports `event`.
    pub fn step(self, event: RunEvent<E>) -> (next: RunState<E>)
        ensures
            next@ == next_state(self@, event@),
            match (self, event) {
                (RunState::ReadProgram { args }, RunEvent::ProgramRead(Ok(code))) => next == (
                RunState::<E>::CreateEngine { args, code }),
                (RunState::ReadProgram { .. }, RunEvent::ProgramRead(Err(cause))) => next == (
                RunState::<E>::Failed { stage: RunStage::Program, cause }),
                (RunState::CreateEngine { args, code }, RunEvent::EngineCreated(Ok(_))) => next
                    == (RunState::<E>::Compile { args, code }),
                (RunState::CreateEngine { .. }, RunEvent::EngineCreated(Err(cause))) => next == (
                RunState::<E>::Failed { stage: RunStage::Engine, cause }),
                (RunState::Compile { .. }, RunEvent::ModuleCompiled(Ok(_))) => next is Start
                    || next is ReadArgument,
                (RunState::Compile { .. }, RunEvent::ModuleCompiled(Err(cause))) => next == (
                RunState::<E>::Failed { stage: RunStage::Module, cause }),
                (RunState::ReadArgument { .. }, RunEvent::ArgumentRead(Ok(_))) => next is Start
                    || next is ReadArgument,
                (RunState::ReadArgument { .. }, RunEvent::ArgumentRead(Err(cause))) => next == (
                RunState::<E>::Failed { stage: RunStage::Argument, cause }),
                (
                    RunState::Start { kill_timeout, .. },
                    RunEvent::InstanceStarted(Ok(_)),
                ) => next == (RunState::<E>::Running { kill_timeout }),
                (RunState::Start { .. }, RunEvent::InstanceStarted(Err(cause))) => next == (
                RunState::<E>::Failed { stage: RunStage::Instance, cause }),
                (RunState::Running { .. }, RunEvent::InstanceExited(_)) => next
                    matches RunState::Finished { output } && output@.len() == 0,
                (state, _) => next == state,
            },
    {
        match (self, event) {
            (RunState::ReadProgram { args }, RunEvent::ProgramRead(read)) => match read {
                Ok(code) => RunState::CreateEngine { args, code },
                Err(cause) => RunState::Failed { stage: RunStage::Program, cause },
            },
            (RunState::CreateEngine { args, code }, RunEvent::EngineCreated(done)) => match done {
                Ok(_) => RunState::Compile { args, code },
                Err(cause) => RunState::Failed { stage: RunStage::Engine, cause },
            },
            (RunState::Compile { args, code: _ }, RunEvent::ModuleCompiled(done)) => match done {
                Ok(_) => collect_all(args),
                Err(cause) => RunState::Failed { stage: RunStage::Module, cause },
            },
            (
                RunState::ReadArgument { path: _, rest, config, kill_timeout },
                RunEvent::ArgumentRead(read),
            ) => match read {
                Ok(text) => {
                    let mut filled = config;
                    filled.args.push(text);
                    assert(filled@.args == config@.args.push(text@));
                    collect(rest, filled, kill_timeout)
                },
                Err(cause) => RunState::Failed { stage: RunStage::Argument, cause },
            },
            (RunState::Start { config: _, kill_timeout }, RunEvent::InstanceStarted(done)) => {
                match done {
                    Ok(_) => RunState::Running { kill_timeout },
                    Err(cause) => RunState::Failed { stage: RunStage::Instance, cause },
                }
            },
            (RunState::Running { kill_timeout: _ }, RunEvent::InstanceExited(_)) => {
                RunState::Finished { output: Vec::new() }
            },
            (state, _) => state,
        }
    }
}

/// Each compiler backend stands for the strategy of its name.
pub proof fn law_strategies()
    ensures
        strategy_of(Compiler::Auto) == Strategy::Auto,
        strategy_of(Compiler::Cranelift) == Strategy::Cranelift,
        strategy_of(Compiler::Winch) == Strategy::Winch,
        forall|compiler: Compiler| #[trigger]
            <Strategy as vstd::std_specs::convert::FromSpec<Compiler>>::from_spec(compiler)
                == strategy_of(compiler),
{
}

/// The view of the arguments of a run holds every one of them as it is.
pub proof fn law_args_view(args: Args)
    ensures
        args@.max_memory_pages == args.max_memory_pages,
        args@.decode_js_value == args.decode_js_value,
        args@.kill_timeout == args.kill_timeout,
        args@.tick_time_ms == args.tick_time_ms,
        args@.epoch_deadline == args.epoch_deadline,
        args@.compiler == args.compiler,
        args@.program == args.program@,
        args@.envs.len() == args.envs@.len(),
        forall|i: int| 0 <= i < args.envs@.len() ==> #[trigger] args@.envs[i] == args.envs@[i]@,
        args@.args.len() == args.args@.len(),
        forall|i: int| 0 <= i < args.args@.len() ==> #[trigger] args@.args[i] == args.args@[i]@,
{
}

/// The view of the configuration of an instance holds all of it as it is.
pub proof fn law_config_view(config: InstanceConfig)
    ensures
        config@.epoch_deadline == config.epoch_deadline,
        config@.max_memory_pages == config.max_memory_pages,
        config@.blobs_dir == config.blobs_dir@,
        config@.tcp_listen_port_range == config.tcp_listen_port_range,
        config@.args.len() == config.args@.len(),
        forall|i: int|
            0 <= i < config.args@.len() ==> #[trigger] config@.args[i] == config.args@[i]@,
        config@.envs.len() == config.envs@.len(),
        forall|i: int|
            0 <= i < config.envs@.len() ==> #[trigger] config@.envs[i] == (
                config.envs@[i].0@,
                config.envs@[i].1@,
            ),
{
}

/// The view of a run holds all that its state holds.
pub proof fn law_state_view<E>(state: RunState<E>)
    ensures
        match state {
            RunState::ReadProgram { args } => state@ == (RunView::<E>::ReadProgram { args: args@ }),
            RunState::CreateEngine { args, code } => state@ == (RunView::<E>::CreateEngine {
                args: args@,
                code: code@,
            }),
            RunState::Compile { args, code } => state@ == (RunView::<E>::Compile {
                args: args@,
                code: code@,
            }),
            RunState::ReadArgument { path, rest, config, kill_timeout } => {
                &&& state@ matches RunView::ReadArgument {
                    path: p,
                    rest: r,
                    config: c,
                    kill_timeout: k,
                }
                &&& p == path@
                &&& c == config@
                &&& k == kill_timeout
                &&& r.len() == rest@.len()
                &&& forall|i: int|
                    0 <= i < rest@.len() ==> #[trigger] r[i] == rest@[rest@.len() - 1 - i]@
            },
            RunState::Start { config, kill_timeout } => state@ == (RunView::<E>::Start {
                config: config@,
                kill_timeout,
            }),
            RunState::Running { kill_timeout } => state@ == (RunView::<E>::Running {
                kill_timeout,
            }),
            RunState::Finished { output } => state@ == (RunView::<E>::Finished {
                output: output@,
            }),
            RunState::Failed { stage, cause } => state@ == (RunView::<E>::Failed { stage, cause }),
        },
{
}

/// The view of an event holds all that the event holds.
pub proof fn law_event_view<E>(event: RunEvent<E>)
    ensures
        match event {
            RunEvent::ProgramRead(Ok(code)) => event@ == RunEventView::<E>::ProgramRead(Ok(code@)),
            RunEvent::ProgramRead(Err(cause)) => event@ == RunEventView::<E>::ProgramRead(
                Err(cause),
            ),
            RunEvent::EngineCreated(done) => event@ == RunEventView::<E>::EngineCreated(done),
            RunEvent::ModuleCompiled(done) => event@ == RunEventView::<E>::ModuleCompiled(done),
            RunEvent::ArgumentRead(Ok(content)) => event@ == RunEventView::<E>::ArgumentRead(
                Ok(content@),
            ),
            RunEvent::ArgumentRead(Err(cause)) => event@ == RunEventView::<E>::ArgumentRead(
                Err(cause),
            ),
            RunEvent::InstanceStarted(done) => event@ == RunEventView::<E>::InstanceStarted(done),
            RunEvent::InstanceExited(done) => event@ == RunEventView::<E>::InstanceExited(done),
        },
{
}

} // verus!
