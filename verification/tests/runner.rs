use wapo::runner::{
    file_of, run, split_env, split_envs, Args, Compiler, EngineConfig, InstanceConfig, RunEvent,
    RunStage, RunState, Strategy, DEFAULT_EPOCH_DEADLINE, DEFAULT_MAX_MEMORY_PAGES,
    DEFAULT_TICK_TIME_MS,
};

fn given(program: &str, args: &[&str], envs: &[&str]) -> Args {
    Args {
        max_memory_pages: DEFAULT_MAX_MEMORY_PAGES,
        decode_js_value: false,
        kill_timeout: Some(7),
        tick_time_ms: DEFAULT_TICK_TIME_MS,
        epoch_deadline: DEFAULT_EPOCH_DEADLINE,
        compiler: Compiler::Auto,
        envs: envs.iter().map(|s| s.to_string()).collect(),
        program: program.to_string(),
        args: args.iter().map(|s| s.to_string()).collect(),
    }
}

fn compiled(args: Args) -> RunState<String> {
    let state = run::<String>(args).step(RunEvent::ProgramRead(Ok(vec![0, 97, 115, 109])));
    let state = state.step(RunEvent::EngineCreated(Ok(())));
    state.step(RunEvent::ModuleCompiled(Ok(())))
}

fn start_config(state: RunState<String>) -> InstanceConfig {
    match state {
        RunState::Start { config, kill_timeout } => {
            assert_eq!(kill_timeout, Some(7));
            config
        }
        _ => panic!("no instance is to be started"),
    }
}

fn failed(state: RunState<String>) -> (RunStage, String) {
    match state {
        RunState::Failed { stage, cause } => (stage, cause),
        _ => panic!("the run has not failed"),
    }
}

#[test]
fn compilers_have_strategies() {
    assert_eq!(Strategy::from(Compiler::Auto), Strategy::Auto);
    assert_eq!(Strategy::from(Compiler::Cranelift), Strategy::Cranelift);
    assert_eq!(Strategy::from(Compiler::Winch), Strategy::Winch);
}

#[test]
fn env_splits_at_the_first_equals_sign() {
    let split = |s: &str| split_env(s);
    assert_eq!(split("A=B"), ("A".to_string(), "B".to_string()));
    assert_eq!(split("A=B=C"), ("A".to_string(), "B=C".to_string()));
    assert_eq!(split("A="), ("A".to_string(), "".to_string()));
    assert_eq!(split("=B"), ("".to_string(), "B".to_string()));
    assert_eq!(split("A"), ("A".to_string(), "".to_string()));
    assert_eq!(split(""), ("".to_string(), "".to_string()));
    assert_eq!(split("clé=é=è"), ("clé".to_string(), "é=è".to_string()));
}

#[test]
fn env_pairs_join_again() {
    for s in ["A=B", "A=", "=", "=B=C", "a=b=c=d"] {
        let (key, value) = split_env(s);
        assert!(!key.contains('='));
        assert_eq!(format!("{key}={value}"), s);
    }
}

#[test]
fn envs_keep_their_order() {
    let envs = vec!["A=1".to_string(), "B".to_string(), "A=2".to_string()];
    assert_eq!(
        split_envs(&envs),
        vec![
            ("A".to_string(), "1".to_string()),
            ("B".to_string(), "".to_string()),
            ("A".to_string(), "2".to_string()),
        ]
    );
}

#[test]
fn arguments_that_name_files() {
    assert_eq!(file_of("@x/y"), Some("x/y".to_string()));
    assert_eq!(file_of("@"), Some("".to_string()));
    assert_eq!(file_of("@@x"), Some("@x".to_string()));
    assert_eq!(file_of("x@"), None);
    assert_eq!(file_of(""), None);
}

#[test]
fn engine_gets_its_memory_in_bytes() {
    let mut args = given("p", &[], &[]);
    assert_eq!(
        args.engine_config(),
        EngineConfig {
            strategy: Strategy::Auto,
            tick_time_ms: 10,
            instance_memory_size: 16777216,
            pooled_instances: 0,
        }
    );
    args.max_memory_pages = 65535;
    assert_eq!(args.engine_config().instance_memory_size, 4294901760);
    args.max_memory_pages = 65536;
    assert_eq!(args.engine_config().instance_memory_size, 4294967295);
    args.max_memory_pages = u32::MAX;
    assert_eq!(args.engine_config().instance_memory_size, 4294967295);
    args.compiler = Compiler::Winch;
    args.tick_time_ms = 3;
    assert_eq!(args.engine_config().strategy, Strategy::Winch);
    assert_eq!(args.engine_config().tick_time_ms, 3);
}

#[test]
fn plain_run_starts_with_its_arguments() {
    let config = start_config(compiled(given("p.wasm", &["a", "b@c", ""], &["K=V"])));
    assert_eq!(config.args, vec!["p.wasm", "a", "b@c", ""]);
    assert_eq!(config.envs, vec![("K".to_string(), "V".to_string())]);
    assert_eq!(config.epoch_deadline, 20);
    assert_eq!(config.max_memory_pages, 256);
    assert_eq!(config.blobs_dir, "./data/storage_files/blobs");
    assert_eq!(config.tcp_listen_port_range, (0, 65535));
}

#[test]
fn decoding_has_no_effect_on_the_run() {
    let mut args = given("p.wasm", &["a"], &["K=V"]);
    args.decode_js_value = true;
    let asked = start_config(compiled(args));
    let plain = start_config(compiled(given("p.wasm", &["a"], &["K=V"])));
    assert_eq!(format!("{asked:?}"), format!("{plain:?}"));
}

#[test]
fn program_code_reaches_the_compiler() {
    let state = run::<String>(given("p", &[], &[])).step(RunEvent::ProgramRead(Ok(vec![1, 2])));
    match state.step(RunEvent::EngineCreated(Ok(()))) {
        RunState::Compile { code, args } => {
            assert_eq!(code, vec![1, 2]);
            assert_eq!(args.program, "p");
        }
        _ => panic!("nothing to compile"),
    }
}

#[test]
fn files_are_read_in_order() {
    let mut state = compiled(given("@p", &["a", "@one", "b", "@two", "c"], &[]));
    for (expected, content) in [("p", "P"), ("one", "1\n"), ("two", "@2")] {
        match &state {
            RunState::ReadArgument { path, .. } => assert_eq!(path, expected),
            _ => panic!("no file is asked for"),
        }
        state = state.step(RunEvent::ArgumentRead(Ok(content.to_string())));
    }
    let config = start_config(state);
    assert_eq!(config.args, vec!["P", "a", "1\n", "b", "@2", "c"]);
}

#[test]
fn finished_run_has_no_output() {
    for exit in [Ok(()), Err("trap".to_string())] {
        let state = compiled(given("p", &[], &[])).step(RunEvent::InstanceStarted(Ok(())));
        match &state {
            RunState::Running { kill_timeout } => assert_eq!(*kill_timeout, Some(7)),
            _ => panic!("the instance does not run"),
        }
        match state.step(RunEvent::InstanceExited(exit)) {
            RunState::Finished { output } => assert!(output.is_empty()),
            _ => panic!("the run is not over"),
        }
    }
}

#[test]
fn each_step_can_fail() {
    let cause = || "cause".to_string();
    let state = run::<String>(given("p", &[], &[]));
    assert_eq!(failed(state.step(RunEvent::ProgramRead(Err(cause())))), (RunStage::Program, cause()));
    let state = run::<String>(given("p", &[], &[])).step(RunEvent::ProgramRead(Ok(vec![])));
    assert_eq!(failed(state.step(RunEvent::EngineCreated(Err(cause())))), (RunStage::Engine, cause()));
    let state = run::<String>(given("p", &[], &[])).step(RunEvent::ProgramRead(Ok(vec![])));
    let state = state.step(RunEvent::EngineCreated(Ok(())));
    assert_eq!(failed(state.step(RunEvent::ModuleCompiled(Err(cause())))), (RunStage::Module, cause()));
    let state = compiled(given("p", &["@f"], &[]));
    assert_eq!(failed(state.step(RunEvent::ArgumentRead(Err(cause())))), (RunStage::Argument, cause()));
    let state = compiled(given("p", &[], &[]));
    assert_eq!(failed(state.step(RunEvent::InstanceStarted(Err(cause())))), (RunStage::Instance, cause()));
}

#[test]
fn failure_is_final() {
    let state = run::<String>(given("p", &[], &[])).step(RunEvent::ProgramRead(Err("gone".to_string())));
    let state = state.step(RunEvent::ProgramRead(Ok(vec![])));
    let state = state.step(RunEvent::EngineCreated(Err("later".to_string())));
    assert_eq!(failed(state), (RunStage::Program, "gone".to_string()));
}

#[test]
fn other_events_change_nothing() {
    let state = compiled(given("p", &["@f"], &[])).step(RunEvent::InstanceStarted(Ok(())));
    match state {
        RunState::ReadArgument { path, .. } => assert_eq!(path, "f"),
        _ => panic!("no file is asked for"),
    }
}

#[test]
fn failures_have_their_context() {
    assert_eq!(RunStage::Program.context(), None);
    assert_eq!(RunStage::Engine.context(), Some("failed to create Wasm engine"));
    assert_eq!(RunStage::Module.context(), None);
    assert_eq!(RunStage::Argument.context(), Some("failed to read file"));
    assert_eq!(RunStage::Instance.context(), Some("failed to start the instance"));
}
