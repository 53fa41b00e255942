# wapo

The decision logic of a WebAssembly worker, verified with Verus.

- `src/runner.rs`, `src/run_laws.rs`: a run of a program on the command line, as a
  state machine that says what the host has to do next, and what holds of a whole run.
- `src/output.rs`: what is shown of the output of a run.
- `src/memory.rs`, `src/text.rs`: the memory report out of the kernel's `proc` files.
- `src/connect.rs`, `src/http.rs`: requests that are passed on to an instance.
- `src/server.rs`, `src/config.rs`, `src/blobs.rs`, `src/signing.rs`, `src/worker.rs`: how
  the servers and the service of the daemon are set up, and how they answer.
- `tests/`: the library on concrete values.
- `app/`: the programs around it. They read files, talk to the engine and the network,
  and carry out what the library decides.

What is taken on trust is marked `external_body`, `external_type_specification` or
`uninterp` and says which outside function it stands for.
