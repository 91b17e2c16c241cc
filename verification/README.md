# winter

Runs Windows programs in a deterministic environment: the program's clock,
keyboard, mouse and window messages are simulated by hooks injected into it,
and a controlling process advances time and plays input from a movie file.

## Layout

- `src/` — the verified library (Verus):
  - `state.rs`: the simulated clock, keys, mouse, message queue and waitable
    timers, and what each event from the controlling process does to them;
  - `event_queue.rs`: the queue of events waiting for the program;
  - `time.rs`: the clock values that the time functions report;
  - `input.rs`: key and mouse message parameters and message classes;
  - `ipc.rs`: the byte layout of channel handles and of the initial message,
    and the messages of the controlling process;
  - `exports.rs`: finding a module and an export of it by reading another
    process's memory step by step;
  - `memory.rs`, `saved_state.rs`: memory regions and allocations, and the
    changes that restore a saved layout;
  - `code.rs`: the machine-code thunks written into the program;
  - `movie.rs`: movie file lines;
  - `process.rs`, `errors.rs`, `bytes.rs`, `text.rs`: smaller pieces.
- `tests/` — tests of the library on concrete values.
- `app/` — the Windows program around the library: the command line, the
  controlling process, the hooks, and the system calls.
