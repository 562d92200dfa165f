# perfmax

PerfMax watches a workstation's CPU and GPU, asks a local language model for
tuning commands, and runs the ones it allows (or only logs them in dry-run
mode). This crate is its verified core; `app/` is the program around it.

- `src/commands.rs`: extraction of the allowed commands from the model's
  reply, with the laws that every command is allowed, trimmed and on one
  line, and that parsing the commands again gives them back.
- `src/ai.rs`: the machine snapshot sent to the model, the wait before each
  query, the service address and the answer's text.
- `src/state.rs`: the shared state — the assistant's last answer, the queue
  of commands (only allowed ones, an invariant every update keeps), the
  bounded newest-first history, the model download's progress.
- `src/optimizer.rs`: what happens to one queued command and how its
  outcome is written to the history.
- `src/server_manager.rs`, `src/model_manager.rs`, `src/config.rs`,
  `src/discovery.rs`, `src/paths.rs`: the local server's supervision, the
  model file, the settings, endpoint probing and paths.
- `src/ui.rs`, `src/metrics.rs`, `src/text.rs`: display decisions, integer
  figures, and the character-level text functions the rest is built on.
- `app/`: threads, HTTP, processes, the settings file, metrics sampling,
  the tray and the window, plus the floating-point figures.
