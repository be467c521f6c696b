# lily

A collaborative agent orchestrator for Discord and Matrix: channels are projects, threads
are coding sessions. A message in a project channel starts a thread in which an AI agent
edits code on the host; messages can wait in a queue, side questions are answered in
threads of their own, sessions can move into git worktrees and back, and prompts can be
scheduled.

- `src/` is the library, verified with Verus: everything lily decides.
  - `domain/`: message suffixes, rendering, tasks and their lives, worktrees
  - `application/`: configuration, session runtimes, commands, the task runner. What
    happens outside the library's memory is an effect of `application/flow.rs`: a flow is
    a function from the replies so far to the next effect, or to its result.
  - `connector/`: the rules of git, the agent backend, storage, Discord and Matrix
  - `cli.rs`: the command line
  - `text.rs`, `numbers.rs`, `paths.rs`, `json.rs`, `time.rs`: the vocabulary of the above
- `app/` is the program: it performs the effects (SQLite, HTTP, git, the chat gateways)
  and drives the flows.
- `tests/` run the library.

Functions named `law_*` state what holds of several operations together, for example that
a thread with a worktree never runs in the main checkout, or that a cancelled task stays
cancelled.
