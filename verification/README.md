# agent_tools_core

Shared plumbing for a family of agent command-line tools, verified with Verus.

- `src/exit.rs`: the exit-code table (`ExitCode::code`, `Into<i32>`).
- `src/format.rs`: the `--format json|text` value: spelling, parsing with
  clap's matching rule, default.
- `src/output.rs`: the response envelope and the exact text of the stderr
  error reports (including the hand-written fallbacks).
- `src/repo.rs`: repository resolution: the walk up to the nearest `.git`,
  the precedence of `--repo` / `AGENT_REPO` / detected root / cwd, the
  "missing path passes through" rule, and the repo error messages.

`app/lib.rs` holds what touches the process, the environment and the disk
(`exit_with`, printing, `find_repo_root`, `resolve_repo`), and copies of the
types that carry clap, serde and thiserror derives.
