# yeet

`yeet` stages all changes, shows a commit message (your own or one drafted by
the Codex CLI), waits for approval, commits and pushes.

The crate is split in two:

- `src/` is the library, verified with Verus: configuration resolution, path
  rules, commit-message policy, style and instruction resolution, the model
  prompt, the verdicts drawn from Git's and Codex's output, bounded context
  and history capture, terminal texts, and the commit workflow as a state
  machine (`application::workflow_step`) together with the laws it keeps.
- `app/` is the `yeet` program: argument parsing, the environment, files,
  child processes, the terminal, Ctrl+C, and the loop that performs each
  action the workflow asks for and hands back what came of it.

`tests/` exercises the library on concrete values, including whole workflow
runs against a scripted repository.
