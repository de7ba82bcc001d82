# codex-session-manager

Inspects, repairs, distills and migrates stored Codex sessions, from the command
line or in a terminal interface.

The library in `src/` holds the rules: how a rollout is replayed and summarised,
how its records are edited, how a session is distilled into a brief, how a switch
to another provider or model is planned and carried out, and how the terminal
interface answers to keys. Verus verifies the functions there against their
contracts. Two kinds stand apart. A function marked `external_body` only makes a
call into another crate or into std, for which its contract is trusted and not
proved; its doc comment says what is claimed of that call. What `src/text.rs` says
of `String::push` is trusted in the same way. And the two `detect` functions, which
ask for the locale of the user, carry no contract, as nothing is promised of what
comes back: what follows from a locale is stated of `for_locale`.

- `src/text.rs`, `numbers.rs`, `search.rs`, `lines.rs`, `order.rs`, `paths.rs`:
  texts, lists and paths
- `src/rollout.rs`, `replay.rs`, `summary.rs`, `rollout_edit.rs`, `preview.rs`:
  rollouts, what they hold and how they are edited
- `src/runtime.rs`, `profile_cleanup.rs`, `operations.rs`, `commands.rs`,
  `migrate.rs`: finding sessions, moving them, and the commands
- `src/distill.rs`, `distill_flow.rs`: distilling a session
- `src/smart.rs`, `smart_flow.rs`, `picker.rs`: switching a session
- `src/cli.rs`, `cli_graph.rs`, `cli_parse.rs`: the command line
- `src/tui/`: the terminal interface

Operations that wait for the Codex runtime are state machines: a function takes
what happened and gives what is to be done next. `app/` runs them. It holds the
files, the terminal and the calls into the Codex runtime; `app/codex.rs` and
`app/records.rs` are the only places that know the types of that runtime.
