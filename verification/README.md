# Autonomy kernel

A deterministic coordination kernel for a small grid world, written in Verus: workers move,
mine and deposit under a reducer; actions pass a policy gate; a scheduler proposes the next
action of an assignment; constrained proposal text is parsed and validated before it becomes
work; every step is recorded in an append-only event log that replays to the same world; and
causal graphs are derived from event logs.

Layout:

- `src/primitives/`: identifiers, ticks, positions, quantities and the reducer's errors.
- `src/ordered_map.rs`: the sorted map the world and the graph builder keep their entries in.
- `src/scan.rs`, `src/text.rs`: character-level scanning and decimal text.
- `src/sim/`: the world, the reducer, the policy gate, the scheduler, the proposal parser and
  validator, and the fixed mining world.
- `src/replay/`: the event log and its recording functions, replay and its laws, the
  scenarios, the causal graph with its exports and laws, and artifacts.
- `src/cli/`: the command-line commands and their output, as plain functions.
- `app/main.rs`: the program that hands its arguments to the commands and prints the result.
- `tests/`: the tests.

Every function in `src/` carries a contract that Verus proves. The central laws: the events
recorded while running actions, policy checks, scheduled steps, failures, recoveries and
proposals replay to the world the recording returned (`src/replay/laws.rs`); every scenario
runs to a stated final world whose events replay to it (`src/replay/scenario.rs`); and a
causal graph has one node per event, numbered in order, with every edge running forward
(`src/replay/causal_laws.rs`).
