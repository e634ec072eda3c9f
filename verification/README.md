# harness

The core of a harness for coding agents, written and proved in [Verus](https://github.com/verus-lang/verus):
staffing and scheduling, budgets, file leases, messages, what is stored of agents and their sessions,
the turns of an agent with a model, and the steps by which a mission is planned, carried out,
approved and finished.

## Layout

- `src/` is the library. Every function states what it returns or changes, over mathematical models
  of the data, and is proved to do so. `pub proof fn law_*` state what holds of several functions
  together.
- `app/` is ordinary Rust around it: the loops that do what the library decides, the ports to the
  outside, the tables in SQLite, and the threads on which agents work.
- `tests/` runs the library, and whole sessions of it in a world in memory.

## How it works

`HarnessApplication` holds the state of a session as plain values. What needs the outside is a step
from a phase and a reply to the next phase and the action that is wanted next: `drive` carries out the
effects of a mission, `conversation` talks to a model, `parallel` makes the calls of an agent of a
team, `wave_drive` musters a team, `team_drive` finishes a wave, and `approval_drive` carries out an
approval. The laws in those modules state that each of them comes to an end, and what is kept on the
way.

SHA-256 comes from `sha2`, the reading and quoting of JSON from `serde_json`, and the lower case of a text
from the standard library; `digest`, `json` and `text` say what is relied on.
