# Symphony

Symphony watches a Todoist project, starts a coding agent on each task that is ready, and
lets the agents report, ask for tools and close their tasks. This repository holds the
rules of that program as a Verus library, and the program around it.

- `src/` is the library. Nearly every function in it states a contract of its own, and Verus
  proves it.
- `app/` is the program: processes, files, network and terminal. It asks the library what
  to do next and hands back what came of it.
- `tests/` runs the library on values.

## The library

| Modules | What they hold |
| --- | --- |
| `text`, `table`, `sorting`, `json`, `clock`, `pattern` | Texts, ordered tables, stable sorting, JSON, points in time, patterns. |
| `issue`, `tracker`, `prompt` | Tasks, the tracker's errors, and what an agent is told of a task. |
| `actions`, `todoist_flow`, `workpad`, `workpad_flow` | The Todoist tool: its arguments, its steps, and the workpad comment of a task. |
| `github`, `dynamic_tool` | The GitHub tool and its retries, and what agents are told of the tools. |
| `codex`, `usage` | The messages of the agent's process, and the tokens that it reports. |
| `worker`, `worker_flow` | A worker from its start to its end: hosts, turns, failures. |
| `orchestrator`, `snapshot` | Which tasks are dispatched, retried, stopped and released, and what is told of them. |
| `observability`, `humanize`, `throughput`, `display`, `terminal`, `dashboard`, `http` | What is shown in the terminal, in the browser and through the API. |
| `logging`, `cli` | Log files and filters, arguments, and how the program ends. |

Contracts speak of views: a `String` is a `Seq<char>`, JSON is a `JsonView`, a state of the
orchestrator is a `StateView`. A function named `law_...` states a property of the library as
a whole, such as that a task is closed only after its pull request has been merged, or that
a task that runs is claimed and does not wait for its retry at the same time.

What the library believes without proof is marked in the source: the calls into `serde_json`,
`minijinja`, `regex`, `chrono` and `reqwest`, and three functions of the standard library. Each
of them says above its declaration which function it calls and what it claims of it.

Floating point has no place in the library. It is handed numbers with a fraction as the texts
that are shown; `app/numbers.rs` makes them.

## The workflow file

`WORKFLOW.md` starts with a configuration between two lines of dashes, written in the part of
YAML that is JSON, and goes on with the template of the prompt. Changes take effect at the
next poll; a file that is not valid leaves the last valid one in force.
