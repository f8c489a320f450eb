# tofupilot_run

Runs hardware test procedures on a station: it settles what is run and with
which interpreter, drives the execution engine or the Python frameworks
(OpenHTF, Robot Framework, plain scripts), fans events out to the operator
surfaces and to an agent, and uploads finished runs through a queue that
outlives the process.

The decisions are a library that Verus verifies. What they are made on (files,
processes, clocks, answers of a service) goes in as plain values, and what is
to be done comes out as plain values.

## Layout

- `src/`: the verified library.
  - `text`, `order`, `assoc`, `dup`, `double`, `time`, `paths`, `json`: texts,
    keyed lists, copies, doubles by their bits, points in time, paths and JSON.
  - `protocol`, `ui`, `sdk`, `outcomes`, `log_source`: the data of the station
    protocol, of prompts and of uploads.
  - `engine`: declarative procedures. `sink` takes the events of the engine in,
    `run` is the state machine of a run, `request` and `measurement` build what
    is uploaded, `metadata`, `unit` and `caps` keep its parts in shape.
  - `connector`: Python frameworks. `events` reads their events, `pump` is the
    state machine of a run, `request` builds what is uploaded, `detect` tells
    which framework a project uses.
  - `agent_proto`: the stream of an agent, its commands, and the check of its
    answers.
  - `event_router`, `emit`, `identify_host`, `cancel`: fan-out, ends, prompts
    for a unit, stops.
  - `queue`: retry policy, upload, and the commands on the queue.
  - `bootstrap`, `python`, `framework`, `source`, `session`, `console`,
    `run_log`, `deployment_id`, `procedure_version`: everything around a run.
- `tests/`: tests of the library.
- `app/`: the tasks, processes, files and sockets around the library. What the
  station, the engine and the client of the service do is behind the traits of
  `app/host.rs`.

## Contracts

Every type has a ghost twin, named like it with `View` behind, and `deep_view`
maps one to the other. Contracts are stated over these twins: `ensures` of a
function says that the view of its result is a spec function of the views of
its arguments. State machines take an event and give a step; their contracts
fix both the next state and the step. What holds across functions stands in
public proof functions whose names begin with `law_`.

What the library has from outside crates (`chrono`, `regex`, `serde_json`,
`toml`, `sha2`) it has through small functions whose contracts are trusted.
Their doc comments say what is claimed.
