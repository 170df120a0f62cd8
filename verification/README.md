# agent-bridge

Orchestration of external coding agents: durable records of what agents do, explicit
context, permissions, tools and questions, and a host that serves all of it over lines
of JSON.

- `src/` is the library. Every decision stands there with a contract that Verus proves:
  what a store answers, how a run moves on, when a permission may be answered, what is
  sent to an agent and what is recorded of it.
- `tests/` exercise the library on concrete values.
- `app/` is the host program around the library: processes, sockets, threads, SQLite and
  the wire formats.

| Module | What it decides |
| --- | --- |
| `id`, `model`, `configuration`, `authority` | identities and plain data |
| `run`, `execution` | the life of a run, delegation between runs |
| `context` | which records and resources a prompt may carry |
| `records` | stores, their rules and laws, evidence, the rows of a database |
| `acp` | sessions, runs, permissions, recording, handoff and restoration |
| `providers` | which installed agents can be launched |
| `questions`, `tools`, `mcp`, `structured` | questions to users, tool calls, results |
| `host` | requests, sessions, tool calls and questions of the host |
| `text`, `json`, `table`, `lookup`, `datum` | what the rest is built from |
