# memory_ledger

A memory ledger for AI agents, verified with Verus. It records interaction
events and the claims derived from them in namespaces of their owners, builds
bounded self snapshots, gates decisions on commitments, and revises identity,
commitments and claim statuses only through evidence-backed reflections.

## Layout

- `src/` — the verified library.
  - `domain/` — events, claims, namespaces, snapshots, self-revision proposals,
    the operation log with secret redaction, and the rules over them.
  - `application/` — the decisions of each memory operation. Automatic
    reflection (`auto_reflect_flow`) and the reflection write path
    (`reflection_flow`) are machines: each step takes what the stores, the
    clock and the model answered and says what to do next.
  - `adapters/sqlite/` — the schema, the lifecycle decisions (inspect, init,
    migrate, serve readiness), the migration as a machine (`migration_flow`:
    backup, restore rehearsal and unchanged check before the write), the
    statements the store runs with their bound values, and the reading of
    stored rows.
  - `adapters/model.rs` — prompts and reply parsing for OpenAI-compatible
    models, and the mock model.
  - `interfaces/` — MCP tool parameters and error mapping, and the dashboard's
    operation events (payloads as JSON trees), recent-event buffer and
    projections.
- `tests/` — tests of the library on concrete values.
- `app/` — the command-line program: database lifecycle commands, the demo's
  stub model server, the SQLite executor, and the runners that drive the
  reflection and migration machines against the store and the model. It has
  no MCP server or dashboard HTTP service.
