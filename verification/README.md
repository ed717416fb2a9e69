# prompt_catalog

The catalog of built-in LLM system prompts, the per-session prompt presets
that override them, the `/prompts` and `/agent` slash commands, and the
decisions of the `/prompts` browser (keys, mouse, filter, selection, preview
and status text), written in Verus with their contracts proved.

## Layout

- `src/` is the verified library.
  - `catalog.rs`, `templates.rs`: the prompt ids, their metadata and default
    bodies.
  - `names.rs`: preset-name validation.
  - `store.rs`, `keyed.rs`: the in-memory model of `$GROK_HOME` (scratch
    overrides, presets, the `.active` marker, session bindings), with its
    invariant.
  - `semantics.rs`: spec functions stating what each catalog operation does
    to that model; `ops.rs` implements and proves them.
  - `restore.rs`: rebuilding the model from what was read off disk.
  - `commands.rs`: `/prompts` and `/agent`.
  - `browser.rs`, `keys.rs`, `layout.rs`: the browser's state machine and
    the text it draws.
  - `laws.rs`: properties that span several operations, as proof functions.
  - `clock.rs`, `unicode.rs`: the trusted calls into `chrono`, std's case
    mapping and `unicode-width`.
- `tests/` exercises the library on concrete values.
- `app/` is the unverified shell: reading and writing `$GROK_HOME`, the JSON
  records, error types with `thiserror`, and terminal input conversion.
