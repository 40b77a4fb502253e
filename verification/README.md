# hn_api_wasm

A Hacker News tool plugin (Extism) whose logic is verified with Verus.

- `src/` is the verified library: limits and previews (`limits`), API paths
  and URLs (`urls`), text rendering and trimming (`text`), response checks
  (`response`), retry decisions (`retry`), story-list hydration decisions
  (`story_list`), and the reshaping of API records into answers (`format`,
  over the records in `model`).
- `app/` is the plugin around it: HTTP requests, JSON and YAML through serde,
  the loops that carry out the library's decisions, and the tool entry
  points.
- `tests/` exercises the library on concrete values.
