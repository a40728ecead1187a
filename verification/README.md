# wayle_services

The decision logic of a desktop notification service and of a media player service,
written and proved in Verus.

- `src/` is the library: notification lists and their events (`monitoring`, `lists`,
  `laws`), action dispatch (`action`, `controls`, `owners`, `source`), the GTK protocol
  (`gtk`, `value`, `hints`), the image cache (`image_cache`), what is persisted
  (`persistence`, `store`, `json`, `time`), and media players (`media`).
- `tests/` runs the library on concrete values.
- `app/` is ordinary Rust around it: the session bus, SQLite, files and timers.

Functions return what is to be done as plain values; `app/` does it and hands back what
came of it.
