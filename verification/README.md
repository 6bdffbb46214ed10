# taskmanager_iced

The renderer-independent logic of the TaskForest iced frontend, written in
Verus and proved against its contracts.

- `src/` is the verified library. Each module holds one surface's decisions:
  the language dictionary (`i18n`), keyboard normalization (`keys`), focus
  identities (`focus`), capture markers (`capture`), input modality, the
  per-process history ring (`perf_history`), the first-run dialog state
  machine, read-only text selection and search highlighting, the segmented
  control, directory-usage targeting, saved-view tokens and transfer, the
  Applications table's columns, rows, menus and action bar, the window chrome,
  the application history and the history replay, the About, health, affinity,
  containers and insights surfaces, the process exports and the diagnostics
  report, tray intents and the feature/capability declarations. `text` holds
  the shared string helpers.
- `tests/` exercises the compiled library on concrete values.
- `app/` is the unverified edge: the process-wide modality byte, marker-file
  writes, system-font discovery, the toolkit's key and sample types handed to
  the library, and the floating-point chart and layout geometry.

Three calls into outside crates are trusted rather than proved:
`String::push`, `unicode_segmentation`'s grapheme count and `serde_json`'s
string serialization. Each sits behind a small wrapper whose doc comment says
what its contract claims.
