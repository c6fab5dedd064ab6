# powervoice

The verified core of PowerVoice, a desktop editor for voice-over work. The library holds the
decisions the editor's commands make around the audio engine and the session store: the error
and notice shapes the UI receives, marker naming and ordering, the save-format rules and Save's
ordered pre-flight checklist, the record-operation window and its dropout markers, the
one-job-at-a-time gates, the events a job posts when it ends, housekeeping, device notices and
crash-recovery listing. Verus proves every function in `src/` against its contract. Three
functions that read opaque standard-library or serde_json values (`unix_ms_of`,
`state_digest`, `is_disk_full_io_error`) state nothing of their result; beside each stands a
function with an exact contract that takes the value they read.

- `src/` — the library, verified with Verus.
- `tests/` — tests of the library on concrete values.
- `app/` — the application shell: serializable copies of the library's types, the sessions
  directory on disk, the saved view settings (JSON with floating-point parts), the event sink
  and the housekeeping thread.
