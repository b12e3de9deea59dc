# gesture_studio

The backend of a desktop application that recognizes hand gestures from a
camera and runs the actions bound to them.

- `src/` is the verified library: identifiers and instants, the data model,
  errors, event kinds and routing, the action engine, the database row codecs,
  loading templates into a map by identifier and grouping stored sample
  rows, the smoothing memory, the training sample collector,
  camera control and the choice of capture source, frame conversion and
  encoding, and the default settings.
  Every function carries a contract that Verus proves; calls into `uuid`,
  `chrono`, `image`, `base64` and `str::to_lowercase` go through small trusted
  wrappers whose contracts say what those crates do.
- `app/` holds what the library cannot: the Tauri commands and event bridge,
  the threads, SQLite and the configuration file, Windows camera capture, and
  the floating-point parts of detection, normalization, recognition and
  template averaging.
- `tests/` runs the library on concrete values.
