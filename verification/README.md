# hik-mvs-sdk

Bindings for Hikrobot MVS industrial cameras, split in two:

- `src/` — the verified library (`hik_mvs_sdk`): status checks and error text, C-string
  preparation and NUL-terminated text decoding, decoding of the records that cross the
  native ABI (devices, frames, events, statistics, Action Command acknowledgements), the
  numeric codes of request enums, and the camera lifecycle rules (which native calls a
  closing handle makes, and in which order). Contracts and laws are checked by Verus.
- `app/` — the native layer: the `extern "C"` declarations of the C wrapper, the RAII
  `Sdk` and `Camera` handles, callback channels, floating-point values, and the
  `thiserror`-derived `Error`.
