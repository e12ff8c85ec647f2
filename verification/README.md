# omt_obs_plugin

The decision and data logic of an Open Media Transport (OMT) plugin for OBS Studio,
verified with Verus, and the OBS module around it.

- `src/` — the verified library: bandwidth policy and send modes (`bandwidth`,
  `media_mode`), timestamp conversion (`clock`), the bounded frame queue (`channel`),
  the output configuration and its storage form (`config`), pixel-format mapping and
  frame assembly (`format`), staging-surface sizing and row packing
  (`graphics_capture`), sender naming, lifecycle, render gating and audio packing of the
  dedicated-output filter (`filter`), the program output and its settings controller
  (`output`), the preview sender (`preview`), the receive source and its worker
  (`receive`), sender sessions (`send_session`), string operations (`text`) and the
  OBS identifiers (`ids`).
- `app/` — the OBS module: registration, settings I/O, GPU capture, network senders and
  receivers, threads. It hands plain values to the library and performs the actions the
  library decides.
- `tests/` — tests of the library.
