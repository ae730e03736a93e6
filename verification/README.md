# EDLgen core

EDLgen writes CMX3600 edit decision lists from edit events that arrive over
HTTP while an LTC timecode signal is decoded from an audio input.

- `src/` is the verified library: timecodes, the edit queue and the EDL text
  (`edl_writer`, with the older `edl`, `frame_queue` and `cut_log`
  generation), the recording state machine and HTTP request/response logic of
  the event server (`server`), audio input settings and the decoder watchdog
  (`ltc_decoder`, `ltc`), saved-option keys and codecs (`state`, `text`),
  display texts (`display`) and version comparison (`update_version`).
  The calls into `vtc`, `httparse` and `semver` sit behind small functions
  whose contracts state what those crates return.
- `app/` is the program around it: the TCP server loop, `cpal` audio input
  with the `ltc` decoder, the `sled` settings store, JSON through `serde`,
  and logging.
- `tests/` exercises the library, including whole recording sessions driven
  through the recorder.
