# quickshotter

The decision and data-format logic of a tray-based screenshot and
screen-recording tool, written in Verus: every function in `src/` carries a
contract that Verus proves.

- `recording/` — MP4 (ISO BMFF) writing for a single H.264 track
  (`mp4_muxer`, `boxes`, `annexb`), GIF frame preparation (`gif_frames`),
  multi-monitor frame composition (`composite`) and the pipeline's arithmetic
  (`pipeline`: bitrate, frame delay, region planning, encoder loop decisions).
- `geometry` — monitor hit tests, virtual desktop bounds, crop clamping,
  coordinate conversion, recording overlaps.
- `interaction`, `daemon`, `live_renderer`, `protocol` — the selection
  overlay: its input state machine, the answer it sends, frozen-capture
  cropping, window-pick polling and the software renderer.
- `window_detect` — topmost-window hit tests and the detection state.
- `state`, `overlay`, `selection`, `annotation`, `ocr` — the host's capture
  flow: capture/annotation/recording gating, bounded history, overlay answer
  routing, selection checks, annotation and OCR payload decoding.
- `config`, `tray`, `cli`, `context_menu`, `messages`, `upload` — settings
  defaults and validation, filename sanitizing, tray labels and menu ids,
  command-line handling, Explorer registry entries, user-facing texts, and
  the file host's answer.

`app/` is a small command-line host around the library (settings file,
saving captures, writing MP4/GIF files, the overlay line protocol); the
platform UI, screen capture and global hotkeys are not part of it.
