# ams_timeline

A musical timeline editor built with egui, split in two:

- `src/` is the verified library (Verus). It holds everything that does not work in
  floating point: the track model (order, names, solo/mute switches, selection, the
  add/remove rules), block identifiers, the text the editor shows (track names, block ids,
  the `mm:ss:cc` clock, button labels, ruler numbers), and the decisions that the widgets
  take on pointer input (what a click on a track does, how a scroll is read, where a press
  on a block lands, which panel is under the pointer, how ruler lines and numbers are
  drawn).
  - `decimal` — decimal rendering with zero padding, and the proof that it can be read back.
  - `str_map` — a string-keyed map with unique keys, viewed as a `Map`.
  - `labels` — the texts, with proofs that distinct numbers give distinct ids and names.
  - `model` — the track model, the controller rules, the block id counter, length rules.
  - `interaction`, `ruler` — widget decisions.
  - `types` — the time signature.
- `app/` is the egui/eframe program: layout, painting, and all arithmetic in ticks,
  seconds and points (floating point), calling the library for the rest.
