# radio

A small internet radio: a server plays a music library and lets listeners
vote on, or queue, what plays next; clients show the track playing, the
queue and the voting board.

- `src/` is the verified library (Verus): the play queue and its picking
  rules (`playlist`), the library of tracks (`library`), the radio's
  decisions on each event (`middleware`), the protocol (`dto`, `protocol`),
  the client's state (`client`), what the client shows (`ui`), the rules for
  reading track metadata (`track`) and for decoding (`decode`), and
  properties that span operations (`laws`).
- `app/` is the server program around it: file listing and decoding, audio
  output, the websocket server, threads, and the serde form of the protocol.
- `tests/` runs the library on concrete values.
