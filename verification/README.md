# multi_transport

The verified core of a set of multiplayer example games whose servers listen
on UDP, WebTransport and WebSocket at once, and of the launcher that starts
them.

- `src/` is the library, verified with Verus:
  - `config`: launcher configuration, its defaults, validity per networking
    mode, quick-launch variants and the mode/transport/example names;
  - `decimal`: reading and writing decimal `u64` text; reading back what was
    written is proved to give the same number;
  - `transport`: a client's connection plan (ports, link name, certificate
    digest);
  - `input`: held directions, the movement steps they make, action kinds;
  - `weapon`: weapon cycle, names, fire rates and scores;
  - `registry`: players spawned per client link, client ids in use;
  - `replication`: replication/prediction/interpolation targets, peer hues,
    the visibility grid and the arena walls.
- `tests/` runs the library on concrete values.
- `app/` is the launcher program and the engine systems of the games: file
  and process handling, the GUI, and the floating-point geometry, built on
  bevy and lightyear.
