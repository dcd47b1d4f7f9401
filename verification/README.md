# libpulse-binding (verified core)

The logic of the PulseAudio client binding, verified with Verus:

- `time`: `MicroSeconds` (checked and operator arithmetic, conversions to and from
  `std::time::Duration`), `MonotonicTs`, `Timeval` built from microseconds or durations;
  `timeval`: the older `MicroSeconds` interface.
- `version`: parsing of the system library's version string and version comparison.
- `error`: error codes and their conversions to and from raw error values.
- `sample`, `channelmap`, `format`, `def`, `direction`: sample formats (endianness, sizes),
  channel positions and maps, encodings, sink/source states and flag sets, timing records, port
  records, direction flags.
- `context`, `stream`, `mainloop`, `callbacks`: states, context and stream flags, subscription
  events and interest masks, and the interpretation of what the system library's calls return.

`app/` is the edge: it calls the PulseAudio client system library through `libpulse-sys`, reads
the clocks, converts the C structures, and hands plain values to the library.
