# server_rs

A voice-changer server whose decision logic is a Verus-verified library.

- `src/` is the library. It holds the settings state machines of the
  manager, the voice changer and the RVC model, the cross-fade bookkeeping
  of the audio path, the model slot table, the 16-bit PCM and base64
  framing of audio requests, and the plans the server follows for uploads,
  model loads and downloads. Every function there carries a contract that
  Verus proves; calls into `base64` and `std::path` go through a few
  trusted wrappers whose results are stated or named.
- `app/` is the executable around it: command line, HTTP and Socket.IO
  endpoints, file and network I/O, JSON forms of the library's types, and
  the floating-point parts of the audio path (fade weights, volumes).
- `tests/` exercises the library on concrete values.

Float settings are carried in the library as the bit patterns of their
`f32` values; the application converts them.
