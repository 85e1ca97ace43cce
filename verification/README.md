# doubao_voice_input

The verified core of a desktop voice-input tool: it registers a virtual
device with the speech service, opens a recognition session over a
WebSocket, streams 20 ms Opus frames of 16 kHz mono audio, and turns the
service's replies into transcription updates for the user interface.

`src/` is the library, written in Verus and verified:

- `session` — the recognition session as a state machine (handshake, audio
  frames, closing, reading replies, cancellation, idle timeout), for file
  transcription and for live recording; every request it sends is built
  there under one request identifier. `session_laws` proves properties of
  every run (one request identifier, request order, frame numbering,
  exactly one closing update).
- `jobs` — a file transcription job: up to three attempts, retrying on the
  service's transient failures.
- `flags` — at most one file job and one recording at a time.
- `credentials` — device identifiers, the registration request's body and
  parameters, the token request, reading the service's answers, and whether
  saved credentials can be reused.
- `client`, `protocol` — the service address, handshake headers, request
  messages and their JSON documents; frame states and timestamps.
- `transcription`, `json` — transcription updates and the result documents
  they are read from.
- `pcm`, `capture` — 16-bit PCM handling (picking samples for rate
  conversion, framing, encoding) and the microphone capture handle.
- `text` — decimal and hexadecimal rendering, substring search.

`app/` is the Tauri application around it: WebSocket and HTTP I/O,
protobuf and JSON (de)serialisation, microphone capture, Opus encoding and
audio file decoding (the floating-point sample processing, including the
source positions of a rate conversion, lives there).
