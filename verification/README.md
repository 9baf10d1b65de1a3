# signal_wasm

The verified core of a Signal Protocol client for browser messaging.

- `src/` is the library, checked by Verus: device id and UUID validation,
  the textual forms of UUIDs (`uuid_text`, with a proof that printing and
  parsing are inverse), distribution ids, registration id sampling, random
  byte strings, message type dispatch, the pre-key id counters of the client
  state (`client`, with a proof that issued ids never repeat), error
  messages, and the key and message records handed to callers.
- `app/` holds the WebAssembly bindings: the JavaScript-facing types and the
  calls into the libsignal protocol engine, which does the cryptography and
  keeps the session and key stores.
- `tests/` exercises the library on concrete values.
