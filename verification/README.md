# open_realtime

A toolkit for realtime voice conversations, verified with Verus.

- `src/` is the verified library:
  - `audio`: PCM16 (24 kHz, little-endian) sample/byte conversion, silence,
    durations, and base64 framing of audio through the `base64` crate.
  - `turn_taking`: the turn-taking state machine (idle, listening,
    processing, speaking) driven by an exact integer energy test.
  - `protocol`: the realtime protocol's client and server events, with a
    mathematical view of each type.
  - `pipeline`: scripted stand-ins for speech-to-text, the language model,
    text-to-speech timing and turn detection.
  - `turn_flow`: the decisions of a streamed pipeline turn (transcript,
    tokens, speech per token, flush), as a step function.
  - `transport::fake`: an in-memory scripted transport.
  - `server`: the decision core of the local realtime server, which turns
    each client event into the server events to send back.
  - `ids`, `events`, `text`: identifiers, event builders and text helpers.
- `app/` is the program around it: the WebSocket server and client
  transports, JSON encoding of the protocol, the asynchronous component
  traits and the pipeline that performs the steps `turn_flow` decides,
  and tone synthesis.
- `tests/` exercises the library on concrete values.
