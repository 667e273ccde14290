# mqtt_codec

An MQTT library whose behaviour is stated in contracts and proved with Verus:
the MQTT v3.1.1 wire format (framing, decoding and encoding of every control
packet), the validation rules of MQTT v3.1.1 and v5.0, packet builders, the
broker-side version detection and MQTT 3.1 codec, and the decisions of an MQTT
client (inflight window, session state, reconnect policy, handling of commands
and broker packets).

## Layout

- `src/` — the verified library.
  - `v4/` — MQTT v3.1.1: packets and views, builders, return codes,
    validation, the wire-format specification (`wire.rs`), the decoder and the
    encoder, with the law that decoding an encoded packet gives it back.
  - `v5/` — MQTT v5.0: packets, builders, property identifiers and the
    validation rules.
  - `client/` — the client's configuration, inflight window, session state and
    the v3.1.1 and v5.0 session decisions: each takes the state and one event
    (a command, a broker packet, a timer) and returns the new state and the
    actions to perform.
  - `broker/` — telling the protocol version of a new connection, the MQTT 3.1
    codec and answer rule, the fixed header, the MQTT 5.0 CONNACK codes and
    plain server settings.
  - `bytes_buf.rs`, `text.rs` — the calls into `bytes::BytesMut` and std that
    the library makes, each with the contract it relies on.
- `tests/` — tests run against the compiled library.
- `app/` — the command-line client: argument parsing, TCP/TLS transport, the
  async event loop that performs the library's actions.
