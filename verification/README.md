# plc_service

A service that connects an HPLC power-line-carrier module on a serial line with
applications on MQTT: it frames and reads the module's protocol, answers MQTT
requests, reads meters concurrently within fixed limits, keeps the meter archive,
searches for meters and upgrades the module's firmware.

## Layout

- `src/` — the library, verified with Verus:
  - `protocol/` — frames, information fields, user data and application data,
    with round-trip and layout laws in `protocol/laws.rs`;
  - `service/` — each service's decisions: what request to send, how an answer
    becomes an MQTT reply, and the state machines of meter reading, file upgrade,
    meter search and start-up;
  - `mqtt_handler.rs`, `mqtt_topic.rs`, `mqtt_message.rs` — request intake and
    serving order, topics and reply payloads;
  - `uart_agent.rs`, `uart_handler.rs` — where a received frame goes and which
    serial request is written next;
  - `json_text.rs`, `text.rs`, `bytes.rs` — text and byte helpers.
- `tests/` — tests of the library on concrete values.
- `app/` — the program around it: MQTT client, serial port, threads, clocks and
  the files it reads.
