# ear_native

A desktop client for Nothing and CMF earbuds, with its logic verified by Verus.

## Layout

- `src/` — the verified library.
  - `protocol.rs`: the frame format (marker, command code, length, operation
    number, payload, CRC), command codes and the decoding of device reports.
  - `bluetooth.rs`: the receive buffer and the extraction of whole frames from it.
  - `link.rs`: the decisions of the connection manager (connect, write, read,
    report), as a state machine whose steps the runtime performs.
  - `models.rs`, `config.rs`: the model and SKU tables, and the remembered devices.
  - `app/`: the application state machine. `update` takes a message and returns
    the next state and the actions to perform; `machine.rs` states what it does
    over mathematical views, `laws.rs` proves properties that span messages.
  - `components/`, `tray.rs`, `text.rs`: what the screens and the tray show.
- `app/` — the program around the library: the `iced` window, the BlueZ
  adapter, the tray icon and the settings file. It performs the actions that
  the state machine returns and feeds back what happened.
- `tests/` — tests of the library on concrete values.
