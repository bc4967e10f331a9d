# ctc_server

Server for a CTC heat pump reached over Modbus RTU, with `SmartGrid` control
through two relay GPIOs, and a relay test tool.

Layout:

- `src/` — the verified library (Verus). Register model and catalog
  (`modbus`), the Modbus actor's checks and retry policy (`modbus::actor`),
  alarm/info texts (`messages`, `routes::alarms`), endpoint decisions and
  the activity timeline (`routes`), the `SmartGrid` state machine
  (`smartgrid`), the dashboard store's rings and counters (`storage`), the
  relay tool's decisions (`relay_tool`), and RFC 3339 timestamps
  (`timefmt`).
- `tests/` — tests of the library.
- `app/` — the program: serial port, bus transactions, GPIO lines, HTTP
  server, embedded database, timers, and the relay tool's command line.
