# lead_barry

Core logic of the Lead Barry firmware, a battery management system for 12 V
lead-acid batteries on a Raspberry Pi Pico W, written in Verus: each function
carries a contract that the verifier proves.

- `src/` — the verified library: the start-up sequence as a state machine
  (`startup`), the settings and their checksummed flash image
  (`configuration`), the configuration web server's routing and answers
  (`web_server`, `config_server`), the layout of the status and message
  screens (`status_layout`, `message_layout`, `screens`), the LED and sensor
  controllers, fixed-point arithmetic and timing helpers.
- `tests/` — tests of the library on concrete values.
- `app/` — the code around the library: settings encoding with postcard,
  the HTTP handler, drawing with embedded-graphics, floating-point helpers,
  the run loops of the start-up sequence, the LEDs, the display and the
  sensors, and the host entry point.
