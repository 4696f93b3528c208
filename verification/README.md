# cooktop

Control of a three-burner induction cooktop: three rotary dials, seven LEDs,
and the coil boards and power supply on a CAN bus.

`src/` is a library written in Verus. It decides and computes, and does no
input or output; each function states in its contract what it returns, and
Verus proves it. What is taken without proof is the arithmetic of
`embassy_time`: the five functions in `src/time.rs` that call it (`from_secs`,
`from_millis`, `from_micros`, `plus` and `since`) say in their contracts what
its source shows, for a clock of one million ticks a second, the rate that
`Cargo.toml` selects.

- `burner`, `pan`, `time`: the boards, burners and power settings, the pans, and
  time in clock ticks.
- `message`, `exchange`, `script`: the frames that are sent, a request with its
  reply, and the procedures made of them (starting up, shutting down, setting
  the powers, reading the status).
- `readings`: what the boards can be asked, and what their answers hold.
- `dispatch`: what a received frame means.
- `iox`, `leds`, `heartbeat`, `i2c`: the dials, the panel and the heartbeat line.
- `controller`: the states of the cooktop as a whole.

`app/` is the firmware around it, for an ESP32-C6. It performs the actions that
the library asks for and hands back what came of them.

`tests/` exercises the library on concrete values.
