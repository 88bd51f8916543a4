# airbrakes

The verified core of the Airbrakes flight computer.

- `src/` is the library, verified with Verus: the register encodings and
  transactions of the BMI088 and BMP390 sensors, the W25QxxxJV flash driver
  (bounds, instruction frames, splitting writes into page programs), the
  flight-stage state machine, the flight log's cursors and header, the
  console's erase planning, and the flight-data layouts.
- `app/` is ordinary Rust around it: the asynchronous bus transactions
  (`embedded-hal-async`), postcard serialization of the flight log, the
  floating-point parts (sensor compensation, Kalman filter, drag solver,
  motor control), and the command-line tool that replays recorded flights.
- `tests/` exercises the library on concrete values.
