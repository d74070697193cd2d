# signalk_plugins

The logic of a set of plugins for a Signal K server, written in Verus: NMEA 0183 and
NMEA 2000 input and output, AIS target tracking with collision warnings, an autopilot, an
anchor alarm, derived data and a sensor simulator.

- `src/` is the verified library. Every function states what it returns or changes; laws
  that span functions stand beside them as public proof functions.
- `app/` wraps the library into plugins: configuration, sockets, serial lines, the CAN bus
  and the tasks that run the loops.
- `tests/` runs the library on concrete values.

## Numbers

Floating point numbers are held by their bits. What has to be computed with them is
handed out as a formula (`expr::Expr`), which `app/` evaluates; the value comes back as an
argument of the function that decides on it. Times are nanoseconds of a monotonic clock.
