# cam_control

Control of a two-axis camera turret (two stepper motors, three limit
switches, one actuator) served to WebSocket clients, with a camera stream
beside it.

`src/` is the verified library:

- `state` — the turret's bookkeeping (step positions, switch states,
  homing and actuator flags) and wrapping position arithmetic;
- `direction` — the direction words of the axis commands;
- `hardware` — the hardware procedures (moving and homing each axis) as
  state machines that name the pin work to do next;
- `mock` — a turret without hardware;
- `control` — client addresses and the lock that gives one client control;
- `protocol` — the command protocol: who may do what, and the answers;
- `connection` — the events of one client connection, and the release of
  control when a connection ends;
- `error`, `text`, `rtsp` — error texts, decimal rendering, stream settings.

`app/` is the program around it: the GPIO pins, the WebSocket server and
JSON framing, the GStreamer camera stream, and the angles in degrees that
clients receive beside the step counts.
