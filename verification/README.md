# stabilizer

Firmware for a single-axis camera stabilizer on an ESP32: a gyroscope
(MPU-6000) measures the rotation, a servo motor turns the camera back, a
rotary encoder sets the dead band (threshold), a push button freezes the motor
or moves the anchor, and an SSD1306 OLED display shows the state.

- `src/` is the verified library (Verus):
  - `gyroscope`: register map, full-scale ranges and sensitivities, the
    wake-up and range register values, decoding of a raw reading, per-axis
    bias calibration and correction, with laws on them;
  - `stabilizer_state`: the state shared by the tasks (atomics; angles and
    threshold kept as `f32` bit patterns) and the handling of a button press;
  - `control`: what a button press asks for, the threshold selected by the
    rotary encoder, the axis of interest;
  - `oled_display`: display size, placement of the dial, display errors;
  - `rotary_encoder`, `servo_motor`, `utils`: errors, pulse counter limits,
    and the mapping of driver errors onto the stabilizer's own.
- `app/` is the program: the ESP-IDF drivers (I2C, LEDC, pulse counter,
  GPIO), the drawing on the display, the tasks and threads, and every
  computation on floating point (angle integration, motor decision,
  angle-to-duty mapping, scaling of readings).
