# orion_core

Games and tools for the Orion handheld console (an ESP32-S3 board with a
320x240 panel, an analog joystick and a rotary knob), with their behaviour
stated in contracts and proved with Verus.

- `src/` is the verified library: the launcher, Snake, Flags, 2048, Tetris,
  Om Nom, the platformer, the Pomodoro timer, the input decoders, the
  drawing model (`DisplaySink` and the recorded `DrawCommand`s), the font,
  the renderers, and the decisions of the firmware's drivers (knob key,
  network schedule, Wi-Fi credentials, panel clipping).
- `tests/` runs the library on concrete inputs.
- `app/` is the firmware around the library: the ESP-IDF drivers and the
  main loop.
