# dualsense

Maps a DualSense controller to a virtual keyboard and mouse, and dictates through
its microphone.

- `src/` is the verified library: decoding of evdev events, key mapping, the
  transcription session, text entry and clipboard handling, stick calibration,
  and the text of the status screen. Every function states what it returns, and
  the `law_` functions state what holds across functions.
- `app/` is the program around it: devices, sockets, threads, the terminal, and
  floating-point signal processing.
- `tests/` runs the library on concrete values.

`serde_json`, `base64` and `evdev` are called from the library; what is believed
of them stands in the doc comments of `json`, `session` and `keymap`.
