# rusty_hangulclock

A word clock on a 5x5 panel of Hangul syllables lit by a WS2812 LED chain,
with a small OLED display and a rotary knob for its settings menu, on an
ESP32-C3 board.

- `src/` is the library, verified with Verus: which syllables spell a time
  (`panel`), the frames sent to the LED chain, the settings menu as a state
  machine with its screens (`menu`, `text`), knob debouncing (`rotary`), the
  clock task's decisions (`clock`), the network task's decisions (`net`) and
  the reading of stored settings (`nvs`).
- `app/` is the program around it: hardware set-up, the async tasks, Wi-Fi,
  SNTP, flash storage, the display and the LED driver.
- `tests/` exercises the library on concrete values.
