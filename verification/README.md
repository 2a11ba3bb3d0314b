# screen_grabber

The logic of a screen-grabbing tool, verified with Verus.

- `src/` — the library: image formats and their extensions, the naming of
  saved screenshots (candidate names probed in turn, the save location),
  capture delays, annotation tools, recording and matching of the capture
  shortcut with its lock keys, the timers of the grabbing windows, and the
  cursor state of the selection's handles. Each public function has a
  contract; the laws that tie functions together are public proof functions.
- `tests/` — tests on concrete values, including checks that the modifier
  bits and character codes agree with `keyboard-types`.
- `app/` — the druid side: window state with its floating-point geometry and
  pixels, the controllers that feed window events to the library, screen
  capture, saving, and drawing annotations.
