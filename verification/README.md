# rustshot

A region-capture and annotation tool for Windows, with its logic verified
in Verus.

- `src/` is the verified library: the annotation engine with undo and redo,
  the selection overlay's state machine (drawing, moving, resizing by eight
  handles, confirming), cropping of the captured screen, the toolbar session
  (buttons, tools, colour picker, canvas strokes, text entry), pixel format
  conversion for saving, the clipboard bitmap layout, the hot-key modifiers,
  the configuration defaults, and the decisions taken on window, tray, menu
  and dialog messages.
- `app/` is the Windows program around it: window classes and message loops,
  GDI painting, screen capture, the clipboard, the save dialog and image
  files (through `image`), the tray icon, hot-key registration, and the
  JSON configuration file (through `serde_json`).
- `tests/` runs the library on concrete values.
