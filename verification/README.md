# clip_translator

A clipboard daemon that translates copied text between English and Japanese
with a remote Ollama model and shows the result in a native notification.

- `src/` is the verified library (Verus): which clipboard text gets translated
  (`clipboard`, `text`), how a model reply is read (`translator`), the
  decisions of the clipboard loop and the notification text (`pipeline`), the
  pause switch and the reactions to tray and hotkey events (`state`,
  `control`, `tray`, `hotkey`), and the settings (`config`).
- `app/` is the program around it: command line, clipboard access, the Ollama
  client, notifications, tray icon, global hotkey and the event loops.
- `tests/` runs the library on concrete values.
