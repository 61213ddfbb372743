# tempest_type

The decision logic of a push-to-talk dictation tool, verified with Verus.
Hold a hotkey, speak, release: the recording is transcribed by a local
Whisper model, cleaned up by a local language model and typed at the cursor.
A second mode records meeting memos and saves a Markdown summary.

- `src/` is the verified library: hotkey configuration (`tempest::config`,
  `voice::config`), the recording session state machines
  (`tempest::session`, `voice::session`), the processing pipelines
  (`tempest::pipeline`, `voice::pipeline`), the language-model requests
  (`tempest::ollama`, `voice::ollama`), memo files (`memo`), sounds
  (`sound`) and the text utilities they rest on (`text`).
- `app/` is the program around it: the tray icon and event loop, the
  keyboard listener, audio capture and playback, speech recognition, HTTP
  and desktop I/O. It carries out the commands that the library returns.
  `--voice-type` runs the plain dictation tool instead of the menu-bar app.
- `tests/` runs the library on concrete values.

The configuration is `~/.tempest-type/config.json` (`~/.voice-type/config.json`
for the plain tool), for example `{"hotkey": "AltGr", "model": "qwen2.5-coder:3b"}`.
Supported hotkeys: AltGr, Alt, CapsLock, ControlLeft, ControlRight, ShiftLeft,
ShiftRight, Meta/MetaLeft, MetaRight, F1 to F12, Space, Tab (the plain tool
also knows KeyA and KeyB); names are matched without regard to case, and an
unknown name selects AltGr.
