# murmur

A push-to-talk dictation tool for macOS: hold (or toggle) the Fn key, speak,
and the transcript, with spoken voice commands applied and optionally tidied
by a language model, is pasted at the cursor.

## Layout

- `src/` is the library, written in Verus. It holds the logic with its
  contracts and proofs: voice-command rewriting (`commands`, `word_regex`,
  `text`), configuration defaults and locations (`config`), reading and changing a
  setting by its dotted key (`setting_keys`), Fn-key state machines
  (`hotkey`), the decisions of the dictation pipeline (`pipeline`), PID-file
  and launchd bookkeeping (`daemon`, `digits`), the cleanup request and
  cursor context (`cleanup`, `context`), the editing scripts (`insertion`),
  the first-run wizard (`wizard`), and the CLI commands (`cli`).
  `tray` holds the decisions of a menu-bar tray (which window an item
  opens, which toggles it flips); the command-line program in `app/` has
  no tray and does not use it.
- `app/` is the program around it: argument parsing, audio capture,
  transcription, HTTP, SQLite history, notifications and the event loop. It
  hands the library plain values and performs the actions it decides on.
- `tests/` exercises the library on concrete values.
