# V Voice

A floating voice-to-text widget: press a hotkey, speak, and the words are typed into the focused
application. This crate holds what the application decides and computes, verified with Verus, and
the desktop application around it.

## Layout

| Module | What it holds |
|--------|---------------|
| `text` | trimming, lines, prefixes and decimal numbers over sequences of characters |
| `paths` | where the application's files stand, and which were seen |
| `settings` | the models that can be chosen, the settings and how they are kept |
| `pill` | the pill's positions for each monitor, and which one to go back to |
| `request` | commands and uploads that are handed to other programs and servers |
| `reply` | what programs and servers answer, and the transcript in it |
| `wav` | recordings as WAV files |
| `transcribe` | which engine gets a recording, and what it is asked |
| `whisper_server` | the persistent whisper server and the steps of its start |
| `run` | the steps of a transcription by a program |
| `zipformer` | the Zipformer engine and the speech in its output |
| `granite` | the Granite engine and the steps of its server's start |
| `download` | what is fetched, and the steps by which a file comes to stand whole or not at all |
| `archive` | the whisper programs in their archive |
| `sherpa` | the steps by which sherpa-onnx is installed |
| `shell` | the session log, the tray menu and the browser's arguments |

`src/` is the verified library, `tests/` its tests, and `app/` the application: windows, files,
processes, requests and all arithmetic on floating-point numbers.

Work that waits on the outside (a health check, a chunk of a download, a run of `tar`) is driven by
machines: a `step` takes what the last piece of work brought and says what to do next. What every
step keeps, and that starts and installations end, are public proof functions beside them.

## Local models

| Model | Size |
|-------|------|
| `tiny.en`, `tiny` | 75 MB |
| `base.en`, `base` | 142 MB |
| `small.en`, `small` | 466 MB |
| `medium.en`, `medium` | 1.5 GB |
| `large-v3-turbo` | 1.6 GB |

## Cloud providers

| Provider | Model |
|----------|-------|
| OpenAI | `whisper-1` |
| Groq | `whisper-large-v3-turbo` |
