# dictation

Local speech dictation for Linux desktops: a shortcut toggles the
microphone, a local recognizer (Whisper, Vosk, Moonshine, Zipformer or
SenseVoice) transcribes, and the words are typed into the focused window.

The decisions of the program are a Verus-verified library (`src/`); the
program around it (`app/`) does the I/O.

## Library (`src/`)

| Module | What is verified |
| --- | --- |
| `text` | string helpers over `Seq<char>`: trimming, splitting, joining, decimal parsing |
| `paths` | XDG locations and `Path`-style component comparison |
| `config` | defaults and the validation report of `config.toml` |
| `provider` | choice of the Whisper compute provider and thread count |
| `session` | the start/stop/toggle protocol and the stop escalation as state machines, pidfile parsing |
| `daemon` | the engine daemon's lifecycle: refusal, start, listening, flush and cleanup |
| `speech` | when an utterance opens, is re-decoded and ends |
| `segment` | recognizer choice, Whisper encoder windows, stage-direction removal, transcript assembly |
| `formatter` | capitalization and the minimal revision of already typed text |
| `inject` | the typing fallback and the command lines of the external tools |
| `models` | the model catalog, installation checks, downloads, selection, listing |
| `cli` | parsing of every command and of the benchmark options |
| `bench` | word error rate, WAV decoding, benchmark plans |
| `indicator` | what the status pill shows and where |
| `audio` | capture-device selection |

## Program (`app/`)

`main.rs` dispatches on the command; the daemon, microphone capture, the
recognizer runtimes, the typing processes, the GTK indicator and the
config file live in the other modules.
