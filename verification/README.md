# Qwen3 TTS

The core of a native text-to-speech runtime, verified with [Verus](https://github.com/verus-lang/verus).

| Directory | What it holds |
|-----------|---------------|
| `src/vocoder` | the audio tokenizer decoder: its tensors and their names, what is loaded and uploaded in which order, and the graph that it computes |
| `src/synthesis` | requests, speaker embeddings, codec frames, chunk-by-chunk vocoding with crossfades, stage timings |
| `src/server` | start-up arguments, speech requests, voices, jobs and their store, what the routes answer |
| `src/cli` | arguments of the command line and of the developer commands |
| `src/backend.rs`, `src/backend_search.rs`, `src/support.rs` | which compute backend is asked for and used, how a graph is run on it, what it supports |
| `src/voice_clone_prompt.rs`, `src/paths.rs`, `src/wav.rs`, `src/text.rs` | prompts, model files, WAVE files, text |
| `app` | the runtime around it: tensor backends, files, HTTP |
| `tests` | the library seen from outside |

Numbers in single precision are held by their bit patterns (`Real32`); arithmetic on them is left to
the runtime. The library rests on what it says of `String::push`, `Path::is_file` and the `hound`
crate's WAVE writer.
