# speech_pipeline

Finnish speech in, Portuguese speech out: Whisper transcribes a recording,
MADLAD-400 renders the text in Portuguese, and Qwen3-TTS speaks it.

- `src/` is the library, verified with Verus. It holds the decisions of the
  pipeline: where model files live and whether they are all there, the
  interactive recording loop, the special tokens and decoding loops of the
  recognizer and the translator, the whole greedy decoding run of the
  translator, the codec bookkeeping of speech synthesis, the shape checks and
  weight policy of the speech decoder, and the word comparison that grades
  synthesized speech. Calls into `tokenizers`, into candle for the T5
  translation model (`src/inference.rs`: encoding, decoding,
  greedy sampling, declared candle types) and into a few std functions
  sit behind small trusted wrappers whose contracts are documented where
  they stand.
- `app/` is the program around it: argument parsing, model loading and the
  remaining tensor work with candle, audio I/O with hound and cpal, keyboard input with
  crossterm, model download with hf-hub, and every step that computes with
  floating point.
- `tests/` runs the library on concrete values, with real tokenizers where a
  wrapper is involved.
