//! Verified decision logic of a Finnish-to-Portuguese speech pipeline:
//! model file layout, recording and decoding loops, codec bookkeeping for
//! speech synthesis, and the text comparison used to grade synthesized speech.

pub mod text;
pub mod inference;
pub mod audio_capture;
pub mod config;
pub mod qwen3_speech_tokenizer;
pub mod qwen3_tts_model;
pub mod recording;
pub mod speech_evaluator;
pub mod speech_to_text;
pub mod text_to_speech;
pub mod tokenization;
pub mod translation;
