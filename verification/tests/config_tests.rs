use speech_pipeline::config::{
    join_path, qwen3_tts_model, translation_model, ModelConfig, QWEN3_TTS_MODEL_ID,
    TRANSLATION_MODEL_ID,
};

#[test]
fn subdir_replaces_every_slash() {
    assert_eq!(qwen3_tts_model().subdir(), "Qwen--Qwen3-TTS-12Hz-0.6B-CustomVoice");
    assert_eq!(translation_model().subdir(), "google--madlad400-3b-mt");
    let cfg = ModelConfig { id: "a/b/c", files: &[] };
    assert_eq!(cfg.subdir(), "a--b--c");
    let plain = ModelConfig { id: "plain", files: &[] };
    assert_eq!(plain.subdir(), "plain");
}

#[test]
fn subdir_never_holds_a_slash() {
    let cfg = ModelConfig { id: "//x//", files: &[] };
    let s = cfg.subdir();
    assert_eq!(s, "----x----");
    assert!(!s.contains('/'));
}

#[test]
fn path_joins_directory_and_subdir() {
    let m = qwen3_tts_model();
    assert_eq!(m.path("./qwen3-tts/models"), "./qwen3-tts/models/Qwen--Qwen3-TTS-12Hz-0.6B-CustomVoice");
    assert_eq!(m.path("models/"), "models/Qwen--Qwen3-TTS-12Hz-0.6B-CustomVoice");
    assert_eq!(m.path(""), "Qwen--Qwen3-TTS-12Hz-0.6B-CustomVoice");
}

#[test]
fn join_path_follows_unix_path_join() {
    assert_eq!(join_path("a", "b"), "a/b");
    assert_eq!(join_path("a/", "b"), "a/b");
    assert_eq!(join_path("", "b"), "b");
    assert_eq!(join_path("a", "/abs"), "/abs");
    assert_eq!(join_path("a", ""), "a/");
    for (base, rel) in [("a", "b"), ("a/", "b"), ("", "b"), ("a", "/abs"), ("a", "")] {
        let expected = std::path::Path::new(base).join(rel);
        assert_eq!(join_path(base, rel), expected.to_str().unwrap());
    }
}

#[test]
fn model_tables_list_needed_files() {
    let q = qwen3_tts_model();
    assert_eq!(q.id, QWEN3_TTS_MODEL_ID);
    assert_eq!(
        q.files,
        &[
            "config.json",
            "model.safetensors",
            "vocab.json",
            "merges.txt",
            "tokenizer_config.json",
            "speech_tokenizer/config.json",
            "speech_tokenizer/model.safetensors",
        ]
    );
    let t = translation_model();
    assert_eq!(t.id, TRANSLATION_MODEL_ID);
    assert_eq!(t.files, &["config.json", "model-q2k.gguf", "tokenizer.json"]);
}

#[test]
fn file_paths_are_below_model_directory() {
    let t = translation_model();
    let p = t.file_paths("models");
    assert_eq!(
        p,
        vec![
            "models/google--madlad400-3b-mt/config.json".to_string(),
            "models/google--madlad400-3b-mt/model-q2k.gguf".to_string(),
            "models/google--madlad400-3b-mt/tokenizer.json".to_string(),
        ]
    );
}

#[test]
fn missing_files_keeps_order_of_absent_files() {
    let q = qwen3_tts_model();
    let present = [true, false, true, false, true, true, false];
    assert_eq!(
        q.missing_files(&present),
        vec!["model.safetensors", "merges.txt", "speech_tokenizer/model.safetensors"]
    );
    assert!(q.missing_files(&[true; 7]).is_empty());
}

#[test]
fn check_presence_reports_missing_files() {
    let t = translation_model();
    assert!(t.check_presence(&[true, true, true]).is_ok());
    let e = t.check_presence(&[true, false, false]).unwrap_err();
    assert_eq!(e.model_id, "google/madlad400-3b-mt");
    assert_eq!(e.missing, vec!["model-q2k.gguf".to_string(), "tokenizer.json".to_string()]);
    assert_eq!(
        e.message(),
        "Missing model files for google/madlad400-3b-mt:\n  model-q2k.gguf\n  tokenizer.json\n\n\
         Please download the model first using:\n  cargo run --release -- --download-models"
    );
}

#[test]
fn verify_files_fails_without_model_directory() {
    let t = translation_model();
    let e = t.verify_files("/nonexistent-speech-pipeline-dir").unwrap_err();
    assert_eq!(e.missing.len(), 3);
    assert_eq!(e.missing[0], "config.json");
}

#[test]
fn verify_files_accepts_model_without_files() {
    let cfg = ModelConfig { id: "org/empty", files: &[] };
    assert!(cfg.verify_files("/nonexistent-speech-pipeline-dir").is_ok());
}

#[test]
fn verify_files_finds_existing_files() {
    let cfg = ModelConfig { id: "", files: &["tmp"] };
    assert_eq!(cfg.file_paths("/"), vec!["/tmp".to_string()]);
    assert!(cfg.verify_files("/").is_ok());
    let cfg2 = ModelConfig { id: "", files: &["tmp", "no-such-entry-here"] };
    let e = cfg2.verify_files("/").unwrap_err();
    assert_eq!(e.model_id, "");
    assert_eq!(e.missing, vec!["no-such-entry-here".to_string()]);
}
