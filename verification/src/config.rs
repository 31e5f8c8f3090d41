//! Where the pipeline's models live on disk and which files each one needs.

use vstd::prelude::*;
use crate::text::{chars_of, join, owned, push_char, push_str, string_views, join_with};

verus! {

broadcast use vstd::string::group_string_axioms;

/// Hub identifier of the text-to-speech model.
pub const QWEN3_TTS_MODEL_ID: &'static str = "Qwen/Qwen3-TTS-12Hz-0.6B-CustomVoice";

/// Hub identifier of the Finnish-to-Portuguese text model.
pub const TRANSLATION_MODEL_ID: &'static str = "google/madlad400-3b-mt";

/// Hub identifier of the Finnish speech recognition model (this library's
/// choice of checkpoint).
pub const FINNISH_MODEL_ID: &'static str = "RASMUS/whisper-small-fi";

/// Hub identifier of the Portuguese speech recognition model that grades
/// synthesized speech. This checkpoint, like the Finnish one and the file
/// lists of both, is this library's own choice: any Whisper checkpoint with
/// the same files can stand in.
pub const PORTUGUESE_MODEL_ID: &'static str = "pierreguillou/whisper-medium-portuguese";

/// A model: its hub identifier and the files it needs, relative to its
/// directory.
pub struct ModelConfig {
    pub id: &'static str,
    pub files: &'static [&'static str],
}

/// The directory name of a model: its identifier with each `/` written as
/// `--`.
pub open spec fn subdir_of(id: Seq<char>) -> Seq<char>
    decreases id.len(),
{
    if id.len() == 0 {
        seq![]
    } else if id.last() == '/' {
        subdir_of(id.drop_last()) + seq!['-', '-']
    } else {
        subdir_of(id.drop_last()).push(id.last())
    }
}

/// `base` joined with `rel` as a Unix `Path::join` does it: an absolute
/// `rel` replaces `base`; otherwise a `/` separates the two unless `base` is
/// empty or already ends in one.
pub open spec fn path_join(base: Seq<char>, rel: Seq<char>) -> Seq<char> {
    if rel.len() > 0 && rel[0] == '/' {
        rel
    } else if base.len() == 0 || base.last() == '/' {
        base + rel
    } else {
        base.push('/') + rel
    }
}

/// `base` joined with `rel` (see `path_join`).
pub fn join_path(base: &str, rel: &str) -> (r: String)
    ensures
        r@ == path_join(base@, rel@),
{
    let b = chars_of(base);
    let t = chars_of(rel);
    if t.len() > 0 && t[0] == '/' {
        return owned(rel);
    }
    let mut r = owned(base);
    if b.len() > 0 && b[b.len() - 1] != '/' {
        push_char(&mut r, '/');
    }
    push_str(&mut r, rel);
    r
}

/// Whether something exists at `path` (std `Path::exists`). The answer
/// depends on the file system, so nothing is stated of it.
#[verifier::external_body]
fn path_exists(path: &str) -> bool {
    std::path::Path::new(path).exists()
}

/// The files among `files` whose entry in `present` is false, in order.
pub open spec fn absent_files(files: Seq<&'static str>, present: Seq<bool>) -> Seq<&'static str>
    decreases files.len(),
{
    if files.len() == 0 {
        seq![]
    } else {
        let rest = absent_files(files.drop_last(), present);
        if present[files.len() - 1] {
            rest
        } else {
            rest.push(files.last())
        }
    }
}

/// The abstract contents of a list of string slices.
pub open spec fn str_views(v: Seq<&'static str>) -> Seq<Seq<char>> {
    v.map_values(|s: &'static str| s@)
}

/// The report that a model lacks some of its files.
#[derive(Debug)]
pub struct MissingModelFiles {
    pub model_id: String,
    pub missing: Vec<String>,
}

/// The text that reports the missing files of a model.
pub open spec fn missing_files_message(id: Seq<char>, missing: Seq<Seq<char>>) -> Seq<char> {
    "Missing model files for "@ + id + ":\n  "@ + join_with(missing, "\n  "@)
        + "\n\nPlease download the model first using:\n  cargo run --release -- --download-models"@
}

impl MissingModelFiles {
    /// The text of the report, naming the model and listing each missing file.
    pub fn message(&self) -> (r: String)
        ensures
            r@ == missing_files_message(self.model_id@, string_views(self.missing@)),
    {
        let mut r = owned("Missing model files for ");
        push_str(&mut r, self.model_id.as_str());
        push_str(&mut r, ":\n  ");
        let listed = join(&self.missing, "\n  ");
        push_str(&mut r, listed.as_str());
        push_str(
            &mut r,
            "\n\nPlease download the model first using:\n  cargo run --release -- --download-models",
        );
        r
    }
}

/// Whether `r` is what a check of `config`'s files gives when `present`
/// tells which of them exist: success when none is absent, otherwise a report
/// that names the model and lists the absent files in order.
pub open spec fn report_matches(
    config: &ModelConfig,
    present: Seq<bool>,
    r: Result<(), MissingModelFiles>,
) -> bool {
    let absent = absent_files(config.files@, present);
    match r {
        Ok(()) => absent.len() == 0,
        Err(e) => absent.len() > 0 && e.model_id@ == config.id@ && string_views(e.missing@)
            == str_views(absent),
    }
}

impl ModelConfig {
    /// The directory name of the model: its identifier with `/` replaced by
    /// `--`.
    pub fn subdir(&self) -> (r: String)
        ensures
            r@ == subdir_of(self.id@),
    {
        let v = chars_of(self.id);
        let mut r = String::new();
        let mut i: usize = 0;
        while i < v.len()
            invariant
                i <= v.len(),
                v@ == self.id@,
                r@ == subdir_of(v@.take(i as int)),
            decreases v.len() - i,
        {
            assert(v@.take(i + 1).drop_last() =~= v@.take(i as int));
            if v[i] == '/' {
                push_char(&mut r, '-');
                push_char(&mut r, '-');
                assert(r@ =~= subdir_of(v@.take(i as int)) + seq!['-', '-']);
            } else {
                push_char(&mut r, v[i]);
            }
            i += 1;
        }
        assert(v@.take(v.len() as int) =~= v@);
        r
    }

    /// The directory of the model under `base_dir`.
    pub fn path(&self, base_dir: &str) -> (r: String)
        ensures
            r@ == path_join(base_dir@, subdir_of(self.id@)),
    {
        let sub = self.subdir();
        join_path(base_dir, sub.as_str())
    }

    /// The path of each needed file of the model under `base_dir`, in the
    /// order of `files`.
    pub fn file_paths(&self, base_dir: &str) -> (r: Vec<String>)
        ensures
            r@.len() == self.files@.len(),
            forall|i: int|
                0 <= i < r@.len() ==> #[trigger] r@[i]@ == path_join(
                    path_join(base_dir@, subdir_of(self.id@)),
                    self.files@[i]@,
                ),
    {
        let dir = self.path(base_dir);
        let mut r: Vec<String> = Vec::new();
        let mut i: usize = 0;
        while i < self.files.len()
            invariant
                i <= self.files@.len(),
                dir@ == path_join(base_dir@, subdir_of(self.id@)),
                r@.len() == i,
                forall|k: int|
                    0 <= k < i ==> #[trigger] r@[k]@ == path_join(dir@, self.files@[k]@),
            decreases self.files@.len() - i,
        {
            let p = join_path(dir.as_str(), self.files[i]);
            r.push(p);
            i += 1;
        }
        r
    }

    /// The needed files whose entry in `present` is false, in order.
    pub fn missing_files(&self, present: &[bool]) -> (r: Vec<&'static str>)
        requires
            present@.len() == self.files@.len(),
        ensures
            r@ == absent_files(self.files@, present@),
    {
        let mut r: Vec<&'static str> = Vec::new();
        let mut i: usize = 0;
        while i < self.files.len()
            invariant
                i <= self.files@.len(),
                present@.len() == self.files@.len(),
                r@ == absent_files(self.files@.take(i as int), present@),
            decreases self.files@.len() - i,
        {
            assert(self.files@.take(i + 1).drop_last() =~= self.files@.take(i as int));
            if !present[i] {
                r.push(self.files[i]);
            }
            i += 1;
        }
        assert(self.files@.take(self.files@.len() as int) =~= self.files@);
        r
    }

    /// The outcome of checking the model's files when `present` tells which
    /// of them exist.
    pub fn check_presence(&self, present: &[bool]) -> (r: Result<(), MissingModelFiles>)
        requires
            present@.len() == self.files@.len(),
        ensures
            report_matches(self, present@, r),
    {
        let absent = self.missing_files(present);
        if absent.len() == 0 {
            return Ok(());
        }
        let mut missing: Vec<String> = Vec::new();
        let mut i: usize = 0;
        while i < absent.len()
            invariant
                i <= absent@.len(),
                string_views(missing@) == str_views(absent@.take(i as int)),
            decreases absent@.len() - i,
        {
            let ghost before = missing@;
            missing.push(owned(absent[i]));
            assert(string_views(missing@) =~= string_views(before).push(absent@[i as int]@));
            assert(str_views(absent@.take(i + 1)) =~= str_views(absent@.take(i as int)).push(
                absent@[i as int]@,
            ));
            i += 1;
        }
        assert(absent@.take(absent@.len() as int) =~= absent@);
        Err(MissingModelFiles { model_id: owned(self.id), missing })
    }

    /// Checks that every needed file of the model exists under `base_dir`.
    /// Whatever the file system answers, the outcome is the report of
    /// `check_presence` for some answer about each of the needed files.
    pub fn verify_files(&self, base_dir: &str) -> (r: Result<(), MissingModelFiles>)
        ensures
            exists|present: Seq<bool>|
                present.len() == self.files@.len() && #[trigger] report_matches(
                    self,
                    present,
                    r,
                ),
    {
        let paths = self.file_paths(base_dir);
        let mut present: Vec<bool> = Vec::new();
        let mut i: usize = 0;
        while i < paths.len()
            invariant
                i <= paths@.len(),
                paths@.len() == self.files@.len(),
                present@.len() == i,
            decreases paths@.len() - i,
        {
            present.push(path_exists(paths[i].as_str()));
            i += 1;
        }
        let r = self.check_presence(present.as_slice());
        assert(report_matches(self, present@, r));
        r
    }
}

/// The text-to-speech model and the files it needs.
pub fn qwen3_tts_model() -> (r: ModelConfig)
    ensures
        r.id == QWEN3_TTS_MODEL_ID,
        r.files@.len() == 7,
        r.files@[0]@ == "config.json"@,
        r.files@[1]@ == "model.safetensors"@,
        r.files@[2]@ == "vocab.json"@,
        r.files@[3]@ == "merges.txt"@,
        r.files@[4]@ == "tokenizer_config.json"@,
        r.files@[5]@ == "speech_tokenizer/config.json"@,
        r.files@[6]@ == "speech_tokenizer/model.safetensors"@,
{
    ModelConfig {
        id: QWEN3_TTS_MODEL_ID,
        files: &[
            "config.json",
            "model.safetensors",
            "vocab.json",
            "merges.txt",
            "tokenizer_config.json",
            "speech_tokenizer/config.json",
            "speech_tokenizer/model.safetensors",
        ],
    }
}

/// The Finnish-to-Portuguese text model and the files it needs.
pub fn translation_model() -> (r: ModelConfig)
    ensures
        r.id == TRANSLATION_MODEL_ID,
        r.files@.len() == 3,
        r.files@[0]@ == "config.json"@,
        r.files@[1]@ == "model-q2k.gguf"@,
        r.files@[2]@ == "tokenizer.json"@,
{
    ModelConfig { id: TRANSLATION_MODEL_ID, files: &["config.json", "model-q2k.gguf", "tokenizer.json"] }
}

/// The Finnish speech recognition model and the files it needs.
pub fn finnish_model() -> (r: ModelConfig)
    ensures
        r.id == FINNISH_MODEL_ID,
        r.files@.len() == 3,
        r.files@[0]@ == "config.json"@,
        r.files@[1]@ == "tokenizer.json"@,
        r.files@[2]@ == "model.safetensors"@,
{
    ModelConfig { id: FINNISH_MODEL_ID, files: &["config.json", "tokenizer.json", "model.safetensors"] }
}

/// The Portuguese speech recognition model and the files it needs.
pub fn portuguese_model() -> (r: ModelConfig)
    ensures
        r.id == PORTUGUESE_MODEL_ID,
        r.files@.len() == 5,
        r.files@[0]@ == "config.json"@,
        r.files@[1]@ == "model.safetensors"@,
        r.files@[2]@ == "vocab.json"@,
        r.files@[3]@ == "merges.txt"@,
        r.files@[4]@ == "tokenizer_config.json"@,
{
    ModelConfig {
        id: PORTUGUESE_MODEL_ID,
        files: &["config.json", "model.safetensors", "vocab.json", "merges.txt", "tokenizer_config.json"],
    }
}

/// A model's directory name never holds `/`, so it is always a single path
/// component below the models directory.
pub proof fn law_subdir_has_no_slash(id: Seq<char>)
    ensures
        !subdir_of(id).contains('/'),
    decreases id.len(),
{
    if id.len() > 0 {
        law_subdir_has_no_slash(id.drop_last());
        let before = subdir_of(id.drop_last());
        if id.last() == '/' {
            assert forall|i: int| 0 <= i < subdir_of(id).len() implies subdir_of(id)[i] != '/' by {
                if i < before.len() {
                    assert(subdir_of(id)[i] == before[i]);
                }
            }
        } else {
            assert forall|i: int| 0 <= i < subdir_of(id).len() implies subdir_of(id)[i] != '/' by {
                if i < before.len() {
                    assert(subdir_of(id)[i] == before[i]);
                }
            }
        }
    }
}

} // verus!
