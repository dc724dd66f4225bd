//! Whisper models and the text that comes out of transcription.
use crate::config::{join_path, path_join};
use crate::text::{push_str, string_from_chars, trimmed};
use vstd::prelude::*;

verus! {

/// Where `model_download_url` fetches a model from.
pub open spec fn model_url(name: Seq<char>) -> Seq<char> {
    "https://huggingface.co/ggerganov/whisper.cpp/resolve/main/ggml-"@ + name + ".bin"@
}

/// The download address of the Whisper model `model_name`.
pub fn model_download_url(model_name: &str) -> (r: String)
    ensures
        r@ == model_url(model_name@),
{
    let mut out: Vec<char> = Vec::new();
    push_str(&mut out, "https://huggingface.co/ggerganov/whisper.cpp/resolve/main/ggml-");
    push_str(&mut out, model_name);
    push_str(&mut out, ".bin");
    string_from_chars(&out)
}

/// The file name of a model, `ggml-<name>.bin`.
pub open spec fn model_file(name: Seq<char>) -> Seq<char> {
    "ggml-"@ + name + ".bin"@
}

/// Where the model `model_name` is kept in `models_dir`.
pub fn model_path(models_dir: &str, model_name: &str) -> (r: String)
    ensures
        r@ == path_join(models_dir@, model_file(model_name@)),
{
    let mut out: Vec<char> = Vec::new();
    push_str(&mut out, "ggml-");
    push_str(&mut out, model_name);
    push_str(&mut out, ".bin");
    let file = string_from_chars(&out);
    join_path(models_dir, file.as_str())
}

/// The error reported when the model file at `path` does not exist.
pub fn missing_model_message(path: &str) -> (r: String)
    ensures
        r@ == "Model not found: "@ + path@ + ". Download it from settings."@,
{
    let mut out: Vec<char> = Vec::new();
    push_str(&mut out, "Model not found: ");
    push_str(&mut out, path);
    push_str(&mut out, ". Download it from settings.");
    string_from_chars(&out)
}

/// The segments that could be read, concatenated in order.
pub open spec fn concat_segments(segments: Seq<Option<String>>) -> Seq<char>
    decreases segments.len(),
{
    if segments.len() == 0 {
        seq![]
    } else {
        concat_segments(segments.drop_last()) + match segments.last() {
            Some(s) => s@,
            None => seq![],
        }
    }
}

/// The transcript of a run of Whisper: the readable segments concatenated
/// and trimmed.
pub fn transcript_from_segments(segments: &Vec<Option<String>>) -> (r: String)
    ensures
        r@ == trimmed(concat_segments(segments@)),
{
    let mut out: Vec<char> = Vec::new();
    let mut i: usize = 0;
    while i < segments.len()
        invariant
            i <= segments.len(),
            out@ == concat_segments(segments@.take(i as int)),
        decreases segments.len() - i,
    {
        assert(segments@.take(i + 1).drop_last() =~= segments@.take(i as int));
        match &segments[i] {
            Some(s) => push_str(&mut out, s.as_str()),
            None => {
            },
        }
        i += 1;
    }
    assert(segments@.take(segments.len() as int) =~= segments@);
    let (a, b) = crate::text::trim_bounds(&out);
    crate::text::string_from_range(&out, a, b)
}

} // verus!
