//! The request sent to the language model that tidies a transcript, and
//! what is taken from its answer.
use crate::text::{push_str, string_from_chars, trim, trimmed};
use vstd::prelude::*;

verus! {

/// The model asked to clean up transcripts.
pub const CLEANUP_MODEL: &'static str = "gpt-4o-mini";

/// Where the cleanup request is sent (an HTTP POST).
pub const CLEANUP_ENDPOINT: &'static str = "https://api.openai.com/v1/chat/completions";

/// The most tokens the model may answer with.
pub const CLEANUP_MAX_TOKENS: u32 = 2048;

/// The standing instructions given to the model.
pub const CLEANUP_SYSTEM_PROMPT: &'static str = "You are a dictation cleanup assistant. Clean up the transcribed speech while preserving the speaker's intent. Fix filler words, grammar, and punctuation. Match the tone of the surrounding context if provided.";

/// A chat request for the cleanup model (sampling temperature aside).
pub struct CleanupRequest {
    /// The URL the request is posted to.
    pub url: String,
    /// The value of the `Authorization` header.
    pub authorization: String,
    pub model: String,
    pub system: String,
    pub user: String,
    pub max_tokens: u32,
}

/// The system message: the standing instructions, followed by the user's
/// own instructions when there are any.
pub open spec fn system_prompt(custom: Option<Seq<char>>) -> Seq<char> {
    match custom {
        Some(c) if c.len() > 0 => CLEANUP_SYSTEM_PROMPT@ + "\n\nAdditional instructions: "@ + c,
        _ => CLEANUP_SYSTEM_PROMPT@,
    }
}

/// The user message: the text before the cursor when there is some, the
/// raw transcription, and the request to answer with the cleaned text only.
pub open spec fn user_prompt(raw: Seq<char>, context: Option<Seq<char>>) -> Seq<char> {
    let head = match context {
        Some(c) if c.len() > 0 => "Context (text before cursor): "@ + c + "\n"@,
        _ => seq![],
    };
    head + "Raw transcription: "@ + raw + "\n\nReturn only the cleaned text, nothing else."@
}

/// The view of an optional text.
pub open spec fn opt_view(o: Option<&str>) -> Option<Seq<char>> {
    match o {
        Some(s) => Some(s@),
        None => None,
    }
}

/// The request asking the model to clean up `raw_text`, with the text
/// before the cursor and the user's instructions when given, posted to the
/// chat completions endpoint with `api_key` as bearer token.
pub fn build_cleanup_request(
    raw_text: &str,
    context: Option<&str>,
    custom_instructions: Option<&str>,
    api_key: &str,
) -> (r: CleanupRequest)
    ensures
        r.url@ == CLEANUP_ENDPOINT@,
        r.authorization@ == "Bearer "@ + api_key@,
        r.model@ == CLEANUP_MODEL@,
        r.system@ == system_prompt(opt_view(custom_instructions)),
        r.user@ == user_prompt(raw_text@, opt_view(context)),
        r.max_tokens == CLEANUP_MAX_TOKENS,
{
    let mut system: Vec<char> = Vec::new();
    push_str(&mut system, CLEANUP_SYSTEM_PROMPT);
    match custom_instructions {
        Some(c) => {
            if !c.is_empty() {
                push_str(&mut system, "\n\nAdditional instructions: ");
                push_str(&mut system, c);
            }
        },
        None => {},
    }
    let mut user: Vec<char> = Vec::new();
    match context {
        Some(c) => {
            if !c.is_empty() {
                push_str(&mut user, "Context (text before cursor): ");
                push_str(&mut user, c);
                push_str(&mut user, "\n");
            }
        },
        None => {},
    }
    push_str(&mut user, "Raw transcription: ");
    push_str(&mut user, raw_text);
    push_str(&mut user, "\n\nReturn only the cleaned text, nothing else.");
    let mut authorization: Vec<char> = Vec::new();
    push_str(&mut authorization, "Bearer ");
    push_str(&mut authorization, api_key);
    CleanupRequest {
        url: CLEANUP_ENDPOINT.to_owned(),
        authorization: string_from_chars(&authorization),
        model: CLEANUP_MODEL.to_owned(),
        system: string_from_chars(&system),
        user: string_from_chars(&user),
        max_tokens: CLEANUP_MAX_TOKENS,
    }
}

/// The cleaned text taken from the model's answers: the first answer,
/// trimmed, or an error when there is none.
pub fn pick_cleaned_text(choices: &Vec<String>) -> (r: Result<String, String>)
    ensures
        choices.len() > 0 ==> (r matches Ok(t) && t@ == trimmed(choices@[0]@)),
        choices.len() == 0 ==> (r matches Err(e) && e@ == "No response from cleanup API"@),
{
    if choices.len() > 0 {
        Ok(trim(choices[0].as_str()))
    } else {
        Err("No response from cleanup API".to_owned())
    }
}

} // verus!
