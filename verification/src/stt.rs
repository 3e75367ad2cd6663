//! Speech recognition results and what the pipeline makes of them.

use vstd::prelude::*;
use vstd::string::*;
use crate::text::{is_blank, to_chars, trimmed};

verus! {

/// What the recognizer made of the audio so far.
#[derive(Debug)]
pub struct RecognitionResult {
    /// The recognized text; blank while nothing has been recognized yet.
    pub text: String,
    /// Whether the text may still change as more audio comes in.
    pub is_partial: bool,
}

/// The text that a result carries for a caller: there is a result, its text
/// is not blank, and it is final unless partial results are wanted.
pub open spec fn carries_text(result: Option<RecognitionResult>, want_partial: bool) -> bool {
    result matches Some(res) && trimmed(res.text@).len() > 0 && (want_partial || !res.is_partial)
}

/// The recognized text, where there is any to act on. No result, blank text
/// and an unwanted partial result all mean: keep listening.
pub fn recognize(result: Option<RecognitionResult>, want_partial: bool) -> (r: Option<String>)
    ensures
        r is Some <==> carries_text(result, want_partial),
        r is Some ==> r->0@ == result->0.text@,
{
    match result {
        None => None,
        Some(res) => {
            let chars = to_chars(res.text.as_str());
            if is_blank(&chars) {
                None
            } else if res.is_partial && !want_partial {
                None
            } else {
                Some(res.text)
            }
        },
    }
}

} // verus!
