//! Wake-word detection on streaming speech recognition: the wake word counts
//! as heard when enough of the recognized words hold it.

use vstd::prelude::*;
use vstd::string::*;
use crate::config::{WakeWordEngine, VOSK_FETCH_PHRASE, VOSK_MIN_RATIO};
use crate::error::{fails_with, prefixed};
use crate::listener::{set_up, DetectionEvent, Detector};
use crate::text::{
    contains,
    contains_chars,
    from_chars,
    lowercase,
    split_words,
    to_chars,
    to_lowercase,
    views,
    words,
};

verus! {

/// How many of the words hold `phrase` once they are lowercased.
pub open spec fn holders(ws: Seq<Seq<char>>, phrase: Seq<char>) -> nat
    decreases ws.len(),
{
    if ws.len() == 0 {
        0
    } else {
        holders(ws.drop_last(), phrase) + if contains(lowercase(ws.last()), phrase) {
            1nat
        } else {
            0nat
        }
    }
}

/// Percentage of the words of `text` that hold `phrase`, rounded down; zero
/// where there is no word.
pub open spec fn phrase_ratio(text: Seq<char>, phrase: Seq<char>) -> nat {
    let ws = words(text);
    if ws.len() == 0 {
        0
    } else {
        (holders(ws, phrase) * 100 / ws.len()) as nat
    }
}

/// Takes whether the recognition model is there, which is all that this
/// back-end needs. Where a detector is set up already, nothing changes and
/// the call succeeds.
pub fn init(detector: &mut Detector, model_path: &str, exists: bool) -> (r: Result<(), String>)
    ensures
        *final(detector) == set_up(*old(detector), WakeWordEngine::Vosk, exists),
        old(detector).active is Some || exists ==> r is Ok,
        old(detector).active is None && !exists ==> fails_with(
            r,
            "Vosk model not found at: "@ + model_path@,
        ),
{
    if detector.active.is_some() {
        return Ok(());
    }
    if !exists {
        return Err(prefixed("Vosk model not found at: ", model_path));
    }
    detector.active = Some(WakeWordEngine::Vosk);
    Ok(())
}

/// Percentage of the recognized words that hold `phrase`.
pub fn ratio_of_holders(text: &str, phrase: &str) -> (r: u32)
    ensures
        r == phrase_ratio(text@, phrase@),
        r <= 100,
{
    let chars = to_chars(text);
    let ws = split_words(&chars);
    let pat = to_chars(phrase);
    let n = ws.len();
    if n == 0 {
        return 0;
    }
    let ghost all = views(ws@);
    let mut count: usize = 0;
    let mut i: usize = 0;
    proof {
        assert(all.take(0) =~= Seq::<Seq<char>>::empty());
    }
    while i < n
        invariant
            n == ws.len(),
            all == views(ws@),
            i <= n,
            count <= i,
            count == holders(all.take(i as int), pat@),
        decreases n - i,
    {
        let word = from_chars(&ws[i]);
        let lowered = to_lowercase(word.as_str());
        let lowered_chars = to_chars(lowered.as_str());
        let found = contains_chars(&lowered_chars, &pat);
        proof {
            assert(all.take(i + 1).drop_last() =~= all.take(i as int));
            assert(all.take(i + 1).last() == ws@[i as int]@);
        }
        if found {
            count += 1;
        }
        i += 1;
    }
    proof {
        assert(all.take(n as int) =~= all);
        assert(count * 100 / (n as int) <= 100) by (nonlinear_arith)
            requires
                0 <= count <= n,
                n > 0,
        ;
        assert(0 <= count * 100 / (n as int)) by (nonlinear_arith)
            requires
                0 <= count,
                n > 0,
        ;
        assert(count * 100 <= u128::MAX) by (nonlinear_arith)
            requires
                count <= usize::MAX,
        ;
    }
    let scaled: u128 = (count as u128) * 100 / (n as u128);
    scaled as u32
}

/// Turns what the recognizer heard in a frame into a detection: the wake
/// word counts as heard when at least `VOSK_MIN_RATIO` percent of the words
/// hold it. The score is that percentage on the scale of scores.
pub fn data_callback(recognized: Option<&str>) -> (r: Option<DetectionEvent>)
    ensures
        r == match recognized {
            Some(text) => if phrase_ratio(text@, VOSK_FETCH_PHRASE@) >= VOSK_MIN_RATIO {
                Some(
                    DetectionEvent {
                        keyword_index: 0,
                        score: (phrase_ratio(text@, VOSK_FETCH_PHRASE@) * 10) as u32,
                    },
                )
            } else {
                None
            },
            None => None,
        },
        r is Some ==> r->0.score >= VOSK_MIN_RATIO * 10 && r->0.score <= 1000,
{
    match recognized {
        Some(text) => {
            let ratio = ratio_of_holders(text, VOSK_FETCH_PHRASE);
            if ratio >= VOSK_MIN_RATIO {
                Some(DetectionEvent { keyword_index: 0, score: ratio * 10 })
            } else {
                None
            }
        },
        None => None,
    }
}

} // verus!
