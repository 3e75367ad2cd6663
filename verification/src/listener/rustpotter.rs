//! The local acoustic wake-word model: set up from model files, of which at
//! least one has to load, and asked once per frame.

use vstd::prelude::*;
use vstd::string::*;
use crate::config::{WakeWordEngine, RUSPOTTER_MIN_SCORE};
use crate::error::{fails_with, prefixed};
use crate::listener::{set_up, DetectionEvent, Detector};

verus! {

/// How many of the model files loaded.
pub open spec fn loaded_count(loads: Seq<bool>) -> nat
    decreases loads.len(),
{
    if loads.len() == 0 {
        0
    } else {
        loaded_count(loads.drop_last()) + if loads.last() {
            1nat
        } else {
            0nat
        }
    }
}

/// Counts the model files that loaded.
pub fn count_loaded(loads: &Vec<bool>) -> (n: usize)
    ensures
        n == loaded_count(loads@),
        n <= loads@.len(),
{
    let mut n: usize = 0;
    let mut i: usize = 0;
    proof {
        assert(loads@.take(0) =~= Seq::<bool>::empty());
    }
    while i < loads.len()
        invariant
            i <= loads.len(),
            n <= i,
            n == loaded_count(loads@.take(i as int)),
        decreases loads.len() - i,
    {
        proof {
            assert(loads@.take(i + 1).drop_last() =~= loads@.take(i as int));
        }
        if loads[i] {
            n += 1;
        }
        i += 1;
    }
    proof {
        assert(loads@.take(loads.len() as int) =~= loads@);
    }
    n
}

/// Takes the outcome of setting the acoustic model up: how its creation
/// went and which of its model files loaded. The model is ready when it was
/// created and at least one file loaded. Where a detector is set up already,
/// nothing changes and the call succeeds.
pub fn init(detector: &mut Detector, created: &Result<(), String>, loads: &Vec<bool>) -> (r:
    Result<(), String>)
    ensures
        *final(detector) == set_up(
            *old(detector),
            WakeWordEngine::Rustpotter,
            *created is Ok && loaded_count(loads@) > 0,
        ),
        old(detector).active is Some ==> r is Ok,
        old(detector).active is None ==> (match *created {
            Err(e) => fails_with(r, "Failed to create Rustpotter instance: "@ + e@),
            Ok(_) => if loaded_count(loads@) == 0 {
                fails_with(r, "No Rustpotter wake-word files could be loaded"@)
            } else {
                r is Ok
            },
        }),
{
    if detector.active.is_some() {
        return Ok(());
    }
    match created {
        Err(e) => {
            return Err(prefixed("Failed to create Rustpotter instance: ", e.as_str()));
        },
        Ok(_) => {},
    }
    let loaded = count_loaded(loads);
    if loaded == 0 {
        return Err(String::from_str("No Rustpotter wake-word files could be loaded"));
    }
    detector.active = Some(WakeWordEngine::Rustpotter);
    Ok(())
}

/// Turns what the acoustic model reported for a frame into a detection: a
/// score counts from `RUSPOTTER_MIN_SCORE` on, and the model knows one
/// keyword only.
pub fn data_callback(score: Option<u32>) -> (r: Option<DetectionEvent>)
    ensures
        r == match score {
            Some(s) => if s >= RUSPOTTER_MIN_SCORE {
                Some(DetectionEvent { keyword_index: 0, score: s })
            } else {
                None
            },
            None => None,
        },
{
    match score {
        Some(s) => {
            if s >= RUSPOTTER_MIN_SCORE {
                Some(DetectionEvent { keyword_index: 0, score: s })
            } else {
                None
            }
        },
        None => None,
    }
}

} // verus!
