//! Normalization of recognized speech: lowercase folding, removal of filler
//! phrases and trimming.
//!
//! Each filler phrase is tried once, in list order, and its leftmost
//! occurrence is cut out as a plain substring. A phrase that an earlier,
//! shorter phrase has already broken up is therefore not found any more.

use vstd::prelude::*;
use vstd::string::*;
use crate::config::string_views;
use crate::text::{
    copy_range,
    from_chars,
    lowercase,
    remove_first,
    to_chars,
    to_lowercase,
    trim,
    trimmed,
    without_first,
};

verus! {

/// `text` after the leftmost occurrence of each filler, taken in order, has
/// been cut out.
pub open spec fn strip_fillers(text: Seq<char>, fillers: Seq<Seq<char>>) -> Seq<char>
    decreases fillers.len(),
{
    if fillers.len() == 0 {
        text
    } else {
        without_first(strip_fillers(text, fillers.drop_last()), fillers.last())
    }
}

/// The normal form of recognized speech.
pub open spec fn normalized(text: Seq<char>, fillers: Seq<Seq<char>>) -> Seq<char> {
    trimmed(strip_fillers(lowercase(text), fillers))
}

/// Cuts the fillers out of an already lowercased text and trims it.
pub fn strip_and_trim(lowered: &str, fillers: &Vec<String>) -> (r: String)
    ensures
        r@ == trimmed(strip_fillers(lowered@, string_views(fillers@))),
{
    let ghost all = string_views(fillers@);
    let start = to_chars(lowered);
    let mut cur = copy_range(&start, 0, start.len());
    proof {
        assert(start@.subrange(0, start.len() as int) =~= start@);
        assert(all.take(0) =~= Seq::<Seq<char>>::empty());
    }
    let mut i: usize = 0;
    while i < fillers.len()
        invariant
            i <= fillers.len(),
            all == string_views(fillers@),
            cur@ == strip_fillers(lowered@, all.take(i as int)),
        decreases fillers.len() - i,
    {
        let pat = to_chars(fillers[i].as_str());
        cur = remove_first(&cur, &pat);
        proof {
            assert(all.take(i + 1).drop_last() =~= all.take(i as int));
            assert(all.take(i + 1).last() == fillers@[i as int]@);
        }
        i += 1;
    }
    proof {
        assert(all.take(fillers.len() as int) =~= all);
    }
    let t = trim(&cur);
    from_chars(&t)
}

/// Normalizes recognized speech against a list of filler phrases.
pub fn normalize(text: &str, fillers: &Vec<String>) -> (r: String)
    ensures
        r@ == normalized(text@, string_views(fillers@)),
{
    let lowered = to_lowercase(text);
    strip_and_trim(lowered.as_str(), fillers)
}

} // verus!
