//! The command table and the matcher that selects a command for a
//! normalized utterance.
//!
//! The similarity of an utterance and a trigger phrase is the percentage of
//! the utterance's words that occur in the phrase. Entries are tried in table
//! order and the first one that reaches its threshold wins, whatever later
//! entries would score.

use vstd::prelude::*;
use vstd::string::*;
use crate::config::CMD_RATIO_THRESHOLD;
use crate::text::{contains, contains_chars, split_words, to_chars, views, words};

verus! {

/// One entry of the command table.
#[derive(Debug)]
pub struct AssistantCommand {
    /// Stable key of the command.
    pub path: String,
    /// Trigger phrases, in the order in which they are tried.
    pub phrases: Vec<String>,
    /// Match threshold of this entry, in percent; `None` for the default.
    pub threshold: Option<u32>,
    /// Whether the session stays open after the command has run.
    pub chain: bool,
    /// Feedback sounds, one of which is played after the command.
    pub sounds: Vec<String>,
}

/// What the matcher found.
#[derive(Clone, Copy, Debug, PartialEq, Eq, Structural)]
pub struct CommandMatch {
    /// Position of the entry in the table.
    pub index: usize,
    /// Position of the trigger phrase within the entry.
    pub phrase: usize,
    /// Similarity of the utterance and that phrase, in percent.
    pub ratio: u32,
}

/// How many of the words occur in `phrase`.
pub open spec fn hits(ws: Seq<Seq<char>>, phrase: Seq<char>) -> nat
    decreases ws.len(),
{
    if ws.len() == 0 {
        0
    } else {
        hits(ws.drop_last(), phrase) + if contains(phrase, ws.last()) {
            1nat
        } else {
            0nat
        }
    }
}

/// Percentage of the words that occur in `phrase`, rounded down; zero where
/// there is no word.
pub open spec fn ratio(ws: Seq<Seq<char>>, phrase: Seq<char>) -> nat {
    if ws.len() == 0 {
        0
    } else {
        (hits(ws, phrase) * 100 / ws.len()) as nat
    }
}

/// Similarity of an utterance and a trigger phrase, in percent.
pub open spec fn match_ratio(text: Seq<char>, phrase: Seq<char>) -> nat {
    ratio(words(text), phrase)
}

/// The threshold that an entry has to reach.
pub open spec fn threshold_of(cmd: AssistantCommand) -> nat {
    match cmd.threshold {
        Some(t) => t as nat,
        None => CMD_RATIO_THRESHOLD as nat,
    }
}

/// Phrase `k` of `cmd` reaches the entry's threshold and no earlier phrase
/// of the entry does.
pub open spec fn first_qualifying(ws: Seq<Seq<char>>, cmd: AssistantCommand, k: int) -> bool {
    &&& 0 <= k < cmd.phrases@.len()
    &&& ratio(ws, cmd.phrases@[k]@) >= threshold_of(cmd)
    &&& forall|q: int| 0 <= q < k ==> ratio(ws, (#[trigger] cmd.phrases@[q])@) < threshold_of(cmd)
}

/// Some phrase of `cmd` reaches the entry's threshold.
pub open spec fn entry_matches(ws: Seq<Seq<char>>, cmd: AssistantCommand) -> bool {
    exists|k: int|
        0 <= k < cmd.phrases@.len() && ratio(ws, (#[trigger] cmd.phrases@[k])@) >= threshold_of(
            cmd,
        )
}

/// `m` names the first entry of the table that matches, the first phrase of
/// that entry that reaches the threshold, and that phrase's ratio.
pub open spec fn is_first_match(
    ws: Seq<Seq<char>>,
    table: Seq<AssistantCommand>,
    m: CommandMatch,
) -> bool {
    &&& m.index < table.len()
    &&& first_qualifying(ws, table[m.index as int], m.phrase as int)
    &&& m.ratio == ratio(ws, table[m.index as int].phrases@[m.phrase as int]@)
    &&& forall|j: int| 0 <= j < m.index ==> !entry_matches(ws, #[trigger] table[j])
}

/// No entry of the table matches.
pub open spec fn no_match(ws: Seq<Seq<char>>, table: Seq<AssistantCommand>) -> bool {
    forall|j: int| 0 <= j < table.len() ==> !entry_matches(ws, #[trigger] table[j])
}

/// Percentage of the given words that occur in `phrase`.
pub fn ratio_of_words(ws: &Vec<Vec<char>>, phrase: &Vec<char>) -> (r: u32)
    ensures
        r == ratio(views(ws@), phrase@),
        r <= 100,
{
    let n = ws.len();
    if n == 0 {
        return 0;
    }
    let ghost all = views(ws@);
    let mut count: usize = 0;
    let mut i: usize = 0;
    proof {
        assert(all.take(0) =~= Seq::<Seq<char>>::empty());
    }
    while i < n
        invariant
            n == ws.len(),
            all == views(ws@),
            i <= n,
            count <= i,
            count == hits(all.take(i as int), phrase@),
        decreases n - i,
    {
        let found = contains_chars(phrase, &ws[i]);
        proof {
            assert(all.take(i + 1).drop_last() =~= all.take(i as int));
            assert(all.take(i + 1).last() == ws@[i as int]@);
        }
        if found {
            count += 1;
        }
        i += 1;
    }
    proof {
        assert(all.take(n as int) =~= all);
        assert(count * 100 / (n as int) <= 100) by (nonlinear_arith)
            requires
                0 <= count <= n,
                n > 0,
        ;
        assert(0 <= count * 100 / (n as int)) by (nonlinear_arith)
            requires
                0 <= count,
                n > 0,
        ;
        assert(count * 100 <= u128::MAX) by (nonlinear_arith)
            requires
                count <= usize::MAX,
        ;
    }
    let scaled: u128 = (count as u128) * 100 / (n as u128);
    scaled as u32
}

/// Similarity of an utterance and a trigger phrase, in percent.
pub fn similarity(text: &str, phrase: &str) -> (r: u32)
    ensures
        r == match_ratio(text@, phrase@),
        r <= 100,
{
    let t = to_chars(text);
    let ws = split_words(&t);
    let p = to_chars(phrase);
    ratio_of_words(&ws, &p)
}

/// Tries the phrases of one entry in order.
pub fn match_entry(ws: &Vec<Vec<char>>, cmd: &AssistantCommand) -> (r: Option<(usize, u32)>)
    ensures
        match r {
            Some((k, pct)) => first_qualifying(views(ws@), *cmd, k as int) && pct == ratio(
                views(ws@),
                cmd.phrases@[k as int]@,
            ),
            None => !entry_matches(views(ws@), *cmd),
        },
{
    let limit: u32 = match cmd.threshold {
        Some(t) => t,
        None => CMD_RATIO_THRESHOLD,
    };
    let mut k: usize = 0;
    while k < cmd.phrases.len()
        invariant
            k <= cmd.phrases.len(),
            limit == threshold_of(*cmd),
            forall|q: int|
                0 <= q < k ==> ratio(views(ws@), (#[trigger] cmd.phrases@[q])@) < threshold_of(
                    *cmd,
                ),
        decreases cmd.phrases.len() - k,
    {
        let phrase = to_chars(cmd.phrases[k].as_str());
        let pct = ratio_of_words(ws, &phrase);
        if pct >= limit {
            return Some((k, pct));
        }
        k += 1;
    }
    None
}

/// Selects the command for a normalized utterance: the first entry, in
/// table order, one of whose phrases reaches the entry's threshold.
pub fn fetch_command(text: &str, commands: &Vec<AssistantCommand>) -> (r: Option<CommandMatch>)
    ensures
        match r {
            Some(m) => is_first_match(words(text@), commands@, m),
            None => no_match(words(text@), commands@),
        },
{
    let t = to_chars(text);
    let ws = split_words(&t);
    let mut i: usize = 0;
    while i < commands.len()
        invariant
            i <= commands.len(),
            views(ws@) == words(text@),
            forall|j: int| 0 <= j < i ==> !entry_matches(words(text@), #[trigger] commands@[j]),
        decreases commands.len() - i,
    {
        match match_entry(&ws, &commands[i]) {
            Some((k, pct)) => {
                return Some(CommandMatch { index: i, phrase: k, ratio: pct });
            },
            None => {},
        }
        i += 1;
    }
    None
}

/// The keys of the commands, in table order.
pub fn list(commands: &Vec<AssistantCommand>) -> (r: Vec<String>)
    ensures
        r@.len() == commands@.len(),
        forall|i: int| 0 <= i < r@.len() ==> (#[trigger] r@[i])@ == commands@[i].path@,
{
    let mut out: Vec<String> = Vec::new();
    let mut i: usize = 0;
    while i < commands.len()
        invariant
            i <= commands.len(),
            out@.len() == i,
            forall|j: int| 0 <= j < i ==> (#[trigger] out@[j])@ == commands@[j].path@,
        decreases commands.len() - i,
    {
        out.push(commands[i].path.clone());
        i += 1;
    }
    out
}

} // verus!
