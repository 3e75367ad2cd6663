//! What the pipeline sends outward: named notifications for the user
//! interface and feedback sounds. Both are fire-and-forget.

use vstd::prelude::*;
use vstd::string::*;
use rand::seq::SliceRandom;
use crate::config::{assistant_greet_phrases, greet_phrases, string_views};

verus! {

/// Notifications for the user interface.
#[derive(Clone, Copy, Debug, PartialEq, Eq, Structural)]
pub enum EventTypes {
    /// A wake word was heard and a listening session has begun.
    AssistantGreet,
    /// The listening session is over.
    AssistantWaiting,
}

impl EventTypes {
    /// The name under which the notification is sent.
    pub open spec fn name(self) -> Seq<char> {
        match self {
            EventTypes::AssistantGreet => "greet"@,
            EventTypes::AssistantWaiting => "waiting"@,
        }
    }

    /// The name under which the notification is sent.
    pub fn get(&self) -> (r: &'static str)
        ensures
            r@ == self.name(),
    {
        match self {
            EventTypes::AssistantGreet => "greet",
            EventTypes::AssistantWaiting => "waiting",
        }
    }
}

/// `s` is one of `items`.
pub open spec fn is_one_of(items: Seq<Seq<char>>, s: Seq<char>) -> bool {
    exists|i: int| 0 <= i < items.len() && #[trigger] items[i] == s
}

/// `SliceRandom::choose` with the thread's generator: one of the items,
/// picked at random, or nothing where there is no item. Which item comes is
/// left open.
#[verifier::external_body]
pub(crate) fn choose_one(items: &Vec<String>) -> (r: Option<String>)
    ensures
        items@.len() == 0 ==> r is None,
        items@.len() > 0 ==> r is Some && is_one_of(string_views(items@), r->0@),
{
    items.choose(&mut rand::thread_rng()).cloned()
}

/// The sound for a pick among the greetings; the first greeting where
/// nothing was picked.
pub fn greeting_or_default(pick: Option<String>) -> (r: String)
    ensures
        match pick {
            Some(s) => r@ == s@,
            None => r@ == "greet1"@,
        },
{
    match pick {
        Some(s) => s,
        None => String::from_str("greet1"),
    }
}

/// A greeting sound, picked at random.
pub fn pick_greeting() -> (r: String)
    ensures
        is_one_of(greet_phrases(), r@),
{
    let phrases = assistant_greet_phrases();
    proof {
        assert(string_views(phrases@).len() == 3);
    }
    let pick = choose_one(&phrases);
    greeting_or_default(pick)
}

/// The file that holds a sound: its name with the ending `.wav`.
pub fn sound_file(sound: &str) -> (r: String)
    ensures
        r@ == sound@ + ".wav"@,
{
    let mut name = String::from_str(sound);
    name.append(".wav");
    name
}

} // verus!
