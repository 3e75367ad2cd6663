//! What the pipeline decides around the language-model service: what kind of
//! request an utterance is, which service is asked, what kind of answer came
//! back, and how much of the conversation is remembered. Talking to the
//! service is the caller's part.

use vstd::prelude::*;
use vstd::string::*;
use crate::error::prefixed;
use crate::text::{
    contains,
    contains_chars,
    copy_range,
    from_chars,
    lowercase,
    matches_at,
    occurs_at,
    to_chars,
    to_lowercase,
    trim,
    trimmed,
};

verus! {

/// Kinds of requests.
#[derive(Debug, Clone)]
pub enum AiRequestType {
    Question(String),
    Command(String),
    Conversation(String),
    DocumentRequest(String),
    Translation(String, String),
}

/// Kinds of answers.
#[derive(Debug, Clone)]
pub enum AiResponseType {
    TextResponse,
    ActionCommand(String),
    DocumentPath(String),
    WebSearch(String),
    SystemControl(String),
}

/// The kinds of requests, without their texts.
#[derive(Clone, Copy, Debug, PartialEq, Eq, Structural)]
pub enum RequestKind {
    Question,
    Command,
    DocumentRequest,
    Translation,
}

/// One turn of a conversation.
#[derive(Debug)]
pub struct Message {
    pub role: String,
    pub content: String,
}

/// How many turns of a conversation are remembered.
pub const HISTORY_LIMIT: usize = 10;

/// The kind of request that a lowercased utterance is: a word for opening or
/// finding makes it a request for a document, a word for translating a
/// translation, a word for running or switching a command; anything else is
/// a question.
pub open spec fn kind_of(lowered: Seq<char>) -> RequestKind {
    if contains(lowered, "открой"@) || contains(lowered, "покажи"@) || contains(
        lowered,
        "найди файл"@,
    ) || contains(lowered, "документ"@) {
        RequestKind::DocumentRequest
    } else if contains(lowered, "переведи"@) || contains(lowered, "перевод"@) {
        RequestKind::Translation
    } else if contains(lowered, "выполни"@) || contains(lowered, "запусти"@) || contains(
        lowered,
        "включи"@,
    ) || contains(lowered, "выключи"@) {
        RequestKind::Command
    } else {
        RequestKind::Question
    }
}

fn holds(text: &Vec<char>, word: &str) -> (r: bool)
    ensures
        r == contains(text@, word@),
{
    let w = to_chars(word);
    contains_chars(text, &w)
}

/// The kind of request that a lowercased utterance is.
pub fn classify_lowered(lowered: &str) -> (r: RequestKind)
    ensures
        r == kind_of(lowered@),
{
    let t = to_chars(lowered);
    if holds(&t, "открой") || holds(&t, "покажи") || holds(&t, "найди файл") || holds(
        &t,
        "документ",
    ) {
        RequestKind::DocumentRequest
    } else if holds(&t, "переведи") || holds(&t, "перевод") {
        RequestKind::Translation
    } else if holds(&t, "выполни") || holds(&t, "запусти") || holds(&t, "включи") || holds(
        &t,
        "выключи",
    ) {
        RequestKind::Command
    } else {
        RequestKind::Question
    }
}

/// Classifies an utterance. The request carries the utterance as it was
/// spoken; a translation is asked into Russian.
pub fn classify_request(text: &str) -> (r: AiRequestType)
    ensures
        match kind_of(lowercase(text@)) {
            RequestKind::DocumentRequest => r matches AiRequestType::DocumentRequest(t) && t@
                == text@,
            RequestKind::Translation => r matches AiRequestType::Translation(t, lang) && t@
                == text@ && lang@ == "ru"@,
            RequestKind::Command => r matches AiRequestType::Command(t) && t@ == text@,
            RequestKind::Question => r matches AiRequestType::Question(t) && t@ == text@,
        },
{
    let lowered = to_lowercase(text);
    match classify_lowered(lowered.as_str()) {
        RequestKind::DocumentRequest => AiRequestType::DocumentRequest(String::from_str(text)),
        RequestKind::Translation => AiRequestType::Translation(
            String::from_str(text),
            String::from_str("ru"),
        ),
        RequestKind::Command => AiRequestType::Command(String::from_str(text)),
        RequestKind::Question => AiRequestType::Question(String::from_str(text)),
    }
}

/// `text` begins with `prefix`.
pub open spec fn starts_with(text: Seq<char>, prefix: Seq<char>) -> bool {
    occurs_at(text, prefix, 0)
}

/// What follows `prefix` in `text`, without surrounding blanks.
pub open spec fn after_prefix(text: Seq<char>, prefix: Seq<char>) -> Seq<char> {
    trimmed(text.skip(prefix.len() as int))
}

/// What follows `prefix` in `text`, trimmed, where `text` begins with it.
pub fn strip_prefix(text: &Vec<char>, prefix: &str) -> (r: Option<String>)
    ensures
        match r {
            Some(rest) => starts_with(text@, prefix@) && rest@ == after_prefix(text@, prefix@),
            None => !starts_with(text@, prefix@),
        },
{
    let p = to_chars(prefix);
    if p.len() > text.len() {
        return None;
    }
    if !matches_at(text, &p, 0) {
        return None;
    }
    let rest = copy_range(text, p.len(), text.len());
    proof {
        assert(text@.subrange(p.len() as int, text.len() as int) =~= text@.skip(p.len() as int));
    }
    Some(from_chars(&trim(&rest)))
}

/// Reads the kind of answer off the way a command's answer begins.
pub fn classify_response(text: &str) -> (r: AiResponseType)
    ensures
        if starts_with(text@, "SYSTEM_COMMAND:"@) {
            r matches AiResponseType::SystemControl(c) && c@ == after_prefix(
                text@,
                "SYSTEM_COMMAND:"@,
            )
        } else if starts_with(text@, "OPEN_DOCUMENT:"@) {
            r matches AiResponseType::DocumentPath(p) && p@ == after_prefix(
                text@,
                "OPEN_DOCUMENT:"@,
            )
        } else if starts_with(text@, "WEB_SEARCH:"@) {
            r matches AiResponseType::WebSearch(q) && q@ == after_prefix(text@, "WEB_SEARCH:"@)
        } else {
            r is TextResponse
        },
{
    let t = to_chars(text);
    match strip_prefix(&t, "SYSTEM_COMMAND:") {
        Some(cmd) => {
            return AiResponseType::SystemControl(cmd);
        },
        None => {},
    }
    match strip_prefix(&t, "OPEN_DOCUMENT:") {
        Some(path) => {
            return AiResponseType::DocumentPath(path);
        },
        None => {},
    }
    match strip_prefix(&t, "WEB_SEARCH:") {
        Some(query) => {
            return AiResponseType::WebSearch(query);
        },
        None => {},
    }
    AiResponseType::TextResponse
}

/// What to search for after the service has named a document: what follows
/// `DOCUMENT_SEARCH:` in its answer, or the request itself where the answer
/// does not begin so.
pub fn document_query(answer: &str, request: &str) -> (r: String)
    ensures
        r@ == if starts_with(answer@, "DOCUMENT_SEARCH:"@) {
            after_prefix(answer@, "DOCUMENT_SEARCH:"@)
        } else {
            request@
        },
{
    let t = to_chars(answer);
    match strip_prefix(&t, "DOCUMENT_SEARCH:") {
        Some(query) => query,
        None => String::from_str(request),
    }
}

/// A service to ask, with the model to ask for.
#[derive(Debug)]
pub struct Endpoint {
    pub url: String,
    pub api_key: String,
    pub model: String,
}

/// Picks the service to ask: OpenRouter with the preferred model where its
/// key is set, else OpenAI with its standard model where its key is set.
pub fn choose_endpoint(openrouter_key: &str, openai_key: &str, preferred_model: &str) -> (r:
    Result<Endpoint, String>)
    ensures
        if openrouter_key@.len() > 0 {
            r matches Ok(e) && e.url@ == "https://openrouter.ai/api/v1/chat/completions"@
                && e.api_key@ == openrouter_key@ && e.model@ == preferred_model@
        } else if openai_key@.len() > 0 {
            r matches Ok(e) && e.url@ == "https://api.openai.com/v1/chat/completions"@
                && e.api_key@ == openai_key@ && e.model@ == "gpt-3.5-turbo"@
        } else {
            r matches Err(m) && m@ == "No API key available"@
        },
{
    if !openrouter_key.is_empty() {
        Ok(
            Endpoint {
                url: String::from_str("https://openrouter.ai/api/v1/chat/completions"),
                api_key: String::from_str(openrouter_key),
                model: String::from_str(preferred_model),
            },
        )
    } else if !openai_key.is_empty() {
        Ok(
            Endpoint {
                url: String::from_str("https://api.openai.com/v1/chat/completions"),
                api_key: String::from_str(openai_key),
                model: String::from_str("gpt-3.5-turbo"),
            },
        )
    } else {
        Err(String::from_str("No API key available"))
    }
}

/// The last `HISTORY_LIMIT` entries of a history.
pub open spec fn recent<T>(history: Seq<T>) -> Seq<T> {
    if history.len() > HISTORY_LIMIT {
        history.skip(history.len() - HISTORY_LIMIT)
    } else {
        history
    }
}

/// The role and the content of each turn.
pub open spec fn message_views(history: Seq<Message>) -> Seq<(Seq<char>, Seq<char>)> {
    Seq::new(history.len(), |i: int| (history[i].role@, history[i].content@))
}

/// A copy of a turn.
pub fn clone_message(m: &Message) -> (r: Message)
    ensures
        r == *m,
{
    Message { role: m.role.clone(), content: m.content.clone() }
}

/// Adds a question and its answer to the remembered conversation and forgets
/// all but the last `HISTORY_LIMIT` turns.
pub fn remember(history: &mut Vec<Message>, question: &str, answer: &str)
    ensures
        message_views(final(history)@) == recent(
            message_views(old(history)@).push(("user"@, question@)).push(("assistant"@, answer@)),
        ),
{
    let ghost target = message_views(history@).push(("user"@, question@)).push(
        ("assistant"@, answer@),
    );
    history.push(Message { role: String::from_str("user"), content: String::from_str(question) });
    history.push(
        Message { role: String::from_str("assistant"), content: String::from_str(answer) },
    );
    proof {
        assert(message_views(history@) =~= target);
    }
    if history.len() > HISTORY_LIMIT {
        let ghost full = history@;
        let drop = history.len() - HISTORY_LIMIT;
        let mut kept: Vec<Message> = Vec::new();
        let mut i: usize = drop;
        while i < history.len()
            invariant
                drop <= i <= history.len(),
                history@ == full,
                kept@ == full.subrange(drop as int, i as int),
            decreases history.len() - i,
        {
            kept.push(clone_message(&history[i]));
            proof {
                assert(kept@ =~= full.subrange(drop as int, i + 1));
            }
            i += 1;
        }
        proof {
            assert(full.subrange(drop as int, full.len() as int) =~= full.skip(drop as int));
            assert(message_views(full.skip(drop as int)) =~= message_views(full).skip(
                drop as int,
            ));
        }
        *history = kept;
    }
}

/// The percent-encoded form of bytes: letters, digits and `-`, `_`, `.`,
/// `~` stand for themselves; every other byte becomes `%` and its two
/// hexadecimal digits, in capitals.
pub open spec fn percent_encoded(bytes: Seq<u8>) -> Seq<char>
    decreases bytes.len(),
{
    if bytes.len() == 0 {
        Seq::empty()
    } else {
        percent_encoded(bytes.drop_last()) + encoded_byte(bytes.last())
    }
}

/// Whether a byte stands for itself in a percent-encoded text.
pub open spec fn is_unreserved(b: u8) -> bool {
    (0x30 <= b && b <= 0x39) || (0x41 <= b && b <= 0x5A) || (0x61 <= b && b <= 0x7A) || b == 0x2D
        || b == 0x2E || b == 0x5F || b == 0x7E
}

/// The hexadecimal digit, in capitals, for a value below sixteen.
pub open spec fn hex_digit(d: u8) -> char {
    if d < 10 {
        (0x30 + d) as char
    } else {
        (0x41 + d - 10) as char
    }
}

/// The percent-encoded form of one byte.
pub open spec fn encoded_byte(b: u8) -> Seq<char> {
    if is_unreserved(b) {
        seq![b as char]
    } else {
        seq!['%', hex_digit(b / 16), hex_digit(b % 16)]
    }
}

/// `urlencoding::encode`: the percent-encoded form of the text's UTF-8
/// bytes.
#[verifier::external_body]
pub(crate) fn url_encode(text: &str) -> (r: String)
    ensures
        r@ == percent_encoded(text.spec_bytes()),
{
    urlencoding::encode(text).into_owned()
}

/// The address of a web search for `query`.
pub fn web_search_url(query: &str) -> (r: String)
    ensures
        r@ == "https://www.google.com/search?q="@ + percent_encoded(query.spec_bytes()),
{
    let encoded = url_encode(query);
    prefixed("https://www.google.com/search?q=", encoded.as_str())
}

} // verus!
