//! Document search: what kind of file a name stands for and how well a file
//! name answers a query. Walking the directories is the caller's part.

use vstd::prelude::*;
use vstd::string::*;
use crate::audio::{extension_of, has_extension, is_last_dot, no_extension};
use crate::error::prefixed;
use crate::text::{
    contains,
    contains_chars,
    copy_range,
    from_chars,
    lowercase,
    matches_at,
    occurs_at,
    same_text,
    to_chars,
    to_lowercase,
};

verus! {

/// Kinds of files.
#[derive(Clone, Copy, Debug, PartialEq, Eq, Hash, Structural)]
pub enum DocumentType {
    Document,
    Image,
    Video,
    Audio,
    Other,
}

/// `ext`, a file ending with its dot, is one of the document endings.
pub open spec fn is_document_ending(ext: Seq<char>) -> bool {
    ext == ".pdf"@ || ext == ".doc"@ || ext == ".docx"@ || ext == ".txt"@ || ext == ".rtf"@ || ext
        == ".ppt"@ || ext == ".pptx"@ || ext == ".xls"@ || ext == ".xlsx"@ || ext == ".csv"@ || ext
        == ".odt"@ || ext == ".ods"@ || ext == ".odp"@ || ext == ".pages"@ || ext == ".numbers"@
        || ext == ".key"@
}

/// `ext` is one of the image endings.
pub open spec fn is_image_ending(ext: Seq<char>) -> bool {
    ext == ".jpg"@ || ext == ".jpeg"@ || ext == ".png"@ || ext == ".gif"@ || ext == ".bmp"@ || ext
        == ".tiff"@ || ext == ".svg"@ || ext == ".webp"@
}

/// `ext` is one of the video endings.
pub open spec fn is_video_ending(ext: Seq<char>) -> bool {
    ext == ".mp4"@ || ext == ".avi"@ || ext == ".mkv"@ || ext == ".mov"@ || ext == ".wmv"@ || ext
        == ".flv"@ || ext == ".webm"@ || ext == ".m4v"@
}

/// `ext` is one of the audio endings.
pub open spec fn is_audio_ending(ext: Seq<char>) -> bool {
    ext == ".mp3"@ || ext == ".wav"@ || ext == ".flac"@ || ext == ".aac"@ || ext == ".ogg"@ || ext
        == ".wma"@ || ext == ".m4a"@
}

/// The kind of file that an ending stands for.
pub open spec fn type_of_ending(ext: Seq<char>) -> DocumentType {
    if is_document_ending(ext) {
        DocumentType::Document
    } else if is_image_ending(ext) {
        DocumentType::Image
    } else if is_video_ending(ext) {
        DocumentType::Video
    } else if is_audio_ending(ext) {
        DocumentType::Audio
    } else {
        DocumentType::Other
    }
}

/// The kind of file that an ending, dot included and in small letters,
/// stands for.
pub fn determine_file_type(extension: &str) -> (r: DocumentType)
    ensures
        r == type_of_ending(extension@),
{
    let e = extension;
    if same_text(e, ".pdf") || same_text(e, ".doc") || same_text(e, ".docx") || same_text(
        e,
        ".txt",
    ) || same_text(e, ".rtf") || same_text(e, ".ppt") || same_text(e, ".pptx") || same_text(
        e,
        ".xls",
    ) || same_text(e, ".xlsx") || same_text(e, ".csv") || same_text(e, ".odt") || same_text(
        e,
        ".ods",
    ) || same_text(e, ".odp") || same_text(e, ".pages") || same_text(e, ".numbers") || same_text(
        e,
        ".key",
    ) {
        DocumentType::Document
    } else if same_text(e, ".jpg") || same_text(e, ".jpeg") || same_text(e, ".png") || same_text(
        e,
        ".gif",
    ) || same_text(e, ".bmp") || same_text(e, ".tiff") || same_text(e, ".svg") || same_text(
        e,
        ".webp",
    ) {
        DocumentType::Image
    } else if same_text(e, ".mp4") || same_text(e, ".avi") || same_text(e, ".mkv") || same_text(
        e,
        ".mov",
    ) || same_text(e, ".wmv") || same_text(e, ".flv") || same_text(e, ".webm") || same_text(
        e,
        ".m4v",
    ) {
        DocumentType::Video
    } else if same_text(e, ".mp3") || same_text(e, ".wav") || same_text(e, ".flac") || same_text(
        e,
        ".aac",
    ) || same_text(e, ".ogg") || same_text(e, ".wma") || same_text(e, ".m4a") {
        DocumentType::Audio
    } else {
        DocumentType::Other
    }
}

/// How many files of a kind a search found.
pub open spec fn count_of(kinds: Seq<DocumentType>, kind: DocumentType) -> nat
    decreases kinds.len(),
{
    if kinds.len() == 0 {
        0
    } else {
        count_of(kinds.drop_last(), kind) + if kinds.last() == kind {
            1nat
        } else {
            0nat
        }
    }
}

/// Counts the found files of one kind.
pub fn get_search_statistics(kinds: &Vec<DocumentType>, kind: DocumentType) -> (n: usize)
    ensures
        n == count_of(kinds@, kind),
{
    let mut n: usize = 0;
    let mut i: usize = 0;
    proof {
        assert(kinds@.take(0) =~= Seq::<DocumentType>::empty());
    }
    while i < kinds.len()
        invariant
            i <= kinds.len(),
            n <= i,
            n == count_of(kinds@.take(i as int), kind),
        decreases kinds.len() - i,
    {
        proof {
            assert(kinds@.take(i + 1).drop_last() =~= kinds@.take(i as int));
        }
        if kinds[i] == kind {
            n += 1;
        }
        i += 1;
    }
    proof {
        assert(kinds@.take(kinds.len() as int) =~= kinds@);
    }
    n
}

/// The name without its ending: what stands before the last dot, or the
/// whole name where it has no ending.
pub open spec fn is_stem(name: Seq<char>, stem: Seq<char>) -> bool {
    (no_extension(name) && stem == name) || exists|i: int|
        0 < i && is_last_dot(name, i) && stem == name.take(i)
}

/// A name has one last dot.
pub proof fn lemma_last_dot_unique(name: Seq<char>, i: int, k: int)
    requires
        is_last_dot(name, i),
        is_last_dot(name, k),
    ensures
        i == k,
{
    if i < k {
        assert(name[k] != '.');
    } else if k < i {
        assert(name[i] != '.');
    }
}

/// A name has one stem.
pub proof fn lemma_stem_unique(name: Seq<char>, a: Seq<char>, b: Seq<char>)
    requires
        is_stem(name, a),
        is_stem(name, b),
    ensures
        a == b,
{
    if no_extension(name) {
        if exists|i: int| 0 < i && is_last_dot(name, i) && a == name.take(i) {
            let i = choose|i: int| 0 < i && is_last_dot(name, i) && a == name.take(i);
            assert(name[i] == '.');
        }
        if exists|i: int| 0 < i && is_last_dot(name, i) && b == name.take(i) {
            let i = choose|i: int| 0 < i && is_last_dot(name, i) && b == name.take(i);
            assert(name[i] == '.');
        }
    } else {
        let i = choose|i: int| 0 < i && is_last_dot(name, i) && a == name.take(i);
        let k = choose|k: int| 0 < k && is_last_dot(name, k) && b == name.take(k);
        lemma_last_dot_unique(name, i, k);
    }
}

/// The name without its ending.
pub fn stem_of(name: &Vec<char>) -> (r: Vec<char>)
    ensures
        is_stem(name@, r@),
{
    let n = name.len();
    let mut i: usize = n;
    while i > 1
        invariant
            n == name.len(),
            i <= n,
            forall|j: int| i <= j < n ==> name@[j] != '.',
        decreases i,
    {
        i -= 1;
        if name[i] == '.' {
            let stem = copy_range(name, 0, i);
            proof {
                assert(name@.subrange(0, i as int) =~= name@.take(i as int));
                assert(is_last_dot(name@, i as int));
            }
            return stem;
        }
    }
    let whole = copy_range(name, 0, n);
    proof {
        assert(name@.subrange(0, n as int) =~= name@);
    }
    whole
}

/// How well a file answers a query, in half points: twenty where the name
/// without its ending is the query, ten where the name begins with it, four
/// where the name holds it, two more for a document and one more for an
/// image. Names and query are compared as they stand.
pub open spec fn relevance(name: Seq<char>, stem: Seq<char>, query: Seq<char>, kind: DocumentType)
    -> nat {
    (if stem == query {
        20nat
    } else {
        0nat
    }) + (if occurs_at(name, query, 0) {
        10nat
    } else {
        0nat
    }) + (if contains(name, query) {
        4nat
    } else {
        0nat
    }) + (match kind {
        DocumentType::Document => 2nat,
        DocumentType::Image => 1nat,
        _ => 0nat,
    })
}

/// Scores a lowercased file name against a lowercased query, for a file of
/// the given kind.
pub fn score_name(name: &str, query: &str, kind: DocumentType) -> (r: u32)
    ensures
        forall|stem: Seq<char>| is_stem(name@, stem) ==> r == relevance(name@, stem, query@, kind),
        r <= 36,
{
    let n = to_chars(name);
    let q = to_chars(query);
    let stem = stem_of(&n);
    let mut score: u32 = 0;
    if from_chars(&stem) == from_chars(&q) {
        score += 20;
    }
    if q.len() <= n.len() && matches_at(&n, &q, 0) {
        score += 10;
    }
    if contains_chars(&n, &q) {
        score += 4;
    }
    match kind {
        DocumentType::Document => {
            score += 2;
        },
        DocumentType::Image => {
            score += 1;
        },
        _ => {},
    }
    proof {
        assert forall|other: Seq<char>| is_stem(name@, other) implies score == relevance(
            name@,
            other,
            query@,
            kind,
        ) by {
            lemma_stem_unique(name@, stem@, other);
        }
    }
    score
}

/// The ending of a file name as the kinds of files are told apart: the dot
/// and what follows it, in small letters; nothing for a name without an
/// ending.
pub fn ending_of(file_name: &str) -> (r: String)
    ensures
        no_extension(file_name@) ==> r@.len() == 0,
        forall|ext: Seq<char>|
            has_extension(file_name@, ext) ==> r@ == "."@ + lowercase(ext),
{
    let name = to_chars(file_name);
    match extension_of(&name) {
        None => {
            proof {
                assert forall|ext: Seq<char>| has_extension(file_name@, ext) implies false by {
                    let i = choose|i: int|
                        0 < i && is_last_dot(file_name@, i) && ext == file_name@.skip(i + 1);
                    assert(file_name@[i] == '.');
                }
            }
            String::new()
        },
        Some(ext) => {
            let lowered = to_lowercase(from_chars(&ext).as_str());
            let r = prefixed(".", lowered.as_str());
            proof {
                let k = choose|k: int|
                    0 < k && is_last_dot(file_name@, k) && ext@ == file_name@.skip(k + 1);
                assert(file_name@[k] == '.');
                assert forall|other: Seq<char>| has_extension(file_name@, other) implies other
                    == ext@ by {
                    let i = choose|i: int|
                        0 < i && is_last_dot(file_name@, i) && other == file_name@.skip(i + 1);
                    lemma_last_dot_unique(file_name@, i, k);
                }
            }
            r
        },
    }
}

/// Scores a file name against a query. Both are lowercased first; the kind
/// of file is read off the name's ending.
pub fn calculate_relevance_score(file_name: &str, query: &str) -> (r: u32)
    ensures
        r <= 36,
        forall|stem: Seq<char>, ext: Seq<char>|
            is_stem(lowercase(file_name@), stem) && has_extension(file_name@, ext) ==> r
                == relevance(
                lowercase(file_name@),
                stem,
                lowercase(query@),
                type_of_ending("."@ + lowercase(ext)),
            ),
        forall|stem: Seq<char>|
            is_stem(lowercase(file_name@), stem) && no_extension(file_name@) ==> r == relevance(
                lowercase(file_name@),
                stem,
                lowercase(query@),
                type_of_ending(Seq::empty()),
            ),
{
    let ending = ending_of(file_name);
    let kind = determine_file_type(ending.as_str());
    let name = to_lowercase(file_name);
    let q = to_lowercase(query);
    proof {
        if no_extension(file_name@) {
            assert(ending@ =~= Seq::<char>::empty());
        }
    }
    score_name(name.as_str(), q.as_str(), kind)
}

} // verus!
