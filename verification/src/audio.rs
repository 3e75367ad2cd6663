//! Audio: the capture device, the device monitor and feedback playback.
//!
//! Playback goes through one back-end, chosen at the first initialization.
//! The functions here decide what is asked of the back-end; the caller asks
//! it.

pub mod recorder;
pub mod audio_monitor;

use vstd::prelude::*;
use vstd::string::*;
use crate::config::{string_views, AudioType, DEFAULT_AUDIO_TYPE};
use crate::error::{
    audio_file_not_found,
    audio_init_failure,
    prefixed,
    AudioError,
    JarvisError,
    JarvisResult,
};
use crate::text::{copy_range, from_chars, lowercase, same_text, to_chars, to_lowercase};

verus! {

/// State of the playback system.
#[derive(Clone, Copy, Debug)]
pub struct AudioSystem {
    /// The back-end, fixed by the first initialization.
    pub audio_type: Option<AudioType>,
}

/// A request to the playback back-end.
#[derive(Clone, Copy, Debug, PartialEq, Eq, Structural)]
pub enum PlaybackCall {
    /// Nothing has to be done.
    Nothing,
    /// Set the back-end up.
    InitBackend(AudioType),
    /// Play the file; `blocking` says whether to wait for its end.
    Play { backend: AudioType, blocking: bool },
    /// Stop what is playing.
    Stop(AudioType),
    /// Stop what is playing, then release the back-end.
    Shutdown(AudioType),
}

fn audio_failed<T>(msg: &str) -> (r: JarvisResult<T>)
    ensures
        audio_init_failure(r, msg@),
{
    Err(JarvisError::AudioError(AudioError::InitializationFailed(String::from_str(msg))))
}

impl AudioSystem {
    /// A playback system without a back-end.
    pub fn new() -> (r: AudioSystem)
        ensures
            r.audio_type is None,
    {
        AudioSystem { audio_type: None }
    }
}

/// Fixes the back-end and asks for it to be set up. A system that has its
/// back-end needs nothing more.
pub fn init(sys: &mut AudioSystem) -> (r: JarvisResult<PlaybackCall>)
    ensures
        old(sys).audio_type is Some ==> *final(sys) == *old(sys) && r == Ok::<
            PlaybackCall,
            JarvisError,
        >(PlaybackCall::Nothing),
        old(sys).audio_type is None ==> final(sys).audio_type == Some(DEFAULT_AUDIO_TYPE) && r
            == Ok::<PlaybackCall, JarvisError>(PlaybackCall::InitBackend(DEFAULT_AUDIO_TYPE)),
{
    if sys.audio_type.is_some() {
        return Ok(PlaybackCall::Nothing);
    }
    sys.audio_type = Some(DEFAULT_AUDIO_TYPE);
    Ok(PlaybackCall::InitBackend(DEFAULT_AUDIO_TYPE))
}

/// Takes the back-end's reply to `InitBackend`.
pub fn backend_initialized(backend: AudioType, reply: Result<(), ()>) -> (r: JarvisResult<()>)
    ensures
        reply is Ok ==> r is Ok,
        reply is Err ==> audio_init_failure(
            r,
            match backend {
                AudioType::Rodio => "Failed to initialize Rodio audio backend"@,
                AudioType::Kira => "Failed to initialize Kira audio backend"@,
            },
        ),
{
    match reply {
        Ok(_) => Ok(()),
        Err(_) => match backend {
            AudioType::Rodio => audio_failed("Failed to initialize Rodio audio backend"),
            AudioType::Kira => audio_failed("Failed to initialize Kira audio backend"),
        },
    }
}

/// Whether the playback system has its back-end.
pub fn is_initialized(sys: &AudioSystem) -> (r: bool)
    ensures
        r == sys.audio_type is Some,
{
    sys.audio_type.is_some()
}

/// Decides how a sound file is played; `exists` says whether the file is
/// there. The Rodio back-end waits for the end of the sound, the Kira
/// back-end does not.
pub fn play_sound(sys: &AudioSystem, filename: &str, exists: bool) -> (r: JarvisResult<
    PlaybackCall,
>)
    ensures
        match sys.audio_type {
            None => audio_init_failure(r, "Audio system not initialized"@),
            Some(backend) => if exists {
                r == Ok::<PlaybackCall, JarvisError>(
                    PlaybackCall::Play { backend, blocking: backend == AudioType::Rodio },
                )
            } else {
                audio_file_not_found(r, filename@)
            },
        },
{
    let backend = match sys.audio_type {
        Some(b) => b,
        None => {
            return audio_failed("Audio system not initialized");
        },
    };
    if !exists {
        return Err(JarvisError::AudioError(AudioError::FileNotFound(String::from_str(filename))));
    }
    match backend {
        AudioType::Rodio => Ok(PlaybackCall::Play { backend, blocking: true }),
        AudioType::Kira => Ok(PlaybackCall::Play { backend, blocking: false }),
    }
}

/// Decides how playback is stopped.
pub fn stop_playback(sys: &AudioSystem) -> (r: JarvisResult<PlaybackCall>)
    ensures
        match sys.audio_type {
            None => audio_init_failure(r, "Audio system not initialized"@),
            Some(backend) => r == Ok::<PlaybackCall, JarvisError>(PlaybackCall::Stop(backend)),
        },
{
    match sys.audio_type {
        Some(backend) => Ok(PlaybackCall::Stop(backend)),
        None => audio_failed("Audio system not initialized"),
    }
}

/// Decides how the playback system is wound down: with a back-end, playback
/// is stopped and the back-end released; without one nothing is done.
pub fn shutdown(sys: &AudioSystem) -> (r: JarvisResult<PlaybackCall>)
    ensures
        r == Ok::<PlaybackCall, JarvisError>(
            match sys.audio_type {
                Some(backend) => PlaybackCall::Shutdown(backend),
                None => PlaybackCall::Nothing,
            },
        ),
{
    match sys.audio_type {
        Some(backend) => Ok(PlaybackCall::Shutdown(backend)),
        None => Ok(PlaybackCall::Nothing),
    }
}

/// Picks the directory of the sounds: the one among the resources where it
/// is there, else the fallback. Each candidate comes with whether it exists;
/// `None` stands for a directory that could not be determined.
pub fn get_sound_directory(resource: Option<(&str, bool)>, fallback: Option<(&str, bool)>) -> (r:
    JarvisResult<String>)
    ensures
        match (resource, fallback) {
            (Some((dir, true)), _) => r matches Ok(d) && d@ == dir@,
            (_, None) => audio_init_failure(r, "Sound directory not initialized"@),
            (_, Some((dir, true))) => r matches Ok(d) && d@ == dir@,
            (_, Some((dir, false))) => audio_file_not_found(
                r,
                "Sound directory not found: "@ + dir@,
            ),
        },
{
    match resource {
        Some((dir, exists)) => {
            if exists {
                return Ok(String::from_str(dir));
            }
        },
        None => {},
    }
    match fallback {
        None => audio_failed("Sound directory not initialized"),
        Some((dir, exists)) => {
            if exists {
                Ok(String::from_str(dir))
            } else {
                Err(
                    JarvisError::AudioError(
                        AudioError::FileNotFound(prefixed("Sound directory not found: ", dir)),
                    ),
                )
            }
        },
    }
}

/// The audio formats that can be played, by file ending.
pub open spec fn supported_formats() -> Seq<Seq<char>> {
    seq!["wav"@, "mp3"@, "ogg"@, "flac"@, "m4a"@]
}

/// The audio formats that can be played, by file ending.
pub fn get_supported_formats() -> (r: Vec<String>)
    ensures
        string_views(r@) == supported_formats(),
{
    let mut v: Vec<String> = Vec::new();
    v.push(String::from_str("wav"));
    v.push(String::from_str("mp3"));
    v.push(String::from_str("ogg"));
    v.push(String::from_str("flac"));
    v.push(String::from_str("m4a"));
    proof {
        assert(string_views(v@) =~= supported_formats());
    }
    v
}

/// Position `i` holds the last dot of the name.
pub open spec fn is_last_dot(name: Seq<char>, i: int) -> bool {
    &&& 0 <= i < name.len()
    &&& name[i] == '.'
    &&& forall|j: int| i < j < name.len() ==> name[j] != '.'
}

/// The ending of a file name: what follows its last dot, unless the name has
/// no dot or only the one it begins with.
pub open spec fn has_extension(name: Seq<char>, ext: Seq<char>) -> bool {
    exists|i: int| 0 < i && is_last_dot(name, i) && ext == name.skip(i + 1)
}

/// The name has no ending.
pub open spec fn no_extension(name: Seq<char>) -> bool {
    forall|i: int| 0 < i < name.len() ==> name[i] != '.'
}

/// The ending of a file name.
pub fn extension_of(name: &Vec<char>) -> (r: Option<Vec<char>>)
    ensures
        match r {
            Some(ext) => has_extension(name@, ext@),
            None => no_extension(name@),
        },
{
    let n = name.len();
    let mut i: usize = n;
    while i > 1
        invariant
            n == name.len(),
            i <= n,
            forall|j: int| i <= j < n ==> name@[j] != '.',
        decreases i,
    {
        i -= 1;
        if name[i] == '.' {
            let ext = copy_range(name, i + 1, n);
            proof {
                assert(name@.subrange(i + 1, n as int) =~= name@.skip(i + 1));
                assert(is_last_dot(name@, i as int));
            }
            return Some(ext);
        }
    }
    None
}

/// Whether a lowercased file ending names a format that can be played.
pub fn format_supported(ext: &str) -> (r: bool)
    ensures
        r == (ext@ == "wav"@ || ext@ == "mp3"@ || ext@ == "ogg"@ || ext@ == "flac"@ || ext@
            == "m4a"@),
{
    same_text(ext, "wav") || same_text(ext, "mp3") || same_text(ext, "ogg") || same_text(
        ext,
        "flac",
    ) || same_text(ext, "m4a")
}

/// Whether a file can be played: it is there, and its name ends in one of
/// the supported formats, in any case of letters. `file_name` is the last
/// part of the file's path.
pub fn can_play_file(file_name: &str, exists: bool) -> (r: bool)
    ensures
        !exists ==> !r,
        exists && no_extension(file_name@) ==> !r,
        forall|ext: Seq<char>| exists && has_extension(file_name@, ext) ==> r == ({
            let e = lowercase(ext);
            e == "wav"@ || e == "mp3"@ || e == "ogg"@ || e == "flac"@ || e == "m4a"@
        }),
{
    if !exists {
        return false;
    }
    let name = to_chars(file_name);
    match extension_of(&name) {
        None => {
            proof {
                assert forall|ext: Seq<char>| has_extension(file_name@, ext) implies false by {
                    let i = choose|i: int|
                        0 < i && is_last_dot(file_name@, i) && ext == file_name@.skip(i + 1);
                    assert(file_name@[i] == '.');
                }
            }
            false
        },
        Some(ext) => {
            let ending = from_chars(&ext);
            let lowered = to_lowercase(ending.as_str());
            let r = format_supported(lowered.as_str());
            proof {
                assert forall|other: Seq<char>| has_extension(file_name@, other) implies other
                    == ext@ by {
                    let i = choose|i: int|
                        0 < i && is_last_dot(file_name@, i) && other == file_name@.skip(i + 1);
                    let k = choose|k: int|
                        0 < k && is_last_dot(file_name@, k) && ext@ == file_name@.skip(k + 1);
                    if i < k {
                        assert(file_name@[k] != '.');
                    } else if k < i {
                        assert(file_name@[i] != '.');
                    }
                }
                let i = choose|i: int|
                    0 < i && is_last_dot(file_name@, i) && ext@ == file_name@.skip(i + 1);
                assert(file_name@[i] == '.');
            }
            r
        },
    }
}

} // verus!
