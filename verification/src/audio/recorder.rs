//! Life cycle of the capture device: opened once, started and stopped around
//! a listening run, read one frame at a time in between.
//!
//! The device itself is driven by the caller. Each function here decides what
//! may be asked of the device in the current state and names that request;
//! the caller performs it and reports the device's reply to the matching
//! completion function, which moves the state on.

use vstd::prelude::*;
use vstd::string::*;
use crate::config::{RecorderType, DEFAULT_RECORDER_TYPE, FRAME_LENGTH};
use crate::error::{
    prefixed,
    recorder_init_failure,
    recording_failure,
    JarvisError,
    JarvisResult,
    RecorderError,
};

verus! {

/// State of the capture device.
#[derive(Clone, Copy, Debug)]
pub struct Recorder {
    /// The back-end, fixed by the first initialization.
    pub recorder_type: Option<RecorderType>,
    /// Samples per frame, fixed by the first initialization.
    pub frame_length: Option<u32>,
    /// Whether the device has been opened.
    pub initialized: bool,
    /// Whether the device is capturing.
    pub recording: bool,
}

/// A request to the capture device.
#[derive(Clone, Copy, Debug, PartialEq, Eq, Structural)]
pub enum RecorderCall {
    /// Nothing has to be done.
    Nothing,
    /// Open the microphone with this index for frames of this length.
    OpenMicrophone { index: i32, frame_length: u32 },
    /// Start capturing.
    Start { index: i32, frame_length: u32 },
    /// Read one frame; this blocks until the frame is full.
    ReadFrame,
    /// Stop capturing.
    Stop,
    /// List the input devices.
    ListDevices,
}

fn init_failed<T>(msg: &str) -> (r: JarvisResult<T>)
    ensures
        recorder_init_failure(r, msg@),
{
    Err(JarvisError::RecorderError(RecorderError::InitializationFailed(String::from_str(msg))))
}

fn init_failed_with<T>(prefix: &str, detail: &str) -> (r: JarvisResult<T>)
    ensures
        recorder_init_failure(r, prefix@ + detail@),
{
    Err(JarvisError::RecorderError(RecorderError::InitializationFailed(prefixed(prefix, detail))))
}

fn recording_failed<T>(msg: &str) -> (r: JarvisResult<T>)
    ensures
        recording_failure(r, msg@),
{
    Err(JarvisError::RecorderError(RecorderError::RecordingFailed(String::from_str(msg))))
}

fn recording_failed_with<T>(prefix: &str, detail: &str) -> (r: JarvisResult<T>)
    ensures
        recording_failure(r, prefix@ + detail@),
{
    Err(JarvisError::RecorderError(RecorderError::RecordingFailed(prefixed(prefix, detail))))
}

impl Recorder {
    /// A device that has never been opened.
    pub fn new() -> (r: Recorder)
        ensures
            r == (Recorder {
                recorder_type: None,
                frame_length: None,
                initialized: false,
                recording: false,
            }),
    {
        Recorder { recorder_type: None, frame_length: None, initialized: false, recording: false }
    }
}

/// The back-end that initialization selects.
pub fn get_preferred_recorder_type() -> (r: JarvisResult<RecorderType>)
    ensures
        r == Ok::<RecorderType, JarvisError>(DEFAULT_RECORDER_TYPE),
{
    Ok(DEFAULT_RECORDER_TYPE)
}

/// What `init` asks of the device; `None` where it fails.
pub open spec fn init_call(rec: Recorder, microphone: Option<i32>) -> Option<RecorderCall> {
    if rec.initialized {
        Some(RecorderCall::Nothing)
    } else if rec.recorder_type is Some || rec.frame_length is Some || microphone is None {
        None
    } else {
        Some(RecorderCall::OpenMicrophone { index: microphone->0, frame_length: FRAME_LENGTH })
    }
}

/// The state that `init` leaves behind.
pub open spec fn init_next(rec: Recorder) -> Recorder {
    if rec.initialized || rec.recorder_type is Some {
        rec
    } else if rec.frame_length is Some {
        Recorder { recorder_type: Some(DEFAULT_RECORDER_TYPE), ..rec }
    } else {
        Recorder {
            recorder_type: Some(DEFAULT_RECORDER_TYPE),
            frame_length: Some(FRAME_LENGTH),
            ..rec
        }
    }
}

/// Prepares the device for its one initialization.
///
/// An initialized device needs nothing more. Otherwise the back-end and the
/// frame length are fixed, which can happen only once, and the caller is
/// asked to open the configured microphone; `microphone` is `None` while the
/// settings have not been loaded.
pub fn init(rec: &mut Recorder, microphone: Option<i32>) -> (r: JarvisResult<RecorderCall>)
    ensures
        *final(rec) == init_next(*old(rec)),
        match init_call(*old(rec), microphone) {
            Some(call) => r == Ok::<RecorderCall, JarvisError>(call),
            None => r is Err,
        },
        !old(rec).initialized && old(rec).recorder_type is Some ==> recorder_init_failure(
            r,
            "RECORDER_TYPE already set"@,
        ),
        !old(rec).initialized && old(rec).recorder_type is None && old(rec).frame_length is Some
            ==> recorder_init_failure(r, "FRAME_LENGTH already set"@),
        !old(rec).initialized && old(rec).recorder_type is None && old(rec).frame_length is None
            && microphone is None ==> recorder_init_failure(r, "Database not initialized"@),
{
    if rec.initialized {
        return Ok(RecorderCall::Nothing);
    }
    if rec.recorder_type.is_some() {
        return init_failed("RECORDER_TYPE already set");
    }
    let recorder_type = match get_preferred_recorder_type() {
        Ok(t) => t,
        Err(e) => {
            return Err(e);
        },
    };
    rec.recorder_type = Some(recorder_type);
    match recorder_type {
        RecorderType::PvRecorder => init_pvrecorder(rec, microphone),
        RecorderType::PortAudio => init_failed("PortAudio recorder not yet implemented"),
        RecorderType::Cpal => init_failed("CPAL recorder not yet implemented"),
    }
}

/// Fixes the frame length and asks for the configured microphone to be
/// opened.
pub fn init_pvrecorder(rec: &mut Recorder, microphone: Option<i32>) -> (r: JarvisResult<
    RecorderCall,
>)
    ensures
        old(rec).frame_length is Some ==> *final(rec) == *old(rec) && recorder_init_failure(
            r,
            "FRAME_LENGTH already set"@,
        ),
        old(rec).frame_length is None ==> *final(rec) == (Recorder {
            frame_length: Some(FRAME_LENGTH),
            ..*old(rec)
        }),
        old(rec).frame_length is None && microphone is None ==> recorder_init_failure(
            r,
            "Database not initialized"@,
        ),
        old(rec).frame_length is None && microphone is Some ==> r == Ok::<
            RecorderCall,
            JarvisError,
        >(RecorderCall::OpenMicrophone { index: microphone->0, frame_length: FRAME_LENGTH }),
{
    if rec.frame_length.is_some() {
        return init_failed("FRAME_LENGTH already set");
    }
    rec.frame_length = Some(FRAME_LENGTH);
    let index = match get_selected_microphone_index(microphone) {
        Ok(i) => i,
        Err(e) => {
            return Err(e);
        },
    };
    Ok(RecorderCall::OpenMicrophone { index, frame_length: FRAME_LENGTH })
}

/// Takes the device's reply to `OpenMicrophone`: on success the device is
/// initialized, on failure the state stays as it is.
pub fn microphone_opened(rec: &mut Recorder, reply: Result<(), String>) -> (r: JarvisResult<()>)
    ensures
        match reply {
            Ok(_) => r is Ok && *final(rec) == (Recorder { initialized: true, ..*old(rec) }),
            Err(e) => *final(rec) == *old(rec) && recorder_init_failure(
                r,
                "PvRecorder error: "@ + e@,
            ),
        },
{
    match reply {
        Ok(_) => {
            rec.initialized = true;
            Ok(())
        },
        Err(e) => init_failed_with("PvRecorder error: ", e.as_str()),
    }
}

/// Fails unless the device has been initialized.
pub fn ensure_initialized(rec: &Recorder) -> (r: JarvisResult<()>)
    ensures
        rec.initialized ==> r is Ok,
        !rec.initialized ==> recorder_init_failure(
            r,
            "Recorder not initialized. Call init() first"@,
        ),
{
    if !rec.initialized {
        return init_failed("Recorder not initialized. Call init() first");
    }
    Ok(())
}

/// The device may be read: it is initialized, capturing, and of a back-end
/// that is read frame by frame.
pub open spec fn may_read(rec: Recorder) -> bool {
    rec.initialized && rec.recording && rec.recorder_type == Some(RecorderType::PvRecorder)
}

/// Decides whether a frame may be read now. Reading outside a capture run is
/// reported as an error.
pub fn read_microphone(rec: &Recorder) -> (r: JarvisResult<RecorderCall>)
    ensures
        may_read(*rec) <==> r is Ok,
        r is Ok ==> r == Ok::<RecorderCall, JarvisError>(RecorderCall::ReadFrame),
        !rec.initialized ==> recorder_init_failure(
            r,
            "Recorder not initialized. Call init() first"@,
        ),
        rec.initialized && !rec.recording ==> recording_failure(
            r,
            "Recording not started. Call start_recording() first"@,
        ),
        rec.initialized && rec.recording ==> match rec.recorder_type {
            None => recorder_init_failure(r, "Recorder type not set"@),
            Some(RecorderType::PvRecorder) => r is Ok,
            Some(RecorderType::PortAudio) => recorder_init_failure(
                r,
                "PortAudio not implemented"@,
            ),
            Some(RecorderType::Cpal) => recorder_init_failure(
                r,
                "CPAL should be used via callback assignment"@,
            ),
        },
{
    match ensure_initialized(rec) {
        Ok(_) => {},
        Err(e) => {
            return Err(e);
        },
    }
    if !rec.recording {
        return recording_failed("Recording not started. Call start_recording() first");
    }
    match rec.recorder_type {
        None => init_failed("Recorder type not set"),
        Some(RecorderType::PvRecorder) => Ok(RecorderCall::ReadFrame),
        Some(RecorderType::PortAudio) => init_failed("PortAudio not implemented"),
        Some(RecorderType::Cpal) => init_failed("CPAL should be used via callback assignment"),
    }
}

/// Takes the device's reply to `ReadFrame`.
pub fn frame_read(reply: Result<(), String>) -> (r: JarvisResult<()>)
    ensures
        match reply {
            Ok(_) => r is Ok,
            Err(e) => recording_failure(r, "PvRecorder read error: "@ + e@),
        },
{
    match reply {
        Ok(_) => Ok(()),
        Err(e) => recording_failed_with("PvRecorder read error: ", e.as_str()),
    }
}

/// What `start_recording` asks of the device; `None` where it fails.
pub open spec fn start_call(rec: Recorder, microphone: Option<i32>) -> Option<RecorderCall> {
    if !rec.initialized {
        None
    } else if rec.recording {
        Some(RecorderCall::Nothing)
    } else if rec.recorder_type != Some(RecorderType::PvRecorder) || microphone is None
        || rec.frame_length is None {
        None
    } else {
        Some(RecorderCall::Start { index: microphone->0, frame_length: rec.frame_length->0 })
    }
}

/// Decides how a capture run is started. A device that is already capturing
/// needs nothing more.
pub fn start_recording(rec: &Recorder, microphone: Option<i32>) -> (r: JarvisResult<RecorderCall>)
    ensures
        match start_call(*rec, microphone) {
            Some(call) => r == Ok::<RecorderCall, JarvisError>(call),
            None => r is Err,
        },
        !rec.initialized ==> recorder_init_failure(
            r,
            "Recorder not initialized. Call init() first"@,
        ),
        rec.initialized && !rec.recording ==> match rec.recorder_type {
            None => recorder_init_failure(r, "Recorder type not set"@),
            Some(RecorderType::PvRecorder) => (microphone is None ==> recorder_init_failure(
                r,
                "Database not initialized"@,
            )) && (microphone is Some && rec.frame_length is None ==> recorder_init_failure(
                r,
                "Frame length not set"@,
            )),
            Some(RecorderType::PortAudio) => microphone is Some && rec.frame_length is Some
                ==> recorder_init_failure(r, "PortAudio not implemented"@),
            Some(RecorderType::Cpal) => microphone is Some && rec.frame_length is Some
                ==> recorder_init_failure(r, "CPAL not implemented"@),
        },
{
    match ensure_initialized(rec) {
        Ok(_) => {},
        Err(e) => {
            return Err(e);
        },
    }
    if rec.recording {
        return Ok(RecorderCall::Nothing);
    }
    let recorder_type = match rec.recorder_type {
        Some(t) => t,
        None => {
            return init_failed("Recorder type not set");
        },
    };
    let index = match get_selected_microphone_index(microphone) {
        Ok(i) => i,
        Err(e) => {
            return Err(e);
        },
    };
    let frame_length = match get_frame_length(rec) {
        Ok(n) => n,
        Err(e) => {
            return Err(e);
        },
    };
    match recorder_type {
        RecorderType::PvRecorder => Ok(RecorderCall::Start { index, frame_length }),
        RecorderType::PortAudio => init_failed("PortAudio not implemented"),
        RecorderType::Cpal => init_failed("CPAL not implemented"),
    }
}

/// Takes the device's reply to `Start`: on success the device is capturing.
pub fn recording_started(rec: &mut Recorder, reply: Result<(), String>) -> (r: JarvisResult<()>)
    ensures
        match reply {
            Ok(_) => r is Ok && *final(rec) == (Recorder { recording: true, ..*old(rec) }),
            Err(e) => *final(rec) == *old(rec) && recording_failure(
                r,
                "Failed to start PvRecorder: "@ + e@,
            ),
        },
{
    match reply {
        Ok(_) => {
            rec.recording = true;
            Ok(())
        },
        Err(e) => recording_failed_with("Failed to start PvRecorder: ", e.as_str()),
    }
}

/// What `stop_recording` asks of the device; `None` where it fails.
pub open spec fn stop_call(rec: Recorder) -> Option<RecorderCall> {
    if !rec.initialized {
        None
    } else if !rec.recording {
        Some(RecorderCall::Nothing)
    } else if rec.recorder_type != Some(RecorderType::PvRecorder) {
        None
    } else {
        Some(RecorderCall::Stop)
    }
}

/// Decides how a capture run is stopped. A device that is not capturing
/// needs nothing more.
pub fn stop_recording(rec: &Recorder) -> (r: JarvisResult<RecorderCall>)
    ensures
        match stop_call(*rec) {
            Some(call) => r == Ok::<RecorderCall, JarvisError>(call),
            None => r is Err,
        },
        !rec.initialized ==> recorder_init_failure(
            r,
            "Recorder not initialized. Call init() first"@,
        ),
        rec.initialized && rec.recording ==> match rec.recorder_type {
            None => recorder_init_failure(r, "Recorder type not set"@),
            Some(RecorderType::PvRecorder) => r is Ok,
            Some(RecorderType::PortAudio) => recorder_init_failure(
                r,
                "PortAudio not implemented"@,
            ),
            Some(RecorderType::Cpal) => recorder_init_failure(r, "CPAL not implemented"@),
        },
{
    match ensure_initialized(rec) {
        Ok(_) => {},
        Err(e) => {
            return Err(e);
        },
    }
    if !rec.recording {
        return Ok(RecorderCall::Nothing);
    }
    match rec.recorder_type {
        None => init_failed("Recorder type not set"),
        Some(RecorderType::PvRecorder) => Ok(RecorderCall::Stop),
        Some(RecorderType::PortAudio) => init_failed("PortAudio not implemented"),
        Some(RecorderType::Cpal) => init_failed("CPAL not implemented"),
    }
}

/// Takes the device's reply to `Stop`: on success the device is idle again.
pub fn recording_stopped(rec: &mut Recorder, reply: Result<(), String>) -> (r: JarvisResult<()>)
    ensures
        match reply {
            Ok(_) => r is Ok && *final(rec) == (Recorder { recording: false, ..*old(rec) }),
            Err(e) => *final(rec) == *old(rec) && recording_failure(
                r,
                "Failed to stop PvRecorder: "@ + e@,
            ),
        },
{
    match reply {
        Ok(_) => {
            rec.recording = false;
            Ok(())
        },
        Err(e) => recording_failed_with("Failed to stop PvRecorder: ", e.as_str()),
    }
}

/// The configured microphone; `microphone` is `None` while the settings have
/// not been loaded.
pub fn get_selected_microphone_index(microphone: Option<i32>) -> (r: JarvisResult<i32>)
    ensures
        match microphone {
            Some(i) => r == Ok::<i32, JarvisError>(i),
            None => recorder_init_failure(r, "Database not initialized"@),
        },
{
    match microphone {
        Some(i) => Ok(i),
        None => init_failed("Database not initialized"),
    }
}

/// Samples per frame, once initialization has fixed them.
pub fn get_frame_length(rec: &Recorder) -> (r: JarvisResult<u32>)
    ensures
        match rec.frame_length {
            Some(n) => r == Ok::<u32, JarvisError>(n),
            None => recorder_init_failure(r, "Frame length not set"@),
        },
{
    match rec.frame_length {
        Some(n) => Ok(n),
        None => init_failed("Frame length not set"),
    }
}

/// Whether the device is capturing.
pub fn is_recording(rec: &Recorder) -> (r: bool)
    ensures
        r == rec.recording,
{
    rec.recording
}

/// Whether the device has been opened.
pub fn is_initialized(rec: &Recorder) -> (r: bool)
    ensures
        r == rec.initialized,
{
    rec.initialized
}

/// Decides whether the input devices can be listed.
pub fn get_available_devices(rec: &Recorder) -> (r: JarvisResult<RecorderCall>)
    ensures
        r is Ok <==> rec.initialized && rec.recorder_type == Some(RecorderType::PvRecorder),
        r is Ok ==> r == Ok::<RecorderCall, JarvisError>(RecorderCall::ListDevices),
        !rec.initialized ==> recorder_init_failure(
            r,
            "Recorder not initialized. Call init() first"@,
        ),
        rec.initialized && rec.recorder_type is None ==> recorder_init_failure(
            r,
            "Recorder type not set"@,
        ),
        rec.initialized && rec.recorder_type is Some && rec.recorder_type != Some(
            RecorderType::PvRecorder,
        ) ==> recorder_init_failure(
            r,
            "Audio device enumeration not implemented for this recorder type"@,
        ),
{
    match ensure_initialized(rec) {
        Ok(_) => {},
        Err(e) => {
            return Err(e);
        },
    }
    match rec.recorder_type {
        None => init_failed("Recorder type not set"),
        Some(RecorderType::PvRecorder) => Ok(RecorderCall::ListDevices),
        Some(_) => init_failed("Audio device enumeration not implemented for this recorder type"),
    }
}

/// Takes the device's reply to `ListDevices`.
pub fn devices_listed(reply: Result<Vec<(i32, String)>, String>) -> (r: JarvisResult<
    Vec<(i32, String)>,
>)
    ensures
        match reply {
            Ok(devices) => r == Ok::<Vec<(i32, String)>, JarvisError>(devices),
            Err(e) => recorder_init_failure(r, "Failed to get audio devices: "@ + e@),
        },
{
    match reply {
        Ok(devices) => Ok(devices),
        Err(e) => init_failed_with("Failed to get audio devices: ", e.as_str()),
    }
}

/// Whether a device with this index is among the listed ones.
pub fn validate_microphone_index(devices: &Vec<(i32, String)>, index: i32) -> (r: bool)
    ensures
        r <==> exists|i: int| 0 <= i < devices@.len() && (#[trigger] devices@[i]).0 == index,
{
    let mut i: usize = 0;
    while i < devices.len()
        invariant
            i <= devices.len(),
            forall|j: int| 0 <= j < i ==> (#[trigger] devices@[j]).0 != index,
        decreases devices.len() - i,
    {
        if devices[i].0 == index {
            return true;
        }
        i += 1;
    }
    false
}

/// What `shutdown` asks of the device; `None` where it fails.
pub open spec fn shutdown_call(rec: Recorder) -> Option<RecorderCall> {
    if rec.recording {
        stop_call(rec)
    } else {
        Some(RecorderCall::Nothing)
    }
}

/// Winds the device down. While it is capturing the caller is asked to stop
/// it first and to call again; once it is idle it is marked as not
/// initialized and nothing more is asked.
pub fn shutdown(rec: &mut Recorder) -> (r: JarvisResult<RecorderCall>)
    ensures
        match shutdown_call(*old(rec)) {
            Some(call) => r == Ok::<RecorderCall, JarvisError>(call),
            None => r is Err,
        },
        old(rec).recording ==> *final(rec) == *old(rec),
        !old(rec).recording ==> *final(rec) == (Recorder { initialized: false, ..*old(rec) }),
{
    if rec.recording {
        return stop_recording(rec);
    }
    if rec.initialized {
        rec.initialized = false;
    }
    Ok(RecorderCall::Nothing)
}

/// A second initialization after a successful one asks nothing of the device
/// and leaves the state as it is: the device is opened once.
pub proof fn lemma_init_is_idempotent(
    rec: Recorder,
    microphone: Option<i32>,
    again: Option<i32>,
)
    requires
        init_call(rec, microphone) is Some,
    ensures
        ({
            let opened = Recorder { initialized: true, ..init_next(rec) };
            let first = init_call(rec, microphone)->0;
            let ready = if first == RecorderCall::Nothing {
                init_next(rec)
            } else {
                opened
            };
            ready.initialized && init_call(ready, again) == Some(RecorderCall::Nothing)
                && init_next(ready) == ready
        }),
{
}

/// The frame buffer that capture, detection and recognition share: a fixed
/// number of samples, filled anew by each read and never resized.
#[derive(Debug)]
pub struct AudioFrame {
    samples: Vec<i16>,
}

impl AudioFrame {
    /// The samples of the frame, in order.
    pub closed spec fn view(&self) -> Seq<i16> {
        self.samples@
    }

    /// A silent frame of `frame_length` samples.
    pub fn new(frame_length: u32) -> (r: AudioFrame)
        ensures
            r.view().len() == frame_length,
            forall|i: int| 0 <= i < r.view().len() ==> r.view()[i] == 0,
    {
        let mut samples: Vec<i16> = Vec::new();
        let mut i: u32 = 0;
        while i < frame_length
            invariant
                i <= frame_length,
                samples@.len() == i,
                forall|k: int| 0 <= k < samples@.len() ==> samples@[k] == 0,
            decreases frame_length - i,
        {
            samples.push(0);
            i += 1;
        }
        AudioFrame { samples }
    }

    /// Number of samples in the frame.
    pub fn len(&self) -> (n: usize)
        ensures
            n == self.view().len(),
    {
        self.samples.len()
    }

    /// The samples of the frame.
    pub fn samples(&self) -> (r: &Vec<i16>)
        ensures
            r@ == self.view(),
    {
        &self.samples
    }

    /// Takes the samples of one read. A read fills the frame exactly: data of
    /// another length is refused and the frame keeps what it held.
    pub fn fill(&mut self, data: &Vec<i16>) -> (r: JarvisResult<()>)
        ensures
            data@.len() == old(self).view().len() ==> r is Ok && final(self).view() == data@,
            data@.len() != old(self).view().len() ==> final(self).view() == old(self).view()
                && recording_failure(r, "Frame of wrong length"@),
    {
        let n = self.samples.len();
        if data.len() != n {
            return recording_failed("Frame of wrong length");
        }
        let mut i: usize = 0;
        while i < n
            invariant
                i <= n,
                n == data@.len(),
                self.samples@.len() == n,
                forall|k: int| 0 <= k < i ==> self.samples@[k] == data@[k],
            decreases n - i,
        {
            self.samples[i] = data[i];
            i += 1;
        }
        proof {
            assert(self.samples@ =~= data@);
        }
        Ok(())
    }
}

} // verus!
