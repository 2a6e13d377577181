//! The single-frame capture orchestrator: the decisions of one bounded
//! synchronous capture, as a small state machine over plain values.
//!
//! The capture engine itself (start, blocking frame wait, stop) lives
//! outside this crate; the caller drives it and feeds the outcome back as a
//! [`CaptureEvent`]. The machine guarantees that every path out of a running
//! session — frame, audio frame, timeout, engine failure — ends with the
//! engine handle released, and maps each event to the error the tool
//! reports.

use vstd::prelude::*;
use crate::codec::ContainerFormat;
use crate::codec::EncodeError;
use crate::codec::EncodedImage;
use crate::codec::encoding_of;
use crate::pixels::NormalizeError;
use crate::pixels::RawFrame;
use crate::pixels::bgra_to_rgb_spec;
use crate::pixels::bgra_well_sized;
use crate::pixels::normalize;
use crate::targets::CaptureTarget;

verus! {

/// Why a capture failed.
#[derive(Debug, PartialEq)]
pub enum CaptureError {
    /// This host has no capture capability; non-retryable.
    Unsupported,
    /// Screen-recording permission was not granted; the caller must prompt
    /// out-of-band and abort this run.
    PermissionDenied,
    /// The engine failed, with its own description.
    EngineStartFailure { details: String },
    /// No frame arrived within the configured bound.
    FrameTimeout,
    /// The engine handed back an audio frame instead of video.
    UnexpectedKind,
}

/// What the engine produced while the session was running.
pub enum CaptureEvent {
    /// A video frame arrived.
    Frame(RawFrame),
    /// An audio frame arrived instead of video.
    AudioFrame,
    /// The bounded wait elapsed with no frame.
    TimedOut,
    /// The engine reported an error, with its own description.
    EngineFailed { details: String },
}

/// The pixel encodings a capture request can ask of the engine.
#[derive(Clone, Copy, Debug, PartialEq, Eq, Structural)]
pub enum FrameVariant {
    Yuv,
    Bgr0,
    Rgb,
    Rgbx,
    Xbgr,
    Bgrx,
    Bgra,
}

/// The options one single-shot capture hands to the engine.
pub struct CaptureRequest {
    /// Frames per second to request; minimal for single-shot use, so the
    /// engine does not buffer frames before the first is consumed.
    pub fps: u32,
    /// Whether the engine should draw a highlight overlay.
    pub show_highlight: bool,
    /// The pixel encoding to request.
    pub output_variant: FrameVariant,
    /// Whether to cap the output resolution (window captures are capped,
    /// whole displays are taken at their native size).
    pub cap_resolution: bool,
    /// The resolved target to capture.
    pub target: CaptureTarget,
}

/// Build the options for one single-shot capture of the given target: the
/// minimal frame rate, no highlight overlay, the resolution cap for window
/// targets only, and the BGRA output encoding — the one encoding the
/// normalizer converts — so that other frame variants are unreachable in
/// the normal pipeline.
pub fn single_shot_request(target: CaptureTarget) -> (r: CaptureRequest)
    ensures
        r.fps == 1,
        !r.show_highlight,
        r.output_variant == FrameVariant::Bgra,
        r.cap_resolution == (target@.kind == crate::targets::TargetKind::Window),
        r.target == target,
{
    let cap_resolution = matches!(target.kind(), crate::targets::TargetKind::Window);
    CaptureRequest {
        fps: 1,
        show_highlight: false,
        output_variant: FrameVariant::Bgra,
        cap_resolution,
        target,
    }
}

/// Check the capability and permission predicates that gate every capture
/// and enumeration: unsupported hosts are rejected first, then missing
/// permission.
pub fn preflight(supported: bool, permitted: bool) -> (r: Result<(), CaptureError>)
    ensures
        r is Ok <==> supported && permitted,
        !supported ==> r == Err::<(), CaptureError>(CaptureError::Unsupported),
        supported && !permitted ==> r == Err::<(), CaptureError>(CaptureError::PermissionDenied),
{
    if !supported {
        Err(CaptureError::Unsupported)
    } else if !permitted {
        Err(CaptureError::PermissionDenied)
    } else {
        Ok(())
    }
}

/// Where one capture session stands.
#[derive(Clone, Copy, Debug, PartialEq, Eq, Structural)]
pub enum SessionPhase {
    /// No engine session has been started.
    Idle,
    /// The engine is running and owes us one frame.
    Running,
    /// The session is over and the engine handle has been released.
    Finished,
}

/// The result a session settles on for each engine event.
pub open spec fn event_outcome(event: CaptureEvent) -> Result<RawFrame, CaptureError> {
    match event {
        CaptureEvent::Frame(f) => Ok(f),
        CaptureEvent::AudioFrame => Err(CaptureError::UnexpectedKind),
        CaptureEvent::TimedOut => Err(CaptureError::FrameTimeout),
        CaptureEvent::EngineFailed { details } => Err(
            CaptureError::EngineStartFailure { details },
        ),
    }
}

/// One capture session. At most one is active at a time: the caller gives
/// it exclusive ownership of the engine handle for the duration of one
/// capture, and the contracts force the release before any result is
/// surfaced.
pub struct CaptureSession {
    pub phase: SessionPhase,
}

impl CaptureSession {
    /// Whether the engine handle has been released (never started counts
    /// as released).
    pub open spec fn engine_released(&self) -> bool {
        self.phase != SessionPhase::Running
    }

    /// A fresh session with no engine running.
    pub fn new() -> (s: Self)
        ensures
            s.phase == SessionPhase::Idle,
            s.engine_released(),
    {
        CaptureSession { phase: SessionPhase::Idle }
    }

    /// Record the outcome of building and starting the engine. On failure
    /// the session is over at once, with the engine's own description in
    /// the error.
    pub fn engine_built(&mut self, ok: bool, details: String) -> (r: Result<(), CaptureError>)
        requires
            old(self).phase == SessionPhase::Idle,
        ensures
            ok ==> final(self).phase == SessionPhase::Running && r is Ok,
            !ok ==> final(self).phase == SessionPhase::Finished && r == Err::<(), CaptureError>(
                CaptureError::EngineStartFailure { details },
            ),
    {
        if ok {
            self.phase = SessionPhase::Running;
            Ok(())
        } else {
            self.phase = SessionPhase::Finished;
            Err(CaptureError::EngineStartFailure { details })
        }
    }

    /// Settle the session on the engine's event.
    ///
    /// Every event ends the session — in particular, when no frame arrived
    /// within the bound, the engine handle is released all the same and the
    /// result is the timeout error, never a hang and never a leaked session.
    pub fn settle(&mut self, event: CaptureEvent) -> (r: Result<RawFrame, CaptureError>)
        requires
            old(self).phase == SessionPhase::Running,
        ensures
            final(self).phase == SessionPhase::Finished,
            final(self).engine_released(),
            r == event_outcome(event),
    {
        self.phase = SessionPhase::Finished;
        match event {
            CaptureEvent::Frame(f) => Ok(f),
            CaptureEvent::AudioFrame => Err(CaptureError::UnexpectedKind),
            CaptureEvent::TimedOut => Err(CaptureError::FrameTimeout),
            CaptureEvent::EngineFailed { details } => Err(
                CaptureError::EngineStartFailure { details },
            ),
        }
    }

    /// Probe whether the engine is still held by this session.
    pub fn is_engine_running(&self) -> (r: bool)
        ensures
            r == (self.phase == SessionPhase::Running),
    {
        matches!(self.phase, SessionPhase::Running)
    }
}

/// Why the normalize-then-encode pipeline failed.
#[derive(Debug, PartialEq, Eq, Structural)]
pub enum PipelineError {
    Normalize(NormalizeError),
    Encode(EncodeError),
}

/// The compute spine of one capture: normalize the raw frame into the
/// canonical RGB image and encode it into the chosen container. A
/// well-sized BGRA frame whose dimensions the container can represent
/// always yields the encoded image.
pub fn process_frame(frame: RawFrame, format: ContainerFormat) -> (r: Result<
    EncodedImage,
    PipelineError,
>)
    ensures
        match frame {
            RawFrame::Bgra { width, height, data, .. } => {
                if bgra_well_sized(width, height, data@) {
                    &&& (r is Ok <==> crate::codec::encodable(format, width, height))
                    &&& match r {
                        Ok(e) => e.format == format && e.bytes@ == encoding_of(
                            format,
                            width,
                            height,
                            bgra_to_rgb_spec(data@),
                        ),
                        Err(e) => e == PipelineError::Encode(EncodeError::EncoderFailure),
                    }
                } else {
                    r == Err::<EncodedImage, PipelineError>(
                        PipelineError::Normalize(NormalizeError::MalformedBuffer),
                    )
                }
            },
            _ => r == Err::<EncodedImage, PipelineError>(
                PipelineError::Normalize(NormalizeError::UnsupportedVariant),
            ),
        },
{
    match normalize(frame) {
        Ok(img) => match crate::codec::encode_image(&img, format) {
            Ok(e) => Ok(e),
            Err(e) => Err(PipelineError::Encode(e)),
        },
        Err(e) => Err(PipelineError::Normalize(e)),
    }
}

} // verus!
