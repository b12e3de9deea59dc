//! The kinds of application event, how they are grouped, which of them the
//! frontend hears about, and what the event processor does with each.

use vstd::prelude::*;
use vstd::string::StringExecFns;
use crate::error::{error_text, AppError};

verus! {

/// The kind of an application event (one per variant of the event enum).
#[derive(Clone, Copy, Debug, PartialEq, Eq, Structural)]
pub enum EventKind {
    CameraStarted,
    CameraStopped,
    CameraDisconnected,
    NewFrame,
    HandDetected,
    HandsLost,
    LandmarksNormalized,
    GestureRecognized,
    GestureTrainingStarted,
    GestureTrainingSample,
    GestureTrainingComplete,
    ActionTriggered,
    ActionExecuted,
    ActionFailed,
    ConfigChanged,
    StorageUpdated,
    Error,
    Shutdown,
}

/// The category of each kind of event.
pub open spec fn category_text(kind: EventKind) -> Seq<char> {
    match kind {
        EventKind::CameraStarted | EventKind::CameraStopped | EventKind::CameraDisconnected
        | EventKind::NewFrame => "camera"@,
        EventKind::HandDetected | EventKind::HandsLost | EventKind::LandmarksNormalized => "detection"@,
        EventKind::GestureRecognized => "recognition"@,
        EventKind::GestureTrainingStarted | EventKind::GestureTrainingSample
        | EventKind::GestureTrainingComplete => "training"@,
        EventKind::ActionTriggered | EventKind::ActionExecuted | EventKind::ActionFailed => "action"@,
        EventKind::ConfigChanged | EventKind::StorageUpdated | EventKind::Error
        | EventKind::Shutdown => "system"@,
    }
}

/// The name under which each kind of event reaches the frontend, for the
/// kinds that do.
pub open spec fn frontend_name_text(kind: EventKind) -> Option<Seq<char>> {
    match kind {
        EventKind::CameraStarted => Some("camera-started"@),
        EventKind::CameraStopped => Some("camera-stopped"@),
        EventKind::HandDetected => Some("hand-detected"@),
        EventKind::HandsLost => Some("hands-lost"@),
        EventKind::LandmarksNormalized => Some("landmarks-normalized"@),
        EventKind::GestureRecognized => Some("gesture-recognized"@),
        EventKind::GestureTrainingComplete => Some("training-complete"@),
        EventKind::ActionExecuted => Some("action-executed"@),
        EventKind::ActionFailed => Some("action-failed"@),
        EventKind::Error => Some("app-error"@),
        _ => None,
    }
}

impl EventKind {
    /// The category of this kind of event: camera, detection, recognition,
    /// training, action or system.
    pub fn category(&self) -> (r: &'static str)
        ensures
            r@ == category_text(*self),
    {
        match self {
            EventKind::CameraStarted => "camera",
            EventKind::CameraStopped => "camera",
            EventKind::CameraDisconnected => "camera",
            EventKind::NewFrame => "camera",
            EventKind::HandDetected => "detection",
            EventKind::HandsLost => "detection",
            EventKind::LandmarksNormalized => "detection",
            EventKind::GestureRecognized => "recognition",
            EventKind::GestureTrainingStarted => "training",
            EventKind::GestureTrainingSample => "training",
            EventKind::GestureTrainingComplete => "training",
            EventKind::ActionTriggered => "action",
            EventKind::ActionExecuted => "action",
            EventKind::ActionFailed => "action",
            EventKind::ConfigChanged => "system",
            EventKind::StorageUpdated => "system",
            EventKind::Error => "system",
            EventKind::Shutdown => "system",
        }
    }

    /// The frontend event name this kind is forwarded under, if any.
    pub fn frontend_name(&self) -> (r: Option<&'static str>)
        ensures
            match r {
                Some(s) => frontend_name_text(*self) == Some(s@),
                None => frontend_name_text(*self) is None,
            },
    {
        match self {
            EventKind::CameraStarted => Some("camera-started"),
            EventKind::CameraStopped => Some("camera-stopped"),
            EventKind::HandDetected => Some("hand-detected"),
            EventKind::HandsLost => Some("hands-lost"),
            EventKind::LandmarksNormalized => Some("landmarks-normalized"),
            EventKind::GestureRecognized => Some("gesture-recognized"),
            EventKind::GestureTrainingComplete => Some("training-complete"),
            EventKind::ActionExecuted => Some("action-executed"),
            EventKind::ActionFailed => Some("action-failed"),
            EventKind::Error => Some("app-error"),
            _ => None,
        }
    }
}

/// What the event processor does with an event after forwarding it.
#[derive(Clone, Copy, Debug, PartialEq, Eq, Structural)]
pub enum ProcessorStep {
    /// Stop consuming events.
    Stop,
    /// Log the error's message under its source.
    LogError,
    /// Run hand detection on the frame.
    DetectHands,
    /// Normalize the detection's landmarks.
    NormalizeLandmarks,
    /// Match the landmarks against the static gesture templates.
    RecognizeGesture,
    /// Trigger and run the enabled actions of the recognized gesture.
    RunActions,
    /// Log the event under its category.
    LogEvent,
}

/// The step the event processor takes for each kind of event.
pub open spec fn step_for(kind: EventKind) -> ProcessorStep {
    match kind {
        EventKind::Shutdown => ProcessorStep::Stop,
        EventKind::Error => ProcessorStep::LogError,
        EventKind::NewFrame => ProcessorStep::DetectHands,
        EventKind::HandDetected => ProcessorStep::NormalizeLandmarks,
        EventKind::LandmarksNormalized => ProcessorStep::RecognizeGesture,
        EventKind::GestureRecognized => ProcessorStep::RunActions,
        _ => ProcessorStep::LogEvent,
    }
}

/// The consumer of the application's event channel.
pub struct EventProcessor;

impl EventProcessor {
    /// The step taken for an event of this kind.
    pub fn route(kind: EventKind) -> (r: ProcessorStep)
        ensures
            r == step_for(kind),
    {
        match kind {
            EventKind::Shutdown => ProcessorStep::Stop,
            EventKind::Error => ProcessorStep::LogError,
            EventKind::NewFrame => ProcessorStep::DetectHands,
            EventKind::HandDetected => ProcessorStep::NormalizeLandmarks,
            EventKind::LandmarksNormalized => ProcessorStep::RecognizeGesture,
            EventKind::GestureRecognized => ProcessorStep::RunActions,
            _ => ProcessorStep::LogEvent,
        }
    }
}

/// The processor stops only on shutdown: every other kind of event leaves it
/// consuming events. The frames, detections, normalized landmarks and
/// recognized gestures move the pipeline one step on, errors are logged as
/// errors, and every other kind is only logged under its category.
pub proof fn lemma_stops_only_on_shutdown(kind: EventKind)
    ensures
        step_for(kind) == ProcessorStep::Stop <==> kind == EventKind::Shutdown,
        step_for(kind) == ProcessorStep::LogError <==> kind == EventKind::Error,
        step_for(kind) == ProcessorStep::DetectHands <==> kind == EventKind::NewFrame,
        step_for(kind) == ProcessorStep::NormalizeLandmarks <==> kind == EventKind::HandDetected,
        step_for(kind) == ProcessorStep::RecognizeGesture <==> kind == EventKind::LandmarksNormalized,
        step_for(kind) == ProcessorStep::RunActions <==> kind == EventKind::GestureRecognized,
        kind != EventKind::Shutdown && kind != EventKind::Error && kind != EventKind::NewFrame
            && kind != EventKind::HandDetected && kind != EventKind::LandmarksNormalized
            && kind != EventKind::GestureRecognized ==> step_for(kind) == ProcessorStep::LogEvent,
{
}

/// The kinds that reach the frontend: the camera starting and stopping,
/// every detection and recognition result, the end of a training, the
/// outcome of an action and errors; no other kind. Each is forwarded under
/// a name of its own (no two kinds share one), and a recognized gesture
/// under `gesture-recognized`.
pub proof fn lemma_forwarded_events(kind: EventKind, other: EventKind)
    ensures
        frontend_name_text(kind) is Some <==> (kind == EventKind::CameraStarted
            || kind == EventKind::CameraStopped || kind == EventKind::HandDetected
            || kind == EventKind::HandsLost || kind == EventKind::LandmarksNormalized
            || kind == EventKind::GestureRecognized || kind == EventKind::GestureTrainingComplete
            || kind == EventKind::ActionExecuted || kind == EventKind::ActionFailed
            || kind == EventKind::Error),
        category_text(kind) == "detection"@ || category_text(kind) == "recognition"@
            ==> frontend_name_text(kind) is Some,
        frontend_name_text(kind) is Some && frontend_name_text(kind) == frontend_name_text(other) ==> kind == other,
        frontend_name_text(EventKind::GestureRecognized) == Some("gesture-recognized"@),
{
    reveal_strlit("camera");
    reveal_strlit("detection");
    reveal_strlit("recognition");
    reveal_strlit("training");
    reveal_strlit("action");
    reveal_strlit("system");
    reveal_strlit("camera-started");
    reveal_strlit("camera-stopped");
    reveal_strlit("hand-detected");
    reveal_strlit("hands-lost");
    reveal_strlit("landmarks-normalized");
    reveal_strlit("gesture-recognized");
    reveal_strlit("training-complete");
    reveal_strlit("action-executed");
    reveal_strlit("action-failed");
    reveal_strlit("app-error");
    assert("camera"@.len() == 6 && "action"@.len() == 6 && "system"@.len() == 6);
    assert("training"@.len() == 8 && "detection"@.len() == 9 && "recognition"@.len() == 11);
    assert("camera-started"@.len() == 14 && "camera-stopped"@.len() == 14);
    assert("camera-started"@[9] != "camera-stopped"@[9]);
    assert("hand-detected"@.len() == 13 && "action-failed"@.len() == 13);
    assert("hand-detected"@[0] != "action-failed"@[0]);
    assert("hands-lost"@.len() == 10 && "landmarks-normalized"@.len() == 20);
    assert("gesture-recognized"@.len() == 18 && "training-complete"@.len() == 17);
    assert("action-executed"@.len() == 15 && "app-error"@.len() == 9);
}

/// What follows hand detection on a frame (detections of type `D`).
pub enum VisionFollowUp<D> {
    /// Each detection is announced, in order.
    Detected(Vec<D>),
    /// No hand is in the frame.
    HandsLost,
    /// Detection failed: an error event with this message and source.
    Failed { message: String, source: String },
}

/// The events that follow detection: the detections where there are some,
/// the loss of the hands where there are none, and an error from the
/// `vision` source with the error's message where detection failed.
pub fn vision_follow_up<D>(outcome: Result<Vec<D>, AppError>) -> (r: VisionFollowUp<D>)
    ensures
        match outcome {
            Ok(v) => if v@.len() > 0 {
                r matches VisionFollowUp::Detected(d) && d == v
            } else {
                r is HandsLost
            },
            Err(e) => r matches VisionFollowUp::Failed { message, source } && message@ == error_text(e)
                && source@ == "vision"@,
        },
{
    match outcome {
        Ok(v) => if v.len() > 0 {
            VisionFollowUp::Detected(v)
        } else {
            VisionFollowUp::HandsLost
        },
        Err(e) => VisionFollowUp::Failed { message: e.message(), source: String::from_str("vision") },
    }
}

} // verus!
