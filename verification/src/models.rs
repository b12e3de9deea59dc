//! The shared data model of gestures, actions and the camera.

use vstd::prelude::*;
use crate::time::Timestamp;

verus! {

/// Whether a gesture is a single pose or a movement.
#[derive(Clone, Copy, Debug, PartialEq, Eq, Hash, Structural)]
pub enum GestureType {
    Static,
    Dynamic,
}

/// The kinds of action that a gesture can trigger.
#[derive(Clone, Copy, Debug, PartialEq, Eq, Hash, Structural)]
pub enum ActionType {
    OpenApp,
    ExecuteCommand,
    OpenUrl,
    ChangeVolume,
    MediaControl,
    LockWorkstation,
    SimulateKeyboard,
    SimulateMouse,
    HttpRequest,
    WebSocket,
    Mqtt,
    PowerShell,
    Bash,
    TauriEvent,
}

/// Which hand a detection shows.
#[derive(Clone, Copy, Debug, PartialEq, Eq, Structural)]
pub enum HandType {
    Left,
    Right,
}

/// The life cycle of the camera.
#[derive(Clone, Debug)]
pub enum CameraStatus {
    Idle,
    Starting,
    Running,
    Stopped,
    Error(String),
}

/// An action bound to a gesture.
#[derive(Debug)]
pub struct AssignedAction {
    pub action_id: u128,
    pub gesture_id: u128,
    pub action_type: ActionType,
    pub payload: String,
    pub enabled: bool,
}

impl Clone for AssignedAction {
    fn clone(&self) -> (r: Self)
        ensures
            r == *self,
    {
        AssignedAction {
            action_id: self.action_id,
            gesture_id: self.gesture_id,
            action_type: self.action_type,
            payload: self.payload.clone(),
            enabled: self.enabled,
        }
    }
}

/// The outcome of running an action.
#[derive(Debug)]
pub struct ExecutionResult {
    pub action_id: u128,
    pub success: bool,
    pub message: String,
    pub timestamp: Timestamp,
}

impl Clone for ExecutionResult {
    fn clone(&self) -> (r: Self)
        ensures
            r == *self,
    {
        ExecutionResult {
            action_id: self.action_id,
            success: self.success,
            message: self.message.clone(),
            timestamp: self.timestamp,
        }
    }
}

/// A stored gesture: its identity and type, and the recorded sample
/// sequences (of type `S`) that recognition compares against.
#[derive(Debug)]
pub struct GestureTemplate<S> {
    pub id: u128,
    pub name: String,
    pub gesture_type: GestureType,
    pub samples: Vec<S>,
    pub created_at: Timestamp,
}

} // verus!
