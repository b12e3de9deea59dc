//! The parts of the application's configuration, and their default values.

use vstd::prelude::*;
use vstd::string::StringExecFns;
use std::path::PathBuf;

verus! {

/// A file system path (`std::path::PathBuf`), carried through as it is.
#[verifier::external_type_specification]
#[verifier::external_body]
pub struct ExPathBuf(PathBuf);

/// A frame size in pixels.
#[derive(Clone, Copy, Debug)]
pub struct Resolution {
    pub width: u32,
    pub height: u32,
}

/// Which camera to use and how it captures.
#[derive(Clone, Debug)]
pub struct CameraConfig {
    pub preferred_device: Option<String>,
    pub resolution: Resolution,
    pub fps: u32,
}

/// Where gestures are stored, and how many samples a gesture keeps.
#[derive(Debug)]
pub struct StorageConfig {
    pub db_path: PathBuf,
    pub max_samples_per_gesture: u32,
}

/// The processing budget and the log level.
#[derive(Clone, Debug)]
pub struct PerformanceConfig {
    pub target_fps: u32,
    pub buffer_size: usize,
    pub log_level: String,
}

/// The default camera settings: no preferred device, 640 by 480, 30 frames
/// per second.
pub fn default_camera_config() -> (r: CameraConfig)
    ensures
        r.preferred_device is None,
        r.resolution.width == 640,
        r.resolution.height == 480,
        r.fps == 30,
{
    CameraConfig { preferred_device: None, resolution: Resolution { width: 640, height: 480 }, fps: 30 }
}

/// The default storage settings for a database at `db_path`: at most 50
/// samples per gesture.
pub fn default_storage_config(db_path: PathBuf) -> (r: StorageConfig)
    ensures
        r.db_path == db_path,
        r.max_samples_per_gesture == 50,
{
    StorageConfig { db_path, max_samples_per_gesture: 50 }
}

/// The default performance settings: 60 frames per second, a buffer of
/// 1024, logging at `info`.
pub fn default_performance_config() -> (r: PerformanceConfig)
    ensures
        r.target_fps == 60,
        r.buffer_size == 1024,
        r.log_level@ == "info"@,
{
    PerformanceConfig { target_fps: 60, buffer_size: 1024, log_level: String::from_str("info") }
}

} // verus!
