//! Gesture Studio core: the data model, codecs and decision logic behind the
//! hand-gesture recognition pipeline, with their contracts.

pub mod text;
pub mod ids;
pub mod time;
pub mod models;
pub mod error;
pub mod events;
pub mod storage;
pub mod actions;
pub mod gestures;
pub mod landmarks;
pub mod trainer;
pub mod camera;
pub mod config;
pub mod vision;
