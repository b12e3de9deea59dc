use gesture_studio::actions::{
    action_info, find_action, new_action, triggered_actions, ActionEngine, ActionExecutor,
    ExecuteCommandExecutor, OpenAppExecutor, OpenUrlExecutor,
};
use gesture_studio::camera::{
    select_source_group,
    base64_encode, camera_list, capture_device_id, compress_to_jpeg, effective_fps, encode_frame,
    frame_interval_ms, frame_rgb, resolve_device, rgba_to_rgb, CameraControl, FpsCounter,
};
use gesture_studio::config::{default_camera_config, default_performance_config, default_storage_config};
use gesture_studio::error::AppError;
use gesture_studio::events::{vision_follow_up, EventKind, EventProcessor, ProcessorStep, VisionFollowUp};
use gesture_studio::gestures::{
    gesture_info, gesture_type_from_user, load_templates, new_template,
};
use std::collections::HashMap;
use gesture_studio::ids::NIL_ID;
use gesture_studio::landmarks::SmoothingHistory;
use gesture_studio::models::{ActionType, AssignedAction, CameraStatus, GestureTemplate, GestureType, HandType};
use gesture_studio::text::{text_contains, text_equals};
use gesture_studio::time::Timestamp;
use gesture_studio::trainer::{require_hand, SampleCollector};
use gesture_studio::vision::{handedness_from_lowercase, handedness_from_name};

fn action(id: u128, t: ActionType, payload: &str, enabled: bool) -> AssignedAction {
    AssignedAction { action_id: id, gesture_id: 9, action_type: t, payload: payload.to_string(), enabled }
}

fn is_random_v4(v: u128) -> bool {
    (v >> 76) & 0xf == 4 && (v >> 62) & 0x3 == 2
}

#[test]
fn builtin_executors_report_their_messages() {
    let r = OpenAppExecutor.execute("notepad").unwrap();
    assert!(r.success);
    assert_eq!(r.action_id, NIL_ID);
    assert_eq!(r.message, "Opening: notepad");
    assert_eq!(ExecuteCommandExecutor.execute("ls").unwrap().message, "Command executed: ls");
    assert_eq!(OpenUrlExecutor.execute("https://a.b").unwrap().message, "URL opened: https://a.b");
    assert_eq!(OpenAppExecutor.action_type(), ActionType::OpenApp);
    assert_eq!(OpenUrlExecutor.action_type(), ActionType::OpenUrl);
    assert_eq!(ExecuteCommandExecutor.action_type(), ActionType::ExecuteCommand);
}

#[test]
fn engine_runs_registered_types_and_refuses_others() {
    let engine = ActionEngine::new();
    let ok = engine.execute(&action(5, ActionType::OpenUrl, "https://x.y", true));
    assert!(ok.success);
    assert_eq!(ok.action_id, NIL_ID);
    assert_eq!(ok.message, "URL opened: https://x.y");
    let missing = engine.execute(&action(5, ActionType::ChangeVolume, "up", true));
    assert!(!missing.success);
    assert_eq!(missing.action_id, 5);
    assert_eq!(missing.message, "No executor for action type: ChangeVolume");
}

#[test]
fn find_action_takes_the_first_match() {
    let list = vec![
        action(1, ActionType::Bash, "a", true),
        action(2, ActionType::Mqtt, "b", true),
        action(2, ActionType::Bash, "c", false),
    ];
    let found = find_action(list.clone(), 2).unwrap();
    assert_eq!(found.payload, "b");
    match find_action(list, 3) {
        Err(AppError::Action(m)) => assert_eq!(m, "Action not found"),
        _ => panic!("expected an action error"),
    }
}

#[test]
fn triggered_actions_are_the_enabled_ones_in_order() {
    let list = vec![
        action(1, ActionType::Bash, "a", true),
        action(2, ActionType::Mqtt, "b", false),
        action(3, ActionType::OpenApp, "c", true),
    ];
    let t = triggered_actions(&list);
    assert_eq!(t.len(), 2);
    assert_eq!(t[0].action_id, 1);
    assert_eq!(t[1].action_id, 3);
    assert!(triggered_actions(&Vec::new()).is_empty());
}

#[test]
fn new_actions_are_enabled_with_fresh_ids() {
    let a = new_action(77, "PowerShell", "Get-Date".to_string());
    assert!(is_random_v4(a.action_id));
    assert_eq!(a.gesture_id, 77);
    assert_eq!(a.action_type, ActionType::PowerShell);
    assert!(a.enabled);
    let b = new_action(77, "nonsense", String::new());
    assert_eq!(b.action_type, ActionType::OpenApp);
    assert_ne!(a.action_id, b.action_id);
    let info = action_info(a);
    assert_eq!(info.action_type, "PowerShell");
    assert_eq!(info.payload, "Get-Date");
}

#[test]
fn error_messages_name_their_kind() {
    assert_eq!(AppError::Camera("x".into()).message(), "Camera error: x");
    assert_eq!(AppError::Vision("Model not loaded".into()).message(), "Vision engine error: Model not loaded");
    assert_eq!(AppError::Gesture("g".into()).message(), "Gesture recognition error: g");
    assert_eq!(AppError::Training("t".into()).message(), "Training error: t");
    assert_eq!(AppError::Action("Action not found".into()).message(), "Action execution error: Action not found");
    assert_eq!(AppError::Storage("s".into()).message(), "Storage error: s");
    assert_eq!(AppError::Config("c".into()).message(), "Configuration error: c");
    assert_eq!(AppError::Io("i".into()).message(), "IO error: i");
    assert_eq!(AppError::Serialization("j".into()).message(), "Serialization error: j");
    assert_eq!(AppError::Internal("Storage not initialized".into()).message(), "Internal error: Storage not initialized");
}

#[test]
fn event_categories_and_routes() {
    assert_eq!(EventKind::CameraStarted.category(), "camera");
    assert_eq!(EventKind::NewFrame.category(), "camera");
    assert_eq!(EventKind::HandsLost.category(), "detection");
    assert_eq!(EventKind::GestureRecognized.category(), "recognition");
    assert_eq!(EventKind::GestureTrainingSample.category(), "training");
    assert_eq!(EventKind::ActionFailed.category(), "action");
    assert_eq!(EventKind::Shutdown.category(), "system");
    assert_eq!(EventKind::CameraStarted.frontend_name(), Some("camera-started"));
    assert_eq!(EventKind::GestureTrainingComplete.frontend_name(), Some("training-complete"));
    assert_eq!(EventKind::Error.frontend_name(), Some("app-error"));
    assert_eq!(EventKind::NewFrame.frontend_name(), None);
    assert_eq!(EventKind::StorageUpdated.frontend_name(), None);
    assert_eq!(EventProcessor::route(EventKind::Shutdown), ProcessorStep::Stop);
    assert_eq!(EventProcessor::route(EventKind::NewFrame), ProcessorStep::DetectHands);
    assert_eq!(EventProcessor::route(EventKind::HandDetected), ProcessorStep::NormalizeLandmarks);
    assert_eq!(EventProcessor::route(EventKind::LandmarksNormalized), ProcessorStep::RecognizeGesture);
    assert_eq!(EventProcessor::route(EventKind::GestureRecognized), ProcessorStep::RunActions);
    assert_eq!(EventProcessor::route(EventKind::Error), ProcessorStep::LogError);
    assert_eq!(EventProcessor::route(EventKind::ConfigChanged), ProcessorStep::LogEvent);
}

#[test]
fn user_names_of_types_ignore_case() {
    assert_eq!(gesture_type_from_user("DYNAMIC"), GestureType::Dynamic);
    assert_eq!(gesture_type_from_user("Dynamic"), GestureType::Dynamic);
    assert_eq!(gesture_type_from_user("static"), GestureType::Static);
    assert_eq!(gesture_type_from_user("swipe"), GestureType::Static);
    assert_eq!(handedness_from_name("LEFT"), HandType::Left);
    assert_eq!(handedness_from_name("Right"), HandType::Right);
    assert_eq!(handedness_from_name("both"), HandType::Right);
    assert!(text_equals("abc", "abc"));
    assert!(!text_equals("abc", "abd"));
    assert!(!text_equals("abc", "ab"));
}

#[test]
fn templates_get_fresh_ids_and_listings() {
    let t: GestureTemplate<u8> = new_template("Fist".to_string(), GestureType::Static, vec![]);
    assert!(is_random_v4(t.id));
    assert_eq!(t.name, "Fist");
    let id = t.id;
    let info = gesture_info(t);
    assert_eq!(info.id, id);
    assert_eq!(info.gesture_type, "static");
    assert!(info.created_at.ends_with("+00:00"));
    let d: GestureTemplate<u8> = new_template("Swipe".to_string(), GestureType::Dynamic, vec![]);
    assert_eq!(gesture_info(d).gesture_type, "dynamic");
}

fn template(id: u128, name: &str) -> GestureTemplate<u8> {
    GestureTemplate {
        id,
        name: name.to_string(),
        gesture_type: GestureType::Static,
        samples: vec![],
        created_at: Timestamp::epoch(),
    }
}

#[test]
fn loading_templates_lets_later_ones_win() {
    let mut by_id = HashMap::new();
    load_templates(&mut by_id, vec![template(1, "one"), template(2, "two"), template(1, "uno")]);
    assert_eq!(by_id.len(), 2);
    assert_eq!(by_id[&1].name, "uno");
    assert_eq!(by_id[&2].name, "two");
    load_templates(&mut by_id, vec![template(3, "three")]);
    assert_eq!(by_id.len(), 3);
    assert_eq!(by_id[&1].name, "uno");
}

#[test]
fn smoothing_history_reads_back_what_it_recorded() {
    let mut h: SmoothingHistory<i32> = SmoothingHistory::new();
    assert!(h.previous(0).is_none());
    h.record(2, vec![1, 2, 3]);
    assert_eq!(h.previous(2), Some(&vec![1, 2, 3]));
    assert_eq!(h.previous(0), Some(&vec![]));
    assert!(h.previous(3).is_none());
    h.record(0, vec![9]);
    assert_eq!(h.previous(0), Some(&vec![9]));
    assert_eq!(h.previous(2), Some(&vec![1, 2, 3]));
}

#[test]
fn sample_collector_counts_and_restarts() {
    let mut c: SampleCollector<&str> = SampleCollector::new();
    assert_eq!(c.add("a"), 0);
    assert_eq!(c.add("b"), 1);
    assert_eq!(c.count(), 2);
    assert_eq!(c.samples(), &vec!["a", "b"]);
    c.start();
    assert_eq!(c.count(), 0);
    for (i, q) in ["c", "d", "e", "f"].into_iter().enumerate() {
        assert_eq!(c.add(q), i as u32);
    }
    assert_eq!(c.count(), 4);
    assert_eq!(c.samples(), &vec!["c", "d", "e", "f"]);
    assert_eq!(require_hand(Some(5)).unwrap(), 5);
    match require_hand::<u8>(None) {
        Err(AppError::Training(m)) => assert_eq!(m, "No hand detected \u{2014} show your hand to the camera"),
        _ => panic!("expected a training error"),
    }
}

#[test]
fn rgba_loses_alpha() {
    assert_eq!(rgba_to_rgb(&[1, 2, 3, 4, 5, 6, 7, 8]), vec![1, 2, 3, 5, 6, 7]);
    assert_eq!(rgba_to_rgb(&[1, 2, 3, 4, 5, 6]), vec![1, 2, 3]);
    assert!(rgba_to_rgb(&[]).is_empty());
    assert_eq!(frame_rgb(&vec![1, 2, 3, 4], 1, 1), vec![1, 2, 3]);
    assert_eq!(frame_rgb(&vec![1, 2, 3], 1, 1), vec![1, 2, 3]);
}

#[test]
fn pacing_and_device_choice() {
    assert_eq!(frame_interval_ms(30), 33);
    assert_eq!(frame_interval_ms(60), 16);
    assert_eq!(frame_interval_ms(0), 33);
    assert_eq!(frame_interval_ms(2000), 0);
    assert_eq!(effective_fps(0), 1);
    assert_eq!(effective_fps(30), 30);
    assert_eq!(resolve_device("default", Some("cam2".to_string())), "cam2");
    assert_eq!(resolve_device("", None), "default");
    assert_eq!(resolve_device("usb", Some("cam2".to_string())), "usb");
    let devices = vec![("id0".to_string(), "Front".to_string()), ("id1".to_string(), "Back".to_string())];
    assert_eq!(capture_device_id(&devices, "default"), "id0");
    assert_eq!(capture_device_id(&devices, "id1"), "id1");
    let listed = camera_list(devices);
    assert_eq!(listed.len(), 2);
    assert_eq!(listed[1].id, "id1");
    assert_eq!(listed[1].name, "Back");
    let fallback = camera_list(vec![]);
    assert_eq!(fallback.len(), 1);
    assert_eq!(fallback[0].id, "default");
    assert_eq!(fallback[0].name, "Default Camera");
}

#[test]
fn camera_control_refuses_a_second_start() {
    let mut c = CameraControl::new();
    assert!(!c.is_running());
    assert!(matches!(c.status(), CameraStatus::Idle));
    assert!(c.start().is_ok());
    assert!(c.is_running());
    assert!(matches!(c.status(), CameraStatus::Running));
    assert_eq!(c.start(), Err("Camera already running".to_string()));
    assert!(c.is_running());
    assert!(c.stop().is_ok());
    assert!(!c.is_running());
    assert!(matches!(c.status(), CameraStatus::Stopped));
    assert_eq!(c.stop(), Err("Camera not running".to_string()));
    assert!(matches!(c.status(), CameraStatus::Stopped));
    assert!(c.start().is_ok());
    let mut idle = CameraControl::new();
    assert_eq!(idle.stop(), Err("Camera not running".to_string()));
    assert!(matches!(idle.status(), CameraStatus::Idle));
}

#[test]
fn fps_counter_publishes_each_second() {
    let mut f = FpsCounter::new();
    assert_eq!(f.tick(false), None);
    assert_eq!(f.tick(false), None);
    assert_eq!(f.frames(), 2);
    assert_eq!(f.tick(true), Some(3));
    assert_eq!(f.frames(), 0);
}

#[test]
fn base64_uses_the_standard_padded_alphabet() {
    assert_eq!(base64_encode(b""), "");
    assert_eq!(base64_encode(b"f"), "Zg==");
    assert_eq!(base64_encode(b"fo"), "Zm8=");
    assert_eq!(base64_encode(b"foo"), "Zm9v");
    assert_eq!(base64_encode(b"foobar"), "Zm9vYmFy");
    assert_eq!(base64_encode(&[0xfb, 0xff, 0xbf]), "+/+/");
}

#[test]
fn frames_compress_to_jpeg() {
    let rgb = vec![200u8; 8 * 8 * 3];
    let jpeg = compress_to_jpeg(&rgb, 8, 8);
    assert_eq!(&jpeg[..2], &[0xff, 0xd8]);
    assert_ne!(jpeg, rgb);
    let short = compress_to_jpeg(&vec![1u8; 5], 4, 4);
    assert_eq!(&short[..2], &[0xff, 0xd8]);
    let empty = compress_to_jpeg(&vec![], 0, 4);
    assert!(empty.is_empty());
    assert_eq!(encode_frame(&vec![], 0, 4), Some(String::new()));
    let text = encode_frame(&rgb, 8, 8).unwrap();
    assert!(text.starts_with("/9j/"));
}

#[test]
fn default_configuration_parts() {
    let cam = default_camera_config();
    assert_eq!(cam.preferred_device, None);
    assert_eq!((cam.resolution.width, cam.resolution.height), (640, 480));
    assert_eq!(cam.fps, 30);
    let perf = default_performance_config();
    assert_eq!((perf.target_fps, perf.buffer_size), (60, 1024));
    assert_eq!(perf.log_level, "info");
    let st = default_storage_config(std::path::PathBuf::from("data/gesture_studio.db"));
    assert_eq!(st.max_samples_per_gesture, 50);
    assert_eq!(st.db_path, std::path::PathBuf::from("data/gesture_studio.db"));
}

#[test]
fn detection_outcomes_become_events() {
    match vision_follow_up(Ok(vec![1, 2])) {
        VisionFollowUp::Detected(d) => assert_eq!(d, vec![1, 2]),
        _ => panic!("expected detections"),
    }
    assert!(matches!(vision_follow_up::<u8>(Ok(vec![])), VisionFollowUp::HandsLost));
    match vision_follow_up::<u8>(Err(AppError::Vision("Model not loaded".into()))) {
        VisionFollowUp::Failed { message, source } => {
            assert_eq!(message, "Vision engine error: Model not loaded");
            assert_eq!(source, "vision");
        }
        _ => panic!("expected a failure"),
    }
}

#[test]
fn text_contains_finds_runs() {
    assert!(text_contains("USB Camera 2", "Camera"));
    assert!(text_contains("abc", ""));
    assert!(text_contains("abc", "abc"));
    assert!(!text_contains("abc", "abcd"));
    assert!(!text_contains("abc", "ac"));
    assert!(text_contains("cámara frontal", "ara f"));
}

#[test]
fn source_group_is_last_match_or_first_for_default() {
    let groups = vec![
        ("id-a".to_string(), "Front Camera".to_string()),
        ("id-b".to_string(), "USB Camera".to_string()),
        ("id-c".to_string(), "Virtual".to_string()),
    ];
    assert_eq!(select_source_group(&groups, "Camera"), Some(1));
    assert_eq!(select_source_group(&groups, "id-c"), Some(2));
    assert_eq!(select_source_group(&groups, "default"), Some(0));
    assert_eq!(select_source_group(&groups, "missing"), None);
    assert_eq!(select_source_group(&Vec::new(), "default"), None);
}

#[test]
fn lowercase_hand_names() {
    assert_eq!(handedness_from_lowercase("left"), HandType::Left);
    assert_eq!(handedness_from_lowercase("Left"), HandType::Right);
}

#[test]
fn parsed_instant_or_epoch() {
    assert_eq!(Timestamp::parsed_or_epoch(Some((59, 1_500_000_000))).nanos(), 1_500_000_000);
    assert_eq!(Timestamp::parsed_or_epoch(Some((59, 1_500_000_000))).secs(), 59);
    assert_eq!(Timestamp::parsed_or_epoch(None).secs(), 0);
}

#[test]
fn chrono_range_edges() {
    assert!(Timestamp::from_parts(8_210_266_876_799, 0).is_some());
    assert!(Timestamp::from_parts(8_210_266_876_800, 0).is_none());
    assert!(Timestamp::from_parts(-8_334_601_228_800, 0).is_some());
    assert!(Timestamp::from_parts(-8_334_601_228_801, 0).is_none());
    assert!(Timestamp::from_parts(59, 1_999_999_999).is_some());
    assert!(Timestamp::from_parts(58, 1_000_000_000).is_none());
    assert!(Timestamp::from_parts(59, 2_000_000_000).is_none());
    assert!(Timestamp::from_parts(-1, 1_500_000_000).is_some());
}
