use gesture_studio::ids::{id_to_string, parse_id, parse_id_or_nil, NIL_ID};
use gesture_studio::models::{ActionType, AssignedAction, GestureTemplate, GestureType};
use gesture_studio::storage::{
    action_from_row, action_to_row, action_type_from_name, action_type_name, connection,
    enabled_flag, enabled_from_flag, gesture_to_row, gesture_type_code, gesture_type_from_code,
    group_sample_rows, sample_frame_index, template_from_row, ActionRow, GestureRow,
};
use gesture_studio::error::AppError;
use gesture_studio::time::Timestamp;

const ALL_ACTION_TYPES: [ActionType; 14] = [
    ActionType::OpenApp,
    ActionType::ExecuteCommand,
    ActionType::OpenUrl,
    ActionType::ChangeVolume,
    ActionType::MediaControl,
    ActionType::LockWorkstation,
    ActionType::SimulateKeyboard,
    ActionType::SimulateMouse,
    ActionType::HttpRequest,
    ActionType::WebSocket,
    ActionType::Mqtt,
    ActionType::PowerShell,
    ActionType::Bash,
    ActionType::TauriEvent,
];

#[test]
fn id_text_is_lowercase_hyphenated() {
    let v: u128 = 0xa1a2a3a4b1b2c1c2d1d2d3d4d5d6d7d8;
    assert_eq!(id_to_string(v), "a1a2a3a4-b1b2-c1c2-d1d2-d3d4d5d6d7d8");
    assert_eq!(id_to_string(NIL_ID), "00000000-0000-0000-0000-000000000000");
}

#[test]
fn id_parse_accepts_uuid_forms() {
    let v: u128 = 0x550e8400e29b41d4a716446655440000;
    assert_eq!(parse_id("550e8400-e29b-41d4-a716-446655440000"), Some(v));
    assert_eq!(parse_id("550E8400-E29B-41D4-A716-446655440000"), Some(v));
    assert_eq!(parse_id("550e8400e29b41d4a716446655440000"), Some(v));
    assert_eq!(parse_id("not an id"), None);
    assert_eq!(parse_id_or_nil("not an id"), NIL_ID);
    assert_eq!(parse_id(&id_to_string(v)), Some(v));
}

#[test]
fn action_type_names_round_trip() {
    for t in ALL_ACTION_TYPES {
        let name = action_type_name(t);
        assert_eq!(name, format!("{:?}", t));
        assert_eq!(action_type_from_name(name), t);
    }
    assert_eq!(action_type_from_name("Unknown"), ActionType::OpenApp);
    assert_eq!(action_type_from_name("openurl"), ActionType::OpenApp);
    assert_eq!(action_type_from_name(""), ActionType::OpenApp);
}

#[test]
fn gesture_type_codes_round_trip() {
    assert_eq!(gesture_type_code(GestureType::Static), "static");
    assert_eq!(gesture_type_code(GestureType::Dynamic), "dynamic");
    assert_eq!(gesture_type_from_code("dynamic"), GestureType::Dynamic);
    assert_eq!(gesture_type_from_code("static"), GestureType::Static);
    assert_eq!(gesture_type_from_code("Dynamic"), GestureType::Static);
    assert_eq!(gesture_type_from_code("other"), GestureType::Static);
}

#[test]
fn enabled_flags_round_trip() {
    assert_eq!(enabled_flag(true), 1);
    assert_eq!(enabled_flag(false), 0);
    assert!(enabled_from_flag(enabled_flag(true)));
    assert!(!enabled_from_flag(enabled_flag(false)));
    assert!(enabled_from_flag(-7));
}

#[test]
fn sample_frame_index_packs_sample_and_frame() {
    assert_eq!(sample_frame_index(0, 0), 0);
    assert_eq!(sample_frame_index(2, 17), 2017);
    assert_eq!(sample_frame_index(3_000_000, 0), (3_000_000_000usize as u64) as i32);
}

#[test]
fn action_rows_round_trip() {
    let a = AssignedAction {
        action_id: 0x0123456789abcdef0123456789abcdef,
        gesture_id: 42,
        action_type: ActionType::OpenUrl,
        payload: "https://example.com".to_string(),
        enabled: false,
    };
    let row = action_to_row(&a);
    assert_eq!(row.id, "01234567-89ab-cdef-0123-456789abcdef");
    assert_eq!(row.gesture_id, "00000000-0000-0000-0000-00000000002a");
    assert_eq!(row.action_type, "OpenUrl");
    assert_eq!(row.payload, "https://example.com");
    assert_eq!(row.enabled, 0);
    let back = action_from_row(&row);
    assert_eq!(back.action_id, a.action_id);
    assert_eq!(back.gesture_id, a.gesture_id);
    assert_eq!(back.action_type, a.action_type);
    assert_eq!(back.payload, a.payload);
    assert_eq!(back.enabled, a.enabled);
}

#[test]
fn unreadable_action_row_reads_defaults() {
    let row = ActionRow {
        id: "garbage".to_string(),
        gesture_id: "also garbage".to_string(),
        action_type: "Teleport".to_string(),
        payload: "x".to_string(),
        enabled: 5,
    };
    let a = action_from_row(&row);
    assert_eq!(a.action_id, NIL_ID);
    assert_eq!(a.gesture_id, NIL_ID);
    assert_eq!(a.action_type, ActionType::OpenApp);
    assert!(a.enabled);
}

#[test]
fn gesture_rows_round_trip() {
    let t: GestureTemplate<u8> = GestureTemplate {
        id: 7,
        name: "Peace Sign".to_string(),
        gesture_type: GestureType::Dynamic,
        samples: vec![1, 2, 3],
        created_at: Timestamp::from_parts(1_431_648_000, 123_456_789).unwrap(),
    };
    let row = gesture_to_row(&t);
    assert_eq!(row.id, "00000000-0000-0000-0000-000000000007");
    assert_eq!(row.name, "Peace Sign");
    assert_eq!(row.gesture_type, "dynamic");
    assert_eq!(row.created_at, "2015-05-15T00:00:00.123456789+00:00");
    let back: GestureTemplate<u8> = template_from_row(&row, vec![1, 2, 3]);
    assert_eq!(back.id, 7);
    assert_eq!(back.name, "Peace Sign");
    assert_eq!(back.gesture_type, GestureType::Dynamic);
    assert_eq!(back.samples, vec![1, 2, 3]);
    assert_eq!(back.created_at.secs(), 1_431_648_000);
    assert_eq!(back.created_at.nanos(), 123_456_789);
}

#[test]
fn unreadable_gesture_row_reads_defaults() {
    let row = GestureRow {
        id: "?".to_string(),
        name: "n".to_string(),
        gesture_type: "weird".to_string(),
        created_at: "yesterday".to_string(),
    };
    let t: GestureTemplate<u8> = template_from_row(&row, vec![]);
    assert_eq!(t.id, NIL_ID);
    assert_eq!(t.gesture_type, GestureType::Static);
    assert_eq!(t.created_at.secs(), 0);
    assert_eq!(t.created_at.nanos(), 0);
}

#[test]
fn rfc3339_with_offset_reads_as_utc_instant() {
    let t = Timestamp::parse_rfc3339_or_epoch("1996-12-19T16:39:57-08:00");
    assert_eq!(t.secs(), 851_042_397);
    assert_eq!(t.to_rfc3339(), "1996-12-20T00:39:57+00:00");
    let e = Timestamp::epoch();
    assert_eq!(e.to_rfc3339(), "1970-01-01T00:00:00+00:00");
}

#[test]
fn timestamp_parts_are_checked() {
    assert!(Timestamp::from_parts(0, 999_999_999).is_some());
    assert!(Timestamp::from_parts(0, 2_000_000_000).is_none());
    assert!(Timestamp::from_parts(i64::MAX, 0).is_none());
    let now = Timestamp::now();
    assert!(now.secs() > 1_600_000_000);
}

#[test]
fn missing_connection_is_an_internal_error() {
    let none: Option<u32> = None;
    match connection(&none) {
        Err(AppError::Internal(m)) => assert_eq!(m, "Storage not initialized"),
        _ => panic!("expected an internal error"),
    }
    let some = Some(3u32);
    assert_eq!(*connection(&some).unwrap(), 3);
}

#[test]
fn sample_rows_group_back_into_samples() {
    let samples: Vec<Vec<&str>> = vec![vec!["a0", "a1"], vec![], vec!["c0"], vec!["d0", "d1", "d2"]];
    let mut rows = Vec::new();
    for (s, frames) in samples.iter().enumerate() {
        for (f, frame) in frames.iter().enumerate() {
            rows.push((sample_frame_index(s, f), *frame));
        }
    }
    assert_eq!(group_sample_rows(rows), samples);
}

#[test]
fn sample_rows_drop_negative_indices_and_trailing_empties() {
    let rows = vec![(1000, "b0"), (-5, "x"), (3, "a3"), (1001, "b1")];
    assert_eq!(group_sample_rows(rows), vec![vec!["a3"], vec!["b0", "b1"]]);
    let empty: Vec<(i32, u8)> = vec![];
    assert!(group_sample_rows(empty).is_empty());
    assert_eq!(group_sample_rows(vec![(2000, 'z')]), vec![vec![], vec![], vec!['z']]);
}
