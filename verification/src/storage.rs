//! How gestures and actions are written to, and read back from, the rows of
//! the database: the text codes of the enums, the flag of `enabled`, the
//! index of a sample frame, and whole rows.

use vstd::prelude::*;
use vstd::string::StringExecFns;
use vstd::pervasive::VecAdditionalExecFns;
use crate::ids::{hyphenated_text, id_to_string, parse_id_or_nil, parsed_uuid, NIL_ID};
use crate::error::AppError;
use crate::models::{ActionType, AssignedAction, GestureTemplate, GestureType};
use crate::text::text_equals;
use crate::time::{chrono_accepts, in_rfc3339_years, rfc3339_instant, rfc3339_text, Timestamp};

verus! {

/// The name of an action type, as `Debug` writes it and as rows store it.
pub open spec fn action_type_text(t: ActionType) -> Seq<char> {
    match t {
        ActionType::OpenApp => "OpenApp"@,
        ActionType::ExecuteCommand => "ExecuteCommand"@,
        ActionType::OpenUrl => "OpenUrl"@,
        ActionType::ChangeVolume => "ChangeVolume"@,
        ActionType::MediaControl => "MediaControl"@,
        ActionType::LockWorkstation => "LockWorkstation"@,
        ActionType::SimulateKeyboard => "SimulateKeyboard"@,
        ActionType::SimulateMouse => "SimulateMouse"@,
        ActionType::HttpRequest => "HttpRequest"@,
        ActionType::WebSocket => "WebSocket"@,
        ActionType::Mqtt => "Mqtt"@,
        ActionType::PowerShell => "PowerShell"@,
        ActionType::Bash => "Bash"@,
        ActionType::TauriEvent => "TauriEvent"@,
    }
}

/// The action type a stored name stands for; a name that is none of them
/// reads as `OpenApp`.
pub open spec fn action_type_of_text(s: Seq<char>) -> ActionType {
    if s == "ExecuteCommand"@ {
        ActionType::ExecuteCommand
    } else if s == "OpenUrl"@ {
        ActionType::OpenUrl
    } else if s == "ChangeVolume"@ {
        ActionType::ChangeVolume
    } else if s == "MediaControl"@ {
        ActionType::MediaControl
    } else if s == "LockWorkstation"@ {
        ActionType::LockWorkstation
    } else if s == "SimulateKeyboard"@ {
        ActionType::SimulateKeyboard
    } else if s == "SimulateMouse"@ {
        ActionType::SimulateMouse
    } else if s == "HttpRequest"@ {
        ActionType::HttpRequest
    } else if s == "WebSocket"@ {
        ActionType::WebSocket
    } else if s == "Mqtt"@ {
        ActionType::Mqtt
    } else if s == "PowerShell"@ {
        ActionType::PowerShell
    } else if s == "Bash"@ {
        ActionType::Bash
    } else if s == "TauriEvent"@ {
        ActionType::TauriEvent
    } else {
        ActionType::OpenApp
    }
}

/// The name of an action type (`format!("{:?}", t)`).
pub fn action_type_name(t: ActionType) -> (r: &'static str)
    ensures
        r@ == action_type_text(t),
{
    match t {
        ActionType::OpenApp => "OpenApp",
        ActionType::ExecuteCommand => "ExecuteCommand",
        ActionType::OpenUrl => "OpenUrl",
        ActionType::ChangeVolume => "ChangeVolume",
        ActionType::MediaControl => "MediaControl",
        ActionType::LockWorkstation => "LockWorkstation",
        ActionType::SimulateKeyboard => "SimulateKeyboard",
        ActionType::SimulateMouse => "SimulateMouse",
        ActionType::HttpRequest => "HttpRequest",
        ActionType::WebSocket => "WebSocket",
        ActionType::Mqtt => "Mqtt",
        ActionType::PowerShell => "PowerShell",
        ActionType::Bash => "Bash",
        ActionType::TauriEvent => "TauriEvent",
    }
}

/// Reads an action type from its name; any other text reads as `OpenApp`.
pub fn action_type_from_name(s: &str) -> (r: ActionType)
    ensures
        r == action_type_of_text(s@),
{
    if text_equals(s, "ExecuteCommand") {
        ActionType::ExecuteCommand
    } else if text_equals(s, "OpenUrl") {
        ActionType::OpenUrl
    } else if text_equals(s, "ChangeVolume") {
        ActionType::ChangeVolume
    } else if text_equals(s, "MediaControl") {
        ActionType::MediaControl
    } else if text_equals(s, "LockWorkstation") {
        ActionType::LockWorkstation
    } else if text_equals(s, "SimulateKeyboard") {
        ActionType::SimulateKeyboard
    } else if text_equals(s, "SimulateMouse") {
        ActionType::SimulateMouse
    } else if text_equals(s, "HttpRequest") {
        ActionType::HttpRequest
    } else if text_equals(s, "WebSocket") {
        ActionType::WebSocket
    } else if text_equals(s, "Mqtt") {
        ActionType::Mqtt
    } else if text_equals(s, "PowerShell") {
        ActionType::PowerShell
    } else if text_equals(s, "Bash") {
        ActionType::Bash
    } else if text_equals(s, "TauriEvent") {
        ActionType::TauriEvent
    } else {
        ActionType::OpenApp
    }
}

/// The lengths and telling characters of the action type names.
proof fn lemma_action_type_names_reveal()
    ensures
        "OpenApp"@.len() == 7,
        "ExecuteCommand"@.len() == 14,
        "OpenUrl"@.len() == 7,
        "ChangeVolume"@.len() == 12,
        "MediaControl"@.len() == 12,
        "LockWorkstation"@.len() == 15,
        "SimulateKeyboard"@.len() == 16,
        "SimulateMouse"@.len() == 13,
        "HttpRequest"@.len() == 11,
        "WebSocket"@.len() == 9,
        "Mqtt"@.len() == 4,
        "PowerShell"@.len() == 10,
        "Bash"@.len() == 4,
        "TauriEvent"@.len() == 10,
        "OpenApp"@[4] == 'A' && "OpenUrl"@[4] == 'U',
        "ChangeVolume"@[0] == 'C' && "MediaControl"@[0] == 'M',
        "PowerShell"@[0] == 'P' && "TauriEvent"@[0] == 'T',
        "Mqtt"@[0] == 'M' && "Bash"@[0] == 'B',
{
    reveal_strlit("OpenApp");
    reveal_strlit("ExecuteCommand");
    reveal_strlit("OpenUrl");
    reveal_strlit("ChangeVolume");
    reveal_strlit("MediaControl");
    reveal_strlit("LockWorkstation");
    reveal_strlit("SimulateKeyboard");
    reveal_strlit("SimulateMouse");
    reveal_strlit("HttpRequest");
    reveal_strlit("WebSocket");
    reveal_strlit("Mqtt");
    reveal_strlit("PowerShell");
    reveal_strlit("Bash");
    reveal_strlit("TauriEvent");
}

/// Reading an action type's name gives the action type back.
pub proof fn lemma_action_type_name_round_trip(t: ActionType)
    ensures
        action_type_of_text(action_type_text(t)) == t,
{
    lemma_action_type_names_reveal();
    match t {
        ActionType::OpenApp => assert(action_type_of_text("OpenApp"@) == ActionType::OpenApp),
        ActionType::ExecuteCommand => assert(action_type_of_text("ExecuteCommand"@) == ActionType::ExecuteCommand),
        ActionType::OpenUrl => assert(action_type_of_text("OpenUrl"@) == ActionType::OpenUrl),
        ActionType::ChangeVolume => assert(action_type_of_text("ChangeVolume"@) == ActionType::ChangeVolume),
        ActionType::MediaControl => assert(action_type_of_text("MediaControl"@) == ActionType::MediaControl),
        ActionType::LockWorkstation => assert(action_type_of_text("LockWorkstation"@) == ActionType::LockWorkstation),
        ActionType::SimulateKeyboard => assert(action_type_of_text("SimulateKeyboard"@) == ActionType::SimulateKeyboard),
        ActionType::SimulateMouse => assert(action_type_of_text("SimulateMouse"@) == ActionType::SimulateMouse),
        ActionType::HttpRequest => assert(action_type_of_text("HttpRequest"@) == ActionType::HttpRequest),
        ActionType::WebSocket => assert(action_type_of_text("WebSocket"@) == ActionType::WebSocket),
        ActionType::Mqtt => assert(action_type_of_text("Mqtt"@) == ActionType::Mqtt),
        ActionType::PowerShell => assert(action_type_of_text("PowerShell"@) == ActionType::PowerShell),
        ActionType::Bash => assert(action_type_of_text("Bash"@) == ActionType::Bash),
        ActionType::TauriEvent => assert(action_type_of_text("TauriEvent"@) == ActionType::TauriEvent),
    }
}

/// The code a gesture type is stored under.
pub open spec fn gesture_type_code_text(t: GestureType) -> Seq<char> {
    match t {
        GestureType::Static => "static"@,
        GestureType::Dynamic => "dynamic"@,
    }
}

/// The gesture type a stored code stands for; any code but `dynamic` reads
/// as static.
pub open spec fn gesture_type_of_code(s: Seq<char>) -> GestureType {
    if s == "dynamic"@ {
        GestureType::Dynamic
    } else {
        GestureType::Static
    }
}

/// The code a gesture type is stored under.
pub fn gesture_type_code(t: GestureType) -> (r: &'static str)
    ensures
        r@ == gesture_type_code_text(t),
{
    match t {
        GestureType::Static => "static",
        GestureType::Dynamic => "dynamic",
    }
}

/// Reads a stored gesture type code.
pub fn gesture_type_from_code(s: &str) -> (r: GestureType)
    ensures
        r == gesture_type_of_code(s@),
{
    if text_equals(s, "dynamic") {
        GestureType::Dynamic
    } else {
        GestureType::Static
    }
}

/// Reading a gesture type's code gives the gesture type back.
pub proof fn lemma_gesture_type_code_round_trip(t: GestureType)
    ensures
        gesture_type_of_code(gesture_type_code_text(t)) == t,
{
    reveal_strlit("static");
    assert("static"@.len() == 6);
    reveal_strlit("dynamic");
    assert("dynamic"@.len() == 7);
}

/// The integer that stores `enabled`: 1 for true, 0 for false.
pub open spec fn flag_of(b: bool) -> i32 {
    if b {
        1
    } else {
        0
    }
}

/// The integer that stores `enabled` (`enabled as i32`).
pub fn enabled_flag(b: bool) -> (r: i32)
    ensures
        r == flag_of(b),
{
    if b {
        1
    } else {
        0
    }
}

/// Reading the stored flag of `enabled` gives it back.
pub proof fn lemma_enabled_flag_round_trip(b: bool)
    ensures
        (flag_of(b) != 0) == b,
{
}

/// Reads a stored `enabled` flag: any integer but 0 is true.
pub fn enabled_from_flag(f: i32) -> (r: bool)
    ensures
        r == (f != 0),
{
    f != 0
}

/// The index under which frame `frame_idx` of sample `sample_idx` is stored:
/// `sample_idx * 1000 + frame_idx`, cut to 32 bits as `as i32` does.
pub fn sample_frame_index(sample_idx: usize, frame_idx: usize) -> (r: i32)
    requires
        sample_idx * 1000 + frame_idx <= usize::MAX,
    ensures
        r == (sample_idx * 1000 + frame_idx) as i32,
{
    let v: usize = sample_idx * 1000 + frame_idx;
    #[verifier::truncate]
    (v as i32)
}

/// An action as the model sees it.
pub struct ActionView {
    pub action_id: u128,
    pub gesture_id: u128,
    pub action_type: ActionType,
    pub payload: Seq<char>,
    pub enabled: bool,
}

impl View for AssignedAction {
    type V = ActionView;

    open spec fn view(&self) -> ActionView {
        ActionView {
            action_id: self.action_id,
            gesture_id: self.gesture_id,
            action_type: self.action_type,
            payload: self.payload@,
            enabled: self.enabled,
        }
    }
}

/// The columns of a stored action.
pub struct ActionRecord {
    pub id: Seq<char>,
    pub gesture_id: Seq<char>,
    pub action_type: Seq<char>,
    pub payload: Seq<char>,
    pub enabled: i32,
}

/// The row of the `actions` table that holds an action.
#[derive(Clone, Debug)]
pub struct ActionRow {
    pub id: String,
    pub gesture_id: String,
    pub action_type: String,
    pub payload: String,
    pub enabled: i32,
}

impl View for ActionRow {
    type V = ActionRecord;

    open spec fn view(&self) -> ActionRecord {
        ActionRecord {
            id: self.id@,
            gesture_id: self.gesture_id@,
            action_type: self.action_type@,
            payload: self.payload@,
            enabled: self.enabled,
        }
    }
}

/// The columns an action is written as.
pub open spec fn encode_action(a: ActionView) -> ActionRecord {
    ActionRecord {
        id: hyphenated_text(a.action_id),
        gesture_id: hyphenated_text(a.gesture_id),
        action_type: action_type_text(a.action_type),
        payload: a.payload,
        enabled: flag_of(a.enabled),
    }
}

/// An identifier read from a column, nil where the text is not one.
pub open spec fn id_of_text(s: Seq<char>) -> u128 {
    match parsed_uuid(s) {
        Some(v) => v,
        None => NIL_ID,
    }
}

/// The action read from the columns of a row.
pub open spec fn decode_action(r: ActionRecord) -> ActionView {
    ActionView {
        action_id: id_of_text(r.id),
        gesture_id: id_of_text(r.gesture_id),
        action_type: action_type_of_text(r.action_type),
        payload: r.payload,
        enabled: r.enabled != 0,
    }
}

/// The row that stores an action.
pub fn action_to_row(a: &AssignedAction) -> (r: ActionRow)
    ensures
        r@ == encode_action(a@),
{
    ActionRow {
        id: id_to_string(a.action_id),
        gesture_id: id_to_string(a.gesture_id),
        action_type: String::from_str(action_type_name(a.action_type)),
        payload: a.payload.clone(),
        enabled: enabled_flag(a.enabled),
    }
}

/// The action a row holds. A row written by `action_to_row` gives back the
/// action it was written from.
pub fn action_from_row(row: &ActionRow) -> (r: AssignedAction)
    ensures
        r@ == decode_action(row@),
        forall|a: ActionView| row@ == #[trigger] encode_action(a) ==> r@ == a,
{
    let r = AssignedAction {
        action_id: parse_id_or_nil(row.id.as_str()),
        gesture_id: parse_id_or_nil(row.gesture_id.as_str()),
        action_type: action_type_from_name(row.action_type.as_str()),
        payload: row.payload.clone(),
        enabled: enabled_from_flag(row.enabled),
    };
    assert forall|a: ActionView| row@ == #[trigger] encode_action(a) implies r@ == a by {
        lemma_action_type_name_round_trip(a.action_type);
        assert(hyphenated_text(a.action_id) == row.id@);
        assert(hyphenated_text(a.gesture_id) == row.gesture_id@);
    }
    r
}

/// The samples after placing one stored frame: the frame joins sample `k`,
/// and samples missing before `k` are added empty.
pub open spec fn place_frame<F>(samples: Seq<Seq<F>>, k: int, frame: F) -> Seq<Seq<F>> {
    if k < samples.len() {
        samples.update(k, samples[k].push(frame))
    } else {
        samples + Seq::new((k - samples.len()) as nat, |i: int| Seq::<F>::empty()) + seq![seq![frame]]
    }
}

/// The samples after placing each stored row (frame index, frame) in turn:
/// a row with index `i` belongs to sample `i / 1000`; a row with a negative
/// index belongs to none.
pub open spec fn place_rows<F>(samples: Seq<Seq<F>>, rows: Seq<(i32, F)>) -> Seq<Seq<F>>
    decreases rows.len(),
{
    if rows.len() == 0 {
        samples
    } else {
        let before = place_rows(samples, rows.drop_last());
        let (index, frame) = rows.last();
        if index < 0 {
            before
        } else {
            place_frame(before, index / 1000, frame)
        }
    }
}

/// The samples that stored sample rows, in the order they were stored, make.
pub open spec fn grouped_samples<F>(rows: Seq<(i32, F)>) -> Seq<Seq<F>> {
    place_rows(Seq::empty(), rows)
}

/// Groups stored sample rows (frame index, frame), in the order they were
/// stored, into samples: the frames of sample `k` are those whose index `i`
/// is not negative and has `i / 1000 == k`, in order; samples up to the
/// highest one seen are given, those without frames empty.
pub fn group_sample_rows<F>(rows: Vec<(i32, F)>) -> (r: Vec<Vec<F>>)
    ensures
        r@.len() == grouped_samples(rows@).len(),
        forall|k: int| 0 <= k < r@.len() ==> #[trigger] r@[k]@ == grouped_samples(rows@)[k],
{
    let ghost all = rows@;
    let mut rest = rows;
    let mut groups: Vec<Vec<F>> = Vec::new();
    let n = rest.len();
    let mut done: usize = 0;
    while done < n
        invariant
            n == all.len(),
            done <= n,
            rest@ == all.skip(done as int),
            groups@.len() == place_rows(Seq::<Seq<F>>::empty(), all.take(done as int)).len(),
            forall|k: int| 0 <= k < groups@.len() ==> #[trigger] groups@[k]@ == place_rows(Seq::<Seq<F>>::empty(), all.take(done as int))[k],
        decreases n - done,
    {
        let ghost before = place_rows(Seq::<Seq<F>>::empty(), all.take(done as int));
        let (index, frame) = rest.remove(0);
        assert(all.take(done + 1).drop_last() =~= all.take(done as int));
        assert(all[done as int] == (index, frame));
        if index >= 0 {
            let k = (index / 1000) as usize;
            let ghost after = place_frame(before, k as int, frame);
            if k < groups.len() {
                let mut sample: Vec<F> = Vec::new();
                groups.set_and_swap(k, &mut sample);
                sample.push(frame);
                groups.set(k, sample);
            } else {
                while groups.len() < k
                    invariant
                        before.len() <= groups@.len() <= k,
                        forall|j: int| 0 <= j < before.len() ==> #[trigger] groups@[j]@ == before[j],
                        forall|j: int| before.len() <= j < groups@.len() ==> #[trigger] groups@[j]@ == Seq::<F>::empty(),
                    decreases k - groups@.len(),
                {
                    groups.push(Vec::new());
                }
                let mut sample: Vec<F> = Vec::new();
                sample.push(frame);
                groups.push(sample);
            }
            assert(groups@.len() == after.len());
            assert forall|j: int| 0 <= j < groups@.len() implies #[trigger] groups@[j]@ == after[j] by {
                if j == k as int {
                    assert(groups@[j]@ =~= after[j]);
                }
            }
        }
        assert(rest@ =~= all.skip(done + 1));
        done = done + 1;
    }
    assert(all.take(n as int) =~= all);
    groups
}

/// The sample rows (frame index, frame) that frame `j` of sample `k` is
/// stored as: index `k * 1000 + j`.
pub open spec fn sample_rows<F>(k: int, frames: Seq<F>) -> Seq<(i32, F)> {
    Seq::new(frames.len(), |j: int| ((k * 1000 + j) as i32, frames[j]))
}

/// The sample rows of a template's samples, in the order they are stored:
/// sample by sample, frame by frame.
pub open spec fn written_sample_rows<F>(samples: Seq<Seq<F>>) -> Seq<(i32, F)>
    decreases samples.len(),
{
    if samples.len() == 0 {
        Seq::empty()
    } else {
        written_sample_rows(samples.drop_last()) + sample_rows(samples.len() - 1, samples.last())
    }
}

/// The samples without the empty ones at the end, which store no rows.
pub open spec fn without_trailing_empty<F>(samples: Seq<Seq<F>>) -> Seq<Seq<F>>
    decreases samples.len(),
{
    if samples.len() == 0 {
        samples
    } else if samples.last().len() == 0 {
        without_trailing_empty(samples.drop_last())
    } else {
        samples
    }
}

proof fn lemma_place_rows_append<F>(g: Seq<Seq<F>>, a: Seq<(i32, F)>, b: Seq<(i32, F)>)
    ensures
        place_rows(g, a + b) == place_rows(place_rows(g, a), b),
    decreases b.len(),
{
    if b.len() == 0 {
        assert(a + b =~= a);
    } else {
        assert((a + b).drop_last() =~= a + b.drop_last());
        assert((a + b).last() == b.last());
        lemma_place_rows_append(g, a, b.drop_last());
    }
}

proof fn lemma_without_trailing_empty<F>(samples: Seq<Seq<F>>)
    ensures
        without_trailing_empty(samples).len() <= samples.len(),
        forall|i: int| 0 <= i < without_trailing_empty(samples).len() ==> #[trigger] without_trailing_empty(samples)[i] == samples[i],
        forall|i: int| without_trailing_empty(samples).len() <= i < samples.len() ==> (#[trigger] samples[i]).len() == 0,
    decreases samples.len(),
{
    if samples.len() > 0 && samples.last().len() == 0 {
        let rest = samples.drop_last();
        lemma_without_trailing_empty(rest);
        let t = without_trailing_empty(samples);
        assert forall|i: int| t.len() <= i < samples.len() implies (#[trigger] samples[i]).len() == 0 by {
            if i < rest.len() {
                assert(rest[i] == samples[i]);
            }
        }
        assert forall|i: int| 0 <= i < t.len() implies #[trigger] t[i] == samples[i] by {
            assert(rest[i] == samples[i]);
        }
    }
}

proof fn lemma_place_sample<F>(g: Seq<Seq<F>>, k: int, x: Seq<F>)
    requires
        0 <= g.len() <= k,
        0 < x.len() < 1000,
        k * 1000 + 1000 <= i32::MAX,
    ensures
        place_rows(g, sample_rows(k, x)) =~= g + Seq::new((k - g.len()) as nat, |i: int| Seq::<F>::empty()) + seq![x],
    decreases x.len(),
{
    let rows = sample_rows(k, x);
    let index: i32 = (k * 1000 + (x.len() - 1)) as i32;
    assert(index == k * 1000 + (x.len() - 1));
    assert(rows.last() == (index, x.last()));
    assert(index >= 0);
    assert(index / 1000 == k);
    if x.len() == 1 {
        assert(rows.drop_last() =~= Seq::<(i32, F)>::empty());
        assert(place_rows(g, Seq::<(i32, F)>::empty()) == g);
        assert(seq![x.last()] =~= x);
    } else {
        assert(rows.drop_last() =~= sample_rows(k, x.drop_last()));
        lemma_place_sample(g, k, x.drop_last());
        let before = place_rows(g, rows.drop_last());
        assert(before.len() == k + 1);
        assert(before[k].push(x.last()) =~= x);
    }
}

/// Sample rows written for a template's samples, read back in the order they
/// were stored, group into those samples again, all but the empty samples at
/// the end (which store no rows); this holds for samples of fewer than 1000
/// frames whose indices stay within `i32`.
pub proof fn lemma_sample_rows_round_trip<F>(samples: Seq<Seq<F>>)
    requires
        forall|k: int| 0 <= k < samples.len() ==> (#[trigger] samples[k]).len() < 1000,
        samples.len() * 1000 <= i32::MAX,
    ensures
        grouped_samples(written_sample_rows(samples)) =~~= without_trailing_empty(samples),
    decreases samples.len(),
{
    if samples.len() > 0 {
        let rest = samples.drop_last();
        let x = samples.last();
        let k = samples.len() - 1;
        assert forall|j: int| 0 <= j < rest.len() implies (#[trigger] rest[j]).len() < 1000 by {
            assert(rest[j] == samples[j]);
        }
        lemma_sample_rows_round_trip(rest);
        lemma_place_rows_append(Seq::<Seq<F>>::empty(), written_sample_rows(rest), sample_rows(k, x));
        let t = without_trailing_empty(rest);
        assert(t =~~= place_rows(Seq::<Seq<F>>::empty(), written_sample_rows(rest)));
        if x.len() == 0 {
            assert(sample_rows(k, x) =~= Seq::<(i32, F)>::empty());
        } else {
            lemma_without_trailing_empty(rest);
            lemma_place_sample(t, k, x);
            let r = t + Seq::new((k - t.len()) as nat, |i: int| Seq::<F>::empty()) + seq![x];
            assert forall|i: int| 0 <= i < samples.len() implies #[trigger] r[i] =~= samples[i] by {
                if i < t.len() {
                    assert(r[i] == t[i]);
                    assert(rest[i] == samples[i]);
                } else if i < k {
                    assert(rest[i] == samples[i]);
                    assert(samples[i].len() == 0);
                }
            }
            assert(r =~~= samples);
        }
    }
}

/// The columns of a stored gesture.
pub struct GestureRecord {
    pub id: Seq<char>,
    pub name: Seq<char>,
    pub gesture_type: Seq<char>,
    pub created_at: Seq<char>,
}

/// The row of the `gestures` table that holds a gesture.
#[derive(Clone, Debug)]
pub struct GestureRow {
    pub id: String,
    pub name: String,
    pub gesture_type: String,
    pub created_at: String,
}

impl View for GestureRow {
    type V = GestureRecord;

    open spec fn view(&self) -> GestureRecord {
        GestureRecord {
            id: self.id@,
            name: self.name@,
            gesture_type: self.gesture_type@,
            created_at: self.created_at@,
        }
    }
}

/// The row that stores a gesture (its samples go to rows of their own).
pub fn gesture_to_row<S>(t: &GestureTemplate<S>) -> (r: GestureRow)
    ensures
        r.id@ == hyphenated_text(t.id),
        r.name@ == t.name@,
        r.gesture_type@ == gesture_type_code_text(t.gesture_type),
        r.created_at@ == rfc3339_text(t.created_at@.0, t.created_at@.1),
        chrono_accepts(t.created_at@.0, t.created_at@.1),
{
    GestureRow {
        id: id_to_string(t.id),
        name: t.name.clone(),
        gesture_type: String::from_str(gesture_type_code(t.gesture_type)),
        created_at: t.created_at.to_rfc3339(),
    }
}

/// The gesture a row holds, with the samples read from its sample rows; an
/// unreadable identifier reads as nil and an unreadable time as the Unix
/// epoch. A row written by `gesture_to_row` gives back the identifier, name
/// and type it was written from, and the creation time where it lies in the
/// years 0 to 9999.
pub fn template_from_row<S>(row: &GestureRow, samples: Vec<S>) -> (r: GestureTemplate<S>)
    ensures
        r.id == id_of_text(row.id@),
        r.name@ == row.name@,
        r.gesture_type == gesture_type_of_code(row.gesture_type@),
        r.samples == samples,
        r.created_at@ == match rfc3339_instant(row.created_at@) {
            Some(p) => p,
            None => (0i64, 0u32),
        },
        forall|v: u128| #[trigger] hyphenated_text(v) == row.id@ ==> r.id == v,
        forall|t: GestureType| #[trigger] gesture_type_code_text(t) == row.gesture_type@ ==> r.gesture_type == t,
        forall|secs: i64, nanos: u32|
            #[trigger] rfc3339_text(secs, nanos) == row.created_at@ && chrono_accepts(secs, nanos) && in_rfc3339_years(secs)
                ==> r.created_at@ == (secs, nanos),
{
    proof {
        lemma_gesture_type_code_round_trip(GestureType::Static);
        lemma_gesture_type_code_round_trip(GestureType::Dynamic);
    }
    GestureTemplate {
        id: parse_id_or_nil(row.id.as_str()),
        name: row.name.clone(),
        gesture_type: gesture_type_from_code(row.gesture_type.as_str()),
        samples,
        created_at: Timestamp::parse_rfc3339_or_epoch(row.created_at.as_str()),
    }
}

/// The open connection of a store, or the error that the store was never
/// opened.
pub fn connection<C>(conn: &Option<C>) -> (r: Result<&C, AppError>)
    ensures
        match conn {
            Some(c) => r matches Ok(x) && *x == c,
            None => r matches Err(AppError::Internal(m)) && m@ == "Storage not initialized"@,
        },
{
    match conn {
        Some(c) => Ok(c),
        None => Err(AppError::Internal(String::from_str("Storage not initialized"))),
    }
}

/// How many gestures, sample frames and actions the database holds.
#[derive(Clone, Copy, Debug)]
pub struct StorageStats {
    pub gesture_count: usize,
    pub sample_count: usize,
    pub action_count: usize,
}

} // verus!
