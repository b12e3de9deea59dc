//! Gesture templates: creating them, listing them, reading the type a user
//! names, and loading them into the map by identifier that recognition
//! searches.

use vstd::prelude::*;
use std::collections::HashMap;
use crate::ids::{is_random_v4, new_random_id};
use crate::models::{GestureTemplate, GestureType};
use crate::storage::{gesture_type_code, gesture_type_code_text, gesture_type_from_code, gesture_type_of_code};
use crate::text::{lowercase, lowercase_text};
use crate::time::{rfc3339_text, Timestamp};

verus! {

/// The gesture type a user names: `dynamic` in any letter case is dynamic,
/// anything else static.
pub fn gesture_type_from_user(name: &str) -> (r: GestureType)
    ensures
        r == gesture_type_of_code(lowercase_text(name@)),
{
    let lower = lowercase(name);
    gesture_type_from_code(lower.as_str())
}

/// A new gesture template with a fresh random identifier, created now.
pub fn new_template<S>(name: String, gesture_type: GestureType, samples: Vec<S>) -> (r: GestureTemplate<S>)
    ensures
        is_random_v4(r.id),
        r.name == name,
        r.gesture_type == gesture_type,
        r.samples == samples,
{
    GestureTemplate { id: new_random_id(), name, gesture_type, samples, created_at: Timestamp::now() }
}

/// A gesture as the frontend lists it.
#[derive(Debug)]
pub struct GestureInfo {
    pub id: u128,
    pub name: String,
    pub gesture_type: String,
    pub created_at: String,
}

/// The listing of a gesture: its identifier and name, its type by its code
/// (`static` or `dynamic`) and its creation time in RFC 3339.
pub fn gesture_info<S>(t: GestureTemplate<S>) -> (r: GestureInfo)
    ensures
        r.id == t.id,
        r.name == t.name,
        r.gesture_type@ == gesture_type_code_text(t.gesture_type),
        r.created_at@ == rfc3339_text(t.created_at@.0, t.created_at@.1),
{
    let created_at = t.created_at.to_rfc3339();
    GestureInfo {
        id: t.id,
        name: t.name,
        gesture_type: String::from_str(gesture_type_code(t.gesture_type)),
        created_at,
    }
}

/// The map by identifier after storing each template of `ts` under its
/// identifier, in order.
pub open spec fn with_templates<S>(m: Map<u128, GestureTemplate<S>>, ts: Seq<GestureTemplate<S>>) -> Map<u128, GestureTemplate<S>>
    decreases ts.len(),
{
    if ts.len() == 0 {
        m
    } else {
        with_templates(m, ts.drop_last()).insert(ts.last().id, ts.last())
    }
}

/// Stores each template under its identifier, in order; a later template
/// replaces an earlier one with the same identifier.
pub fn load_templates<S>(templates_by_id: &mut HashMap<u128, GestureTemplate<S>>, templates: Vec<GestureTemplate<S>>)
    ensures
        final(templates_by_id)@ == with_templates(old(templates_by_id)@, templates@),
{
    broadcast use vstd::std_specs::hash::group_hash_axioms;
    let ghost all = templates@;
    let ghost start = templates_by_id@;
    let mut rest = templates;
    let mut k: usize = 0;
    let n = rest.len();
    while k < n
        invariant
            n == all.len(),
            k <= n,
            rest@ == all.skip(k as int),
            templates_by_id@ == with_templates(start, all.take(k as int)),
        decreases n - k,
    {
        let t = rest.remove(0);
        assert(all.take(k + 1).drop_last() =~= all.take(k as int));
        assert(t == all[k as int]);
        let id = t.id;
        templates_by_id.insert(id, t);
        assert(rest@ =~= all.skip(k + 1));
        k = k + 1;
    }
    assert(all.take(n as int) =~= all);
}

} // verus!

verus! {

/// After loading templates, each of them can be found under its identifier,
/// and what is found is the last loaded template with that identifier.
pub proof fn lemma_loaded_templates_found<S>(m: Map<u128, GestureTemplate<S>>, ts: Seq<GestureTemplate<S>>, i: int)
    requires
        0 <= i < ts.len(),
    ensures
        with_templates(m, ts).contains_key(ts[i].id),
        (forall|j: int| i < j < ts.len() ==> #[trigger] ts[j].id != ts[i].id) ==> with_templates(m, ts)[ts[i].id] == ts[i],
    decreases ts.len(),
{
    if i < ts.len() - 1 {
        lemma_loaded_templates_found(m, ts.drop_last(), i);
        assert(ts.drop_last()[i] == ts[i]);
        if forall|j: int| i < j < ts.len() ==> #[trigger] ts[j].id != ts[i].id {
            assert(ts[ts.len() - 1].id != ts[i].id);
            assert forall|j: int| i < j < ts.drop_last().len() implies #[trigger] ts.drop_last()[j].id != ts.drop_last()[i].id by {
                assert(ts.drop_last()[j] == ts[j]);
            }
        }
    }
}

} // verus!
