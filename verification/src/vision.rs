//! Reading the hand detections that the frontend submits.

use vstd::prelude::*;
use crate::models::HandType;
use crate::text::{lowercase, lowercase_text, text_equals};

verus! {

/// The hand a submitted detection names: `left` in any letter case is the
/// left hand, anything else the right.
pub fn handedness_from_name(name: &str) -> (r: HandType)
    ensures
        r == if lowercase_text(name@) == "left"@ {
            HandType::Left
        } else {
            HandType::Right
        },
{
    let lower = lowercase(name);
    handedness_from_lowercase(lower.as_str())
}

/// The hand a lowercased name stands for: `left` is the left hand, anything
/// else the right.
pub fn handedness_from_lowercase(lower: &str) -> (r: HandType)
    ensures
        r == if lower@ == "left"@ {
            HandType::Left
        } else {
            HandType::Right
        },
{
    if text_equals(lower, "left") {
        HandType::Left
    } else {
        HandType::Right
    }
}

} // verus!
