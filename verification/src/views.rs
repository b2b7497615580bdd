//! What the drawing of the game is told: which parts show, and how the
//! tries and helps that are left are laid out.
use vstd::prelude::*;
use vstd::string::StringExecFns;
use crate::text::{decimal, decimal_string};

verus! {

/// The boxes of a column that shows `value` of `max`: a box for each that
/// is left, and after them a spent box for each that is gone.
pub open spec fn boxes(max: u32, value: u32) -> Seq<bool> {
    Seq::new(max as nat, |i: int| i < value)
}

/// The style class that shows a part of the page, or hides it.
pub fn visible_class(visible: bool) -> (class: &'static str)
    ensures
        class@ == if visible {
            "visible"@
        } else {
            "hidden"@
        },
{
    if visible {
        "visible"
    } else {
        "hidden"
    }
}

/// The boxes of a column that shows `value` of `max`. No more can be left
/// than there were.
pub fn column_boxes(max: u32, value: u32) -> (attempts: Vec<bool>)
    requires
        value <= max,
    ensures
        attempts@ == boxes(max, value),
{
    let mut attempts: Vec<bool> = Vec::new();
    let available = value;
    let gone = max - value;
    let mut i: u32 = 0;
    while i < available
        invariant
            i <= available,
            available == value,
            attempts@.len() == i,
            forall|j: int| 0 <= j < i ==> attempts@[j],
        decreases available - i,
    {
        attempts.push(true);
        i = i + 1;
    }
    let mut i: u32 = 0;
    while i < gone
        invariant
            i <= gone,
            gone == max - value,
            attempts@.len() == value + i,
            forall|j: int| 0 <= j < value ==> attempts@[j],
            forall|j: int| value <= j < value + i ==> !attempts@[j],
        decreases gone - i,
    {
        attempts.push(false);
        i = i + 1;
    }
    assert(attempts@ =~= boxes(max, value));
    attempts
}

/// The title of a column: the number that is left, and what it counts.
pub fn column_title(value: u32, title: &str) -> (text: String)
    ensures
        text@ == decimal(value as nat) + " "@ + title@,
{
    let mut text = decimal_string(value as u64);
    text.append(" ");
    text.append(title);
    text
}

} // verus!
