//! The table of class names.

use vstd::prelude::*;

verus! {

/// Number of classes that have a name.
pub const CLASS_COUNT: usize = 3;

/// The name of the class at `index`: the three known classes in order, and
/// `"unknown"` for every other index.
pub open spec fn label_of(index: int) -> Seq<char> {
    if index == 0 {
        "invalid"@
    } else if index == 1 {
        "valid_back"@
    } else if index == 2 {
        "valid_front"@
    } else {
        "unknown"@
    }
}

/// Maps the index of a score to the name of its class.
pub fn label_for(index: usize) -> (label: String)
    ensures
        label@ == label_of(index as int),
{
    if index == 0 {
        "invalid".to_owned()
    } else if index == 1 {
        "valid_back".to_owned()
    } else if index == 2 {
        "valid_front".to_owned()
    } else {
        "unknown".to_owned()
    }
}

/// Every index past the last named class has the same label.
pub proof fn labels_past_the_table_are_unknown(index: int)
    requires
        index >= CLASS_COUNT,
    ensures
        label_of(index) == "unknown"@,
{
}

} // verus!
