//! Text shown by the editor.

use vstd::prelude::*;

verus! {

/// Label of an A/B recall button: the plain label, marked with " *" while
/// its slot is the active one.
pub fn ab_button_label(label: &str, active: bool) -> (s: String)
    ensures
        s@ == (if active {
            label@ + " *"@
        } else {
            label@
        }),
{
    let mut s = String::from_str(label);
    if active {
        s.append(" *");
    }
    s
}

} // verus!
