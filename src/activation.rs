//! The activation request for the scripting backend.
use vstd::prelude::*;

use crate::eligibility::{eligible, is_eligible};
use crate::text::opt_view;

verus! {

/// The text of an activation script before the application's name.
pub const ACTIVATE_PREFIX: &'static str = "tell application \"";

/// The text of an activation script after the application's name.
pub const ACTIVATE_SUFFIX: &'static str = "\" to activate";

/// The script that brings the application named `name` to the foreground.
pub open spec fn activation_script(name: Seq<char>) -> Seq<char> {
    ACTIVATE_PREFIX@ + name + ACTIVATE_SUFFIX@
}

/// The script that activates `app_name` by its name (never by a path, which
/// could launch a second instance), or `None` when `app_name` is not
/// eligible: such a name is never activated.
pub fn activate_app(app_name: &str) -> (r: Option<String>)
    ensures
        opt_view(r) == if eligible(app_name@) {
            Some(activation_script(app_name@))
        } else {
            None
        },
{
    if !is_eligible(app_name) {
        return None;
    }
    let mut script = String::from_str(ACTIVATE_PREFIX);
    script.append(app_name);
    script.append(ACTIVATE_SUFFIX);
    Some(script)
}

} // verus!
