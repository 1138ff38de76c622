//! Which application names may be recorded, and which may be activated.
//!
//! The rules are a deny-list with heuristics, evaluated in a fixed order; the
//! first rule that matches gives the reason for the rejection.
use vstd::prelude::*;

use crate::text::{chars_of, contains_chars, contains_str, has_substring, same_text};

verus! {

/// The name under which the picker's own window is shown.
pub const OWN_DISPLAY_NAME: &'static str = "Prompt Buddy";

/// The name of the picker's packaged process.
pub const OWN_PROCESS_NAME: &'static str = "prompt-buddy";

/// The word of the picker's branding; any name holding it is taken for the
/// picker itself, whatever surrounds it.
pub const BRANDING: &'static str = "Prompt";

/// The generic process name of the runtime that hosts many unrelated
/// applications.  Activating it by this name could reach the wrong one.
pub const CONTAINER_PROCESS: &'static str = "Electron";

/// Substring that marks background helper processes.
pub const AGENT_MARKER: &'static str = "Agent";

/// Why a name is not a target.
#[derive(Clone, Copy, Debug, PartialEq, Eq, Structural)]
pub enum Rejection {
    /// The picker itself.
    OwnApplication,
    /// The container runtime's generic name, left unresolved.
    UnresolvedContainer,
    /// A process of the operating system's own shell or services.
    SystemProcess,
    /// Named like a daemon or a helper agent.
    DaemonPattern,
    /// Too short to be a real application name.
    TooShort,
}

/// The operating-system processes that are never a target.
pub open spec fn system_processes() -> Seq<Seq<char>> {
    seq![
        "universalaccessd"@, "Dock"@, "Finder"@, "SystemUIServer"@, "ControlCenter"@,
        "WindowServer"@, "loginwindow"@, "kernel_task"@, "launchd"@, "syslogd"@,
        "UserEventAgent"@, "cfprefsd"@, "distnoted"@, "NotificationCenter"@,
        "Spotlight"@, "mds"@, "mdworker"@, "CoreServicesUIAgent"@, "AirPlayUIAgent"@,
    ]
}

pub open spec fn is_own_application(s: Seq<char>) -> bool {
    has_substring(s, OWN_DISPLAY_NAME@) || s == OWN_PROCESS_NAME@ || has_substring(s, BRANDING@)
}

pub open spec fn is_unresolved_container(s: Seq<char>) -> bool {
    s == CONTAINER_PROCESS@
}

pub open spec fn is_system_process(s: Seq<char>) -> bool {
    system_processes().contains(s)
}

/// Unix-style daemon naming (a trailing `d` on a name of more than three
/// characters), or a helper agent.
pub open spec fn looks_like_daemon(s: Seq<char>) -> bool {
    (s.len() > 3 && s[s.len() - 1] == 'd') || has_substring(s, AGENT_MARKER@)
}

pub open spec fn is_too_short(s: Seq<char>) -> bool {
    s.len() < 2
}

/// The first rule, in order, that rejects `s` as a target for activation.
pub open spec fn rejection_of(s: Seq<char>) -> Option<Rejection> {
    if is_own_application(s) {
        Some(Rejection::OwnApplication)
    } else if is_unresolved_container(s) {
        Some(Rejection::UnresolvedContainer)
    } else if is_system_process(s) {
        Some(Rejection::SystemProcess)
    } else if looks_like_daemon(s) {
        Some(Rejection::DaemonPattern)
    } else if is_too_short(s) {
        Some(Rejection::TooShort)
    } else {
        None
    }
}

/// `s` may be activated.
pub open spec fn eligible(s: Seq<char>) -> bool {
    rejection_of(s) is None
}

/// `s` may be recorded in the focus history: the narrower rule set, which
/// keeps out the picker itself, the unresolved container and garbage reads.
pub open spec fn valid_name(s: Seq<char>) -> bool {
    !is_own_application(s) && !is_unresolved_container(s) && !is_too_short(s)
}

/// A name that holds the branding word is neither eligible for activation
/// nor fit to be recorded, whatever else it holds.
pub proof fn lemma_branding_rejected(s: Seq<char>)
    requires
        has_substring(s, BRANDING@),
    ensures
        !eligible(s),
        !valid_name(s),
{
}

/// Every deny-listed system process is ineligible; a name of at least two
/// characters that is not deny-listed and that no other rule matches (the
/// picker itself, the unresolved container, daemon or agent naming) is
/// eligible.
pub proof fn lemma_denylist(s: Seq<char>)
    ensures
        is_system_process(s) ==> !eligible(s),
        !is_system_process(s) && !is_own_application(s) && !is_unresolved_container(s)
            && !looks_like_daemon(s) && s.len() >= 2 ==> eligible(s),
{
}

fn own_application(name: &str) -> (r: bool)
    ensures
        r == is_own_application(name@),
{
    contains_str(name, OWN_DISPLAY_NAME) || same_text(name, OWN_PROCESS_NAME) || contains_str(
        name,
        BRANDING,
    )
}

fn system_process(name: &str) -> (r: bool)
    ensures
        r == is_system_process(name@),
{
    let names: Vec<&str> = vec![
        "universalaccessd", "Dock", "Finder", "SystemUIServer", "ControlCenter",
        "WindowServer", "loginwindow", "kernel_task", "launchd", "syslogd",
        "UserEventAgent", "cfprefsd", "distnoted", "NotificationCenter",
        "Spotlight", "mds", "mdworker", "CoreServicesUIAgent", "AirPlayUIAgent",
    ];
    let ghost views = names@.map_values(|t: &str| t@);
    assert(views =~= system_processes());
    let mut i: usize = 0;
    while i < names.len()
        invariant
            views == names@.map_values(|t: &str| t@),
            views == system_processes(),
            i <= names.len(),
            forall|k: int| 0 <= k < i ==> views[k] != name@,
        decreases names.len() - i,
    {
        if same_text(name, names[i]) {
            assert(views[i as int] == name@);
            return true;
        }
        i = i + 1;
    }
    assert(!views.contains(name@));
    false
}

fn daemon_like(name: &str) -> (r: bool)
    ensures
        r == looks_like_daemon(name@),
{
    let c = chars_of(name);
    let n = c.len();
    if n > 3 && c[n - 1] == 'd' {
        return true;
    }
    let agent = chars_of(AGENT_MARKER);
    contains_chars(&c, &agent)
}

/// The reason `name` may not be activated, or `None` when it may.
pub fn rejection(name: &str) -> (r: Option<Rejection>)
    ensures
        r == rejection_of(name@),
{
    if own_application(name) {
        Some(Rejection::OwnApplication)
    } else if same_text(name, CONTAINER_PROCESS) {
        Some(Rejection::UnresolvedContainer)
    } else if system_process(name) {
        Some(Rejection::SystemProcess)
    } else if daemon_like(name) {
        Some(Rejection::DaemonPattern)
    } else if name.unicode_len() < 2 {
        Some(Rejection::TooShort)
    } else {
        None
    }
}

/// Whether `name` is a legitimate target for activation.
pub fn is_eligible(name: &str) -> (r: bool)
    ensures
        r == eligible(name@),
{
    rejection(name).is_none()
}

/// Whether `name` may be stored in the focus history.
pub fn is_valid_app_name(name: &str) -> (r: bool)
    ensures
        r == valid_name(name@),
{
    !own_application(name) && !same_text(name, CONTAINER_PROCESS) && name.unicode_len() >= 2
}

} // verus!
