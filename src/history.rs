//! The two most recently observed applications that focus may go back to.
use vstd::prelude::*;

use crate::eligibility::{eligible, is_eligible, is_valid_app_name, valid_name, CONTAINER_PROCESS};
use crate::resolver::{name_from_path, resolve, resolved_name, RawIdentity, RawIdentityView};
use crate::text::opt_view;

verus! {

/// What a frontmost-process query gave, as a model.
pub open spec fn observed_view(o: Option<RawIdentity>) -> Option<RawIdentityView> {
    match o {
        Some(r) => Some(r@),
        None => None,
    }
}

/// The last recorded application and the one recorded before it.
pub struct FocusHistory {
    last: Option<String>,
    previous: Option<String>,
}

pub struct HistoryView {
    pub last: Option<Seq<char>>,
    pub previous: Option<Seq<char>>,
}

impl View for FocusHistory {
    type V = HistoryView;

    closed spec fn view(&self) -> HistoryView {
        HistoryView { last: opt_view(self.last), previous: opt_view(self.previous) }
    }
}

/// An entry that is absent or holds a name fit to be recorded.
pub open spec fn entry_valid(e: Option<Seq<char>>) -> bool {
    e is None || valid_name(e->0)
}

/// The name to record for a frontmost process: its resolved name, where that
/// is fit to be recorded.
pub open spec fn frontmost_app(raw: RawIdentityView) -> Option<Seq<char>> {
    if valid_name(resolved_name(raw)) {
        Some(resolved_name(raw))
    } else {
        None
    }
}

/// The history after a capture that observed `observed`: the name to record
/// for it, if any, becomes the last entry and the former last entry becomes
/// the previous one; otherwise the history stays as it was.
pub open spec fn after_capture(h: HistoryView, observed: Option<RawIdentityView>) -> HistoryView {
    match observed {
        Some(raw) => match frontmost_app(raw) {
            Some(name) => HistoryView { last: Some(name), previous: h.last },
            None => h,
        },
        None => h,
    }
}

/// The name to record for the frontmost process `frontmost`: the container's
/// generic name is resolved through its bundle path, and the result is kept
/// only where it is fit to be recorded.
pub fn get_frontmost_app(frontmost: &RawIdentity) -> (r: Option<String>)
    ensures
        opt_view(r) == frontmost_app(frontmost@),
{
    let name = resolve(frontmost);
    if is_valid_app_name(name.as_str()) {
        Some(name)
    } else {
        None
    }
}

/// The entry that focus should go back to: the last one where it is
/// eligible, else the previous one where that is, else nothing.
pub open spec fn restoration_target(h: HistoryView) -> Option<Seq<char>> {
    if h.last is Some && eligible(h.last->0) {
        h.last
    } else if h.previous is Some && eligible(h.previous->0) {
        h.previous
    } else {
        None
    }
}

/// Two captures in a row, of eligible applications, leave the second as the
/// last entry and the first as the previous one.
pub proof fn lemma_capture_twice(h: HistoryView, a: RawIdentityView, b: RawIdentityView)
    requires
        eligible(a.name),
        eligible(b.name),
    ensures
        after_capture(after_capture(h, Some(a)), Some(b)) == (HistoryView {
            last: Some(b.name),
            previous: Some(a.name),
        }),
{
}

/// A capture for which the frontmost query gave nothing leaves the history
/// as it was.
pub proof fn lemma_capture_nothing(h: HistoryView)
    ensures
        after_capture(h, None) == h,
{
}

/// A capture of the container's generic name that does not resolve to
/// another name (no bundle path, an empty one, or one that names the
/// container itself) leaves the history as it was.
pub proof fn lemma_unresolved_container_ignored(h: HistoryView, raw: RawIdentityView)
    requires
        raw.name == CONTAINER_PROCESS@,
        raw.backing_path is None || raw.backing_path->0.len() == 0 || name_from_path(
            raw.backing_path->0,
        ) == CONTAINER_PROCESS@,
    ensures
        after_capture(h, Some(raw)) == h,
{
}

/// Restoration falls back to the previous entry when the last one is not
/// eligible and the previous one is, and targets nothing when neither is
/// present and eligible.
pub proof fn lemma_restoration_fallback(h: HistoryView)
    ensures
        !(h.last is Some && eligible(h.last->0)) && h.previous is Some && eligible(h.previous->0)
            ==> restoration_target(h) == h.previous,
        !(h.last is Some && eligible(h.last->0)) && !(h.previous is Some && eligible(
            h.previous->0,
        )) ==> restoration_target(h) is None,
{
}

fn copy_entry(e: &Option<String>) -> (r: Option<String>)
    ensures
        opt_view(r) == opt_view(*e),
{
    match e {
        Some(s) => Some(s.clone()),
        None => None,
    }
}

impl FocusHistory {
    #[verifier::type_invariant]
    spec fn inv(self) -> bool {
        entry_valid(opt_view(self.last)) && entry_valid(opt_view(self.previous))
    }

    /// An empty history.
    pub fn new() -> (r: FocusHistory)
        ensures
            r@.last is None,
            r@.previous is None,
    {
        FocusHistory { last: None, previous: None }
    }

    /// Records the application that a frontmost query observed, if it
    /// resolves to a name fit to be recorded; does nothing otherwise,
    /// including when the query gave nothing.
    pub fn capture(&mut self, frontmost: Option<RawIdentity>)
        ensures
            final(self)@ == after_capture(old(self)@, observed_view(frontmost)),
            entry_valid(final(self)@.last),
            entry_valid(final(self)@.previous),
    {
        proof {
            use_type_invariant(&*self);
        }
        match frontmost {
            Some(raw) => match get_frontmost_app(&raw) {
                Some(name) => {
                    let prior = copy_entry(&self.last);
                    *self = FocusHistory { last: Some(name), previous: prior };
                },
                None => {},
            },
            None => {},
        }
    }

    /// The application that focus should be handed back to, if any.
    pub fn take_restoration_target(&self) -> (r: Option<String>)
        ensures
            opt_view(r) == restoration_target(self@),
    {
        match &self.last {
            Some(l) => {
                if is_eligible(l.as_str()) {
                    return Some(l.clone());
                }
            },
            None => {},
        }
        match &self.previous {
            Some(p) => {
                if is_eligible(p.as_str()) {
                    return Some(p.clone());
                }
            },
            None => {},
        }
        None
    }

    /// The last recorded application.
    pub fn last(&self) -> (r: Option<String>)
        ensures
            opt_view(r) == self@.last,
    {
        copy_entry(&self.last)
    }

    /// The application recorded before the last one.
    pub fn previous(&self) -> (r: Option<String>)
        ensures
            opt_view(r) == self@.previous,
    {
        copy_entry(&self.previous)
    }
}

} // verus!
