//! Choosing an activation target from the process lists the operating system
//! reports, when no recorded identity is at hand.
//!
//! Every entry is resolved first (the container's generic name through its
//! bundle path), then the candidates are tried in one fixed order: an entry
//! naming a known application, then the first eligible entry of the
//! frontmost list (most recent first), then the last eligible entry of the
//! visible list (the most recently launched).
use vstd::prelude::*;

use crate::eligibility::{eligible, is_eligible};
use crate::resolver::{
    find_known_application, known_application, resolve_name, resolved_name, RawIdentityView,
};
use crate::text::{names_view, opt_str_view, opt_view};

verus! {

/// Each name of `list` resolved, with `path` as the container's bundle path.
pub open spec fn resolved_list(list: Seq<Seq<char>>, path: Option<Seq<char>>) -> Seq<Seq<char>> {
    Seq::new(
        list.len(),
        |i: int| resolved_name(RawIdentityView { name: list[i], backing_path: path }),
    )
}

/// The canonical name of the first entry, from the `i`-th on, that names a
/// known application.
pub open spec fn first_known_from(list: Seq<Seq<char>>, i: int) -> Option<Seq<char>>
    decreases list.len() - i,
{
    if i < 0 || i >= list.len() {
        None
    } else if known_application(list[i]) is Some {
        known_application(list[i])
    } else {
        first_known_from(list, i + 1)
    }
}

/// The first eligible entry, from the `i`-th on.
pub open spec fn first_eligible_from(list: Seq<Seq<char>>, i: int) -> Option<Seq<char>>
    decreases list.len() - i,
{
    if i < 0 || i >= list.len() {
        None
    } else if eligible(list[i]) {
        Some(list[i])
    } else {
        first_eligible_from(list, i + 1)
    }
}

/// The last eligible entry among the first `i`.
pub open spec fn last_eligible_before(list: Seq<Seq<char>>, i: int) -> Option<Seq<char>>
    decreases i,
{
    if i <= 0 || i > list.len() {
        None
    } else if eligible(list[i - 1]) {
        Some(list[i - 1])
    } else {
        last_eligible_before(list, i - 1)
    }
}

/// The target chosen from the frontmost list and the visible list.
pub open spec fn detected_target(
    frontmost: Seq<Seq<char>>,
    visible: Seq<Seq<char>>,
    path: Option<Seq<char>>,
) -> Option<Seq<char>> {
    let f = resolved_list(frontmost, path);
    let v = resolved_list(visible, path);
    if first_known_from(f, 0) is Some {
        first_known_from(f, 0)
    } else if first_known_from(v, 0) is Some {
        first_known_from(v, 0)
    } else if first_eligible_from(f, 0) is Some {
        first_eligible_from(f, 0)
    } else {
        last_eligible_before(v, v.len() as int)
    }
}

fn resolve_all(list: &Vec<String>, path: Option<&str>) -> (r: Vec<String>)
    ensures
        names_view(r@) == resolved_list(names_view(list@), opt_str_view(path)),
{
    let mut r: Vec<String> = Vec::new();
    let mut i: usize = 0;
    while i < list.len()
        invariant
            i <= list.len(),
            r@.len() == i,
            forall|k: int|
                0 <= k < i ==> r@[k]@ == resolved_name(
                    RawIdentityView { name: list@[k]@, backing_path: opt_str_view(path) },
                ),
        decreases list.len() - i,
    {
        let name = resolve_name(list[i].as_str(), path);
        r.push(name);
        i = i + 1;
    }
    assert(names_view(r@) =~= resolved_list(names_view(list@), opt_str_view(path)));
    r
}

fn first_known(list: &Vec<String>) -> (r: Option<String>)
    ensures
        opt_view(r) == first_known_from(names_view(list@), 0),
{
    let ghost names = names_view(list@);
    let mut i: usize = 0;
    while i < list.len()
        invariant
            names == names_view(list@),
            i <= list.len(),
            first_known_from(names, 0) == first_known_from(names, i as int),
        decreases list.len() - i,
    {
        let found = find_known_application(list[i].as_str());
        if found.is_some() {
            return found;
        }
        i = i + 1;
    }
    None
}

fn first_eligible(list: &Vec<String>) -> (r: Option<String>)
    ensures
        opt_view(r) == first_eligible_from(names_view(list@), 0),
{
    let ghost names = names_view(list@);
    let mut i: usize = 0;
    while i < list.len()
        invariant
            names == names_view(list@),
            i <= list.len(),
            first_eligible_from(names, 0) == first_eligible_from(names, i as int),
        decreases list.len() - i,
    {
        if is_eligible(list[i].as_str()) {
            return Some(list[i].clone());
        }
        i = i + 1;
    }
    None
}

fn last_eligible(list: &Vec<String>) -> (r: Option<String>)
    ensures
        opt_view(r) == last_eligible_before(names_view(list@), list@.len() as int),
{
    let ghost names = names_view(list@);
    let mut i: usize = list.len();
    while i > 0
        invariant
            names == names_view(list@),
            i <= list.len(),
            last_eligible_before(names, list@.len() as int) == last_eligible_before(
                names,
                i as int,
            ),
        decreases i,
    {
        if is_eligible(list[i - 1].as_str()) {
            return Some(list[i - 1].clone());
        }
        i = i - 1;
    }
    None
}

/// The application to activate, chosen from the names of the frontmost
/// processes (most recent first) and of the visible processes (in the order
/// the operating system enumerates them), with `container_path` the bundle
/// path of the container process where one was obtained.  `None` when no
/// entry qualifies.
pub fn detect_target_app(
    frontmost: &Vec<String>,
    visible: &Vec<String>,
    container_path: Option<&str>,
) -> (r: Option<String>)
    ensures
        opt_view(r) == detected_target(
            names_view(frontmost@),
            names_view(visible@),
            opt_str_view(container_path),
        ),
{
    let f = resolve_all(frontmost, container_path);
    let v = resolve_all(visible, container_path);
    let known = first_known(&f);
    if known.is_some() {
        return known;
    }
    let known = first_known(&v);
    if known.is_some() {
        return known;
    }
    let front = first_eligible(&f);
    if front.is_some() {
        return front;
    }
    last_eligible(&v)
}

} // verus!
