//! Resolution of the container runtime's generic process name to the
//! concrete application it hosts, from the process's backing bundle path.
use vstd::prelude::*;

use crate::eligibility::CONTAINER_PROCESS;
use crate::text::{chars_of, contains_str, has_substring, occurs_at, opt_str_view, opt_view, same_text};

verus! {

/// The suffix that application bundles carry on their directory name.
pub const BUNDLE_SUFFIX: &'static str = ".app";

/// A frontmost process as the operating system reported it: its displayed
/// name and, where it was asked for and obtained, the path of its bundle.
pub struct RawIdentity {
    pub name: String,
    pub backing_path: Option<String>,
}

pub struct RawIdentityView {
    pub name: Seq<char>,
    pub backing_path: Option<Seq<char>>,
}

impl View for RawIdentity {
    type V = RawIdentityView;

    open spec fn view(&self) -> RawIdentityView {
        RawIdentityView {
            name: self.name@,
            backing_path: match self.backing_path {
                Some(p) => Some(p@),
                None => None,
            },
        }
    }
}

/// Known applications recognised by a marker in their bundle path, each with
/// its canonical name; the first marker found wins.
pub open spec fn markers() -> Seq<(Seq<char>, Seq<char>)> {
    seq![
        ("DaVinci Resolve"@, "DaVinci Resolve"@),
        ("Qoder"@, "Qoder"@),
        ("qoder"@, "Qoder"@),
    ]
}

/// The canonical name of the first marker, from the `k`-th on, that occurs
/// in `path`.
pub open spec fn marker_from(path: Seq<char>, k: int) -> Option<Seq<char>>
    decreases markers().len() - k,
{
    if k < 0 || k >= markers().len() {
        None
    } else if has_substring(path, markers()[k].0) {
        Some(markers()[k].1)
    } else {
        marker_from(path, k + 1)
    }
}

/// The canonical name of the first known marker in `path`, if any.
pub open spec fn known_application(path: Seq<char>) -> Option<Seq<char>> {
    marker_from(path, 0)
}

/// Where the segment after the last `/` among the first `i` characters of
/// `p` starts.
pub open spec fn segment_start(p: Seq<char>, i: int) -> int
    decreases i,
{
    if i <= 0 {
        0
    } else if p[i - 1] == '/' {
        i
    } else {
        segment_start(p, i - 1)
    }
}

/// What follows the last `/` of `p` (all of `p` where it has none).
pub open spec fn last_segment(p: Seq<char>) -> Seq<char> {
    p.subrange(segment_start(p, p.len() as int), p.len() as int)
}

/// `s` without the bundle suffix, where it ends with one.
pub open spec fn strip_bundle_suffix(s: Seq<char>) -> Seq<char> {
    let k = BUNDLE_SUFFIX@.len();
    if s.len() >= k && s.subrange(s.len() - k, s.len() as int) == BUNDLE_SUFFIX@ {
        s.subrange(0, s.len() - k)
    } else {
        s
    }
}

/// The application named by a bundle path: a known marker's canonical name,
/// else the last path segment without the bundle suffix.
pub open spec fn name_from_path(path: Seq<char>) -> Seq<char> {
    match known_application(path) {
        Some(c) => c,
        None => strip_bundle_suffix(last_segment(path)),
    }
}

/// The name that a raw identity resolves to.  Only the container's generic
/// name is resolved, and only from a non-empty path; otherwise the raw name
/// passes through unchanged.
pub open spec fn resolved_name(raw: RawIdentityView) -> Seq<char> {
    if raw.name == CONTAINER_PROCESS@ {
        match raw.backing_path {
            Some(p) => if p.len() > 0 {
                name_from_path(p)
            } else {
                raw.name
            },
            None => raw.name,
        }
    } else {
        raw.name
    }
}

proof fn lemma_segment_start_bounds(p: Seq<char>, i: int)
    requires
        0 <= i <= p.len(),
    ensures
        0 <= segment_start(p, i) <= i,
        forall|k: int| segment_start(p, i) <= k < i ==> p[k] != '/',
    decreases i,
{
    if i > 0 && p[i - 1] != '/' {
        lemma_segment_start_bounds(p, i - 1);
    }
}

proof fn lemma_marker_from_agrees(path: Seq<char>, j: int, k: int)
    requires
        0 <= j <= k < markers().len(),
        has_substring(path, markers()[k].0),
        forall|i: int|
            0 <= i < k && markers()[i].1 != markers()[k].1 ==> !has_substring(
                path,
                markers()[i].0,
            ),
    ensures
        marker_from(path, j) == Some(markers()[k].1),
    decreases k - j,
{
    if j < k && !has_substring(path, markers()[j].0) {
        lemma_marker_from_agrees(path, j + 1, k);
    }
}

/// The container's generic name, with a bundle path that holds a known
/// marker, resolves to that marker's canonical name whatever text surrounds
/// the marker in the path, so long as no marker earlier in the table that
/// names another application occurs there too.
pub proof fn lemma_marker_resolution(prefix: Seq<char>, suffix: Seq<char>, k: int)
    requires
        0 <= k < markers().len(),
        forall|i: int|
            0 <= i < k && markers()[i].1 != markers()[k].1 ==> !has_substring(
                prefix + markers()[k].0 + suffix,
                markers()[i].0,
            ),
    ensures
        resolved_name(
            RawIdentityView {
                name: CONTAINER_PROCESS@,
                backing_path: Some(prefix + markers()[k].0 + suffix),
            },
        ) == markers()[k].1,
{
    let m = markers()[k].0;
    let path = prefix + m + suffix;
    assert(path.subrange(prefix.len() as int, (prefix.len() + m.len()) as int) =~= m);
    assert(occurs_at(path, m, prefix.len() as int));
    lemma_marker_from_agrees(path, 0, k);
    reveal_strlit("DaVinci Resolve");
    reveal_strlit("Qoder");
    reveal_strlit("qoder");
    assert(m.len() > 0);
}

/// Whether `name` is the container runtime's generic name, for which the
/// caller should obtain the bundle path before resolving.
pub fn is_container(name: &str) -> (r: bool)
    ensures
        r == (name@ == CONTAINER_PROCESS@),
{
    same_text(name, CONTAINER_PROCESS)
}

/// The canonical name of the first known marker in `path`.
pub(crate) fn find_known_application(path: &str) -> (r: Option<String>)
    ensures
        match r {
            Some(c) => known_application(path@) == Some(c@),
            None => known_application(path@) is None,
        },
{
    let table: Vec<(&str, &str)> = vec![
        ("DaVinci Resolve", "DaVinci Resolve"),
        ("Qoder", "Qoder"),
        ("qoder", "Qoder"),
    ];
    let ghost views = table@.map_values(|e: (&str, &str)| (e.0@, e.1@));
    assert(views =~= markers());
    let mut i: usize = 0;
    while i < table.len()
        invariant
            views == table@.map_values(|e: (&str, &str)| (e.0@, e.1@)),
            views == markers(),
            i <= table.len(),
            known_application(path@) == marker_from(path@, i as int),
        decreases table.len() - i,
    {
        let (marker, canonical) = table[i];
        if contains_str(path, marker) {
            return Some(String::from_str(canonical));
        }
        i = i + 1;
    }
    None
}

/// The last segment of `path` without the bundle suffix.
fn bundle_name(path: &str) -> (r: String)
    ensures
        r@ == strip_bundle_suffix(last_segment(path@)),
{
    let c = chars_of(path);
    let n = c.len();
    let mut start: usize = n;
    while start > 0 && c[start - 1] != '/'
        invariant
            c@ == path@,
            n == c@.len(),
            start <= n,
            segment_start(path@, n as int) == segment_start(path@, start as int),
        decreases start,
    {
        start = start - 1;
    }
    proof {
        lemma_segment_start_bounds(path@, n as int);
    }
    let segment = path.substring_char(start, n);
    let m = segment.unicode_len();
    let suffix = chars_of(BUNDLE_SUFFIX);
    let k = suffix.len();
    if m >= k && same_text(segment.substring_char(m - k, m), BUNDLE_SUFFIX) {
        String::from_str(segment.substring_char(0, m - k))
    } else {
        String::from_str(segment)
    }
}

/// The application hosted by a container process whose bundle path is
/// `bundle_path`; `None` when the path is empty, that is, was not obtained.
pub fn get_electron_app_name(bundle_path: &str) -> (r: Option<String>)
    ensures
        opt_view(r) == if bundle_path@.len() == 0 {
            None
        } else {
            Some(name_from_path(bundle_path@))
        },
{
    if bundle_path.unicode_len() == 0 {
        return None;
    }
    match find_known_application(bundle_path) {
        Some(c) => Some(c),
        None => Some(bundle_name(bundle_path)),
    }
}

/// The name that a process named `name`, with bundle path `backing_path`
/// where one was obtained, resolves to.
pub fn resolve_name(name: &str, backing_path: Option<&str>) -> (r: String)
    ensures
        r@ == resolved_name(RawIdentityView { name: name@, backing_path: opt_str_view(backing_path) }),
{
    if is_container(name) {
        match backing_path {
            Some(p) => match get_electron_app_name(p) {
                Some(resolved) => return resolved,
                None => {},
            },
            None => {},
        }
    }
    String::from_str(name)
}

/// The name that `raw` resolves to: the hosted application for the
/// container's generic name when a bundle path was obtained, else the raw
/// name as it stands.
pub fn resolve(raw: &RawIdentity) -> (r: String)
    ensures
        r@ == resolved_name(raw@),
{
    match &raw.backing_path {
        Some(p) => resolve_name(raw.name.as_str(), Some(p.as_str())),
        None => resolve_name(raw.name.as_str(), None),
    }
}

} // verus!
