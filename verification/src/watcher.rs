//! Classification of filesystem events into pod events.
//!
//! The pod root is watched recursively.  A file created under `apply/`
//! means "play this descriptor"; a rename whose source lies under `apply/`
//! and whose destination lies under `down/` means "tear it down".  Anything
//! else is noise and dropped.  Both the OS-notification and the polling
//! watcher feed their raw events through this one classifier, so the two
//! produce the same pod events.

use vstd::prelude::*;

use crate::text::{after_last_char, before_last_char, spec_after_last, spec_before_last, str_eq};
use crate::worker::{Event, PodOps};

verus! {

/// The shapes of raw filesystem events the watcher reacts to.
#[derive(Debug, Copy, Clone, PartialEq, Eq, Structural)]
pub enum WatchKind {
    /// A file came into being; one path: the new file.
    CreateFile,
    /// A file was renamed; two paths: source, then destination.
    RenameBoth,
    /// Anything else.
    Other,
}

/// The name of the directory a path's file sits in: the segment between the
/// last two separators.
pub open spec fn spec_parent_name(p: Seq<char>) -> Seq<char> {
    spec_after_last(spec_before_last(p, '/'), '/')
}

/// Is this path a file directly under an `apply/` directory?
pub open spec fn spec_under_apply(p: Seq<char>) -> bool {
    spec_parent_name(p) == "apply"@
}

/// Is this path a file directly under a `down/` directory?
pub open spec fn spec_under_down(p: Seq<char>) -> bool {
    spec_parent_name(p) == "down"@
}

/// The name of the directory the file at `p` sits in.
pub fn parent_name(p: &str) -> (r: String)
    ensures
        r@ == spec_parent_name(p@),
{
    let dir = before_last_char(p, '/');
    after_last_char(dir.as_str(), '/')
}

/// Classifies one raw filesystem event, per the rules above: a creation
/// under `apply/` becomes `Apply` of that path; a rename from under
/// `apply/` to under `down/` becomes `Down` of the destination; everything
/// else, including events with too few paths, becomes nothing.
pub fn pod_event(kind: WatchKind, paths: &Vec<String>) -> (r: Option<Event>)
    ensures
        kind == WatchKind::CreateFile && paths@.len() >= 1 && spec_under_apply(paths@[0]@) ==> (
        r matches Some(ev) && ev.ops == PodOps::Apply && ev.yaml@ == paths@[0]@),
        kind == WatchKind::RenameBoth && paths@.len() >= 2 && spec_under_apply(paths@[0]@)
            && spec_under_down(paths@[1]@) ==> (r matches Some(ev) && ev.ops == PodOps::Down
            && ev.yaml@ == paths@[1]@),
        !(kind == WatchKind::CreateFile && paths@.len() >= 1 && spec_under_apply(paths@[0]@)) && !(
        kind == WatchKind::RenameBoth && paths@.len() >= 2 && spec_under_apply(paths@[0]@)
            && spec_under_down(paths@[1]@)) ==> r is None,
{
    match kind {
        WatchKind::CreateFile => {
            if paths.len() < 1 {
                return None;
            }
            let parent = parent_name(paths[0].as_str());
            if str_eq(parent.as_str(), "apply") {
                Some(Event { ops: PodOps::Apply, yaml: paths[0].clone() })
            } else {
                None
            }
        },
        WatchKind::RenameBoth => {
            if paths.len() < 2 {
                return None;
            }
            let src_parent = parent_name(paths[0].as_str());
            let des_parent = parent_name(paths[1].as_str());
            if str_eq(src_parent.as_str(), "apply") && str_eq(des_parent.as_str(), "down") {
                Some(Event { ops: PodOps::Down, yaml: paths[1].clone() })
            } else {
                None
            }
        },
        WatchKind::Other => None,
    }
}

} // verus!
