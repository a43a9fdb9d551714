//! Which file-system events on the configuration file ask for a reload.

use vstd::prelude::*;

use crate::text::str_eq;

verus! {

/// Signal emitted when the configuration file changes on disk.
#[derive(Debug, Clone)]
pub struct ReloadSignal {
    /// Path that triggered the reload
    pub path: String,
}

/// The kinds of file-system events that matter here.
#[derive(Debug, Clone, Copy, PartialEq, Eq, Structural)]
pub enum WatchEventKind {
    /// The file's data was modified
    ModifyData,
    /// The file was modified in an unspecified way
    ModifyAny,
    /// A file was created
    Create,
    /// Anything else (access, metadata, rename, removal)
    Other,
}

/// An event asks for a reload when it modifies data (or anything unspecified) or creates
/// a file, and one of its paths is the configuration file.
pub open spec fn asks_reload(kind: WatchEventKind, paths: Seq<String>, target: Seq<char>) -> bool {
    kind != WatchEventKind::Other && exists|i: int| 0 <= i < paths.len() && (#[trigger] paths[i])@ == target
}

/// The reload signal for an event, if it asks for one.
pub fn reload_signal_for(kind: WatchEventKind, paths: &Vec<String>, target: &str) -> (r: Option<ReloadSignal>)
    ensures
        r is Some <==> asks_reload(kind, paths@, target@),
        r matches Some(s) ==> s.path@ == target@,
{
    if kind == WatchEventKind::Other {
        return None;
    }
    let mut i: usize = 0;
    while i < paths.len()
        invariant
            i <= paths@.len(),
            kind != WatchEventKind::Other,
            forall|m: int| 0 <= m < i ==> (#[trigger] paths@[m])@ != target@,
        decreases paths@.len() - i,
    {
        if str_eq(paths[i].as_str(), target) {
            proof {
                assert((paths@[i as int])@ == target@);
            }
            return Some(ReloadSignal { path: String::from_str(target) });
        }
        i = i + 1;
    }
    None
}

} // verus!
