//! Which project events make the sidebar redraw.

use vstd::prelude::*;

verus! {

/// The kinds of project event that the sidebar tells apart.
pub enum ProjectEventKind {
    WorktreeAdded,
    WorktreeRemoved,
    WorktreeOrderChanged,
    /// Any other project event.
    Other,
}

/// Whether a project event changes what the sidebar shows of its workspace:
/// exactly when a worktree was added, removed or reordered.
pub fn requires_refresh(event: &ProjectEventKind) -> (r: bool)
    ensures
        r == (*event !is Other),
{
    match event {
        ProjectEventKind::WorktreeAdded => true,
        ProjectEventKind::WorktreeRemoved => true,
        ProjectEventKind::WorktreeOrderChanged => true,
        ProjectEventKind::Other => false,
    }
}

} // verus!
