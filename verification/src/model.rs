//! What the sidebar shows: one row per open workspace, or a notice.

use vstd::prelude::*;

use crate::digits::{decimal, lemma_suffix_injective, with_decimal_suffix};
use crate::label::{
    WorktreeInfo, law_label_and_full_path, names_in_order, paths_in_order, separated,
    workspace_full_path, workspace_label, workspace_label_and_path,
};

verus! {

/// What the sidebar reads of one workspace: its entity id and its worktrees.
pub struct WorkspaceSnapshot {
    pub id: u64,
    pub worktrees: Vec<WorktreeInfo>,
}

/// What the sidebar reads of the window's multi-workspace.
pub struct MultiWorkspaceSnapshot {
    /// The open workspaces, in the order the multi-workspace keeps them.
    pub workspaces: Vec<WorkspaceSnapshot>,
    /// The entity id of the active workspace.
    pub active: u64,
    /// Whether the build lets a window hold several workspaces.
    pub multi_workspace_enabled: bool,
}

/// One workspace as the sidebar lists it.
pub struct WorkspaceEntry {
    pub label: String,
    pub full_path: String,
    pub workspace: u64,
}

/// `entry` describes `workspace`.
pub open spec fn entry_describes(entry: WorkspaceEntry, workspace: WorkspaceSnapshot) -> bool {
    &&& entry.label@ == workspace_label(workspace.worktrees@)
    &&& entry.full_path@ == workspace_full_path(workspace.worktrees@)
    &&& entry.workspace == workspace.id
}

/// The sidebar's entries: one per workspace of the multi-workspace, in its
/// order; none when the multi-workspace is gone.
pub fn workspace_entries(multi_workspace: Option<&MultiWorkspaceSnapshot>) -> (entries: Vec<
    WorkspaceEntry,
>)
    ensures
        match multi_workspace {
            None => entries@.len() == 0,
            Some(mw) => {
                &&& entries@.len() == mw.workspaces@.len()
                &&& forall|i: int|
                    0 <= i < entries@.len() ==> entry_describes(
                        #[trigger] entries@[i],
                        mw.workspaces@[i],
                    )
            },
        },
{
    let mut entries: Vec<WorkspaceEntry> = Vec::new();
    match multi_workspace {
        None => entries,
        Some(mw) => {
            let n = mw.workspaces.len();
            let mut i: usize = 0;
            while i < n
                invariant
                    n == mw.workspaces@.len(),
                    0 <= i <= n,
                    entries@.len() == i,
                    forall|j: int|
                        0 <= j < i ==> entry_describes(#[trigger] entries@[j], mw.workspaces@[j]),
                decreases n - i,
            {
                let workspace = &mw.workspaces[i];
                let (label, full_path) = workspace_label_and_path(&workspace.worktrees);
                entries.push(WorkspaceEntry { label, full_path, workspace: workspace.id });
                i = i + 1;
            }
            entries
        },
    }
}

/// One row of the sidebar.
pub struct EntryView {
    /// The row's element id: "workspace-entry-" and its index.
    pub element_id: String,
    pub label: String,
    pub full_path: String,
    pub workspace: u64,
    /// The row is highlighted as the active workspace.
    pub is_active: bool,
    /// The id of the row's remove button, when it has one.
    pub remove_button_id: Option<String>,
    /// Hovering the row shows the workspace's full path.
    pub shows_path_tooltip: bool,
}

/// The body of the sidebar.
pub enum SidebarContent {
    /// The build does not support several workspaces per window.
    Unavailable,
    /// No workspace is open.
    NoWorkspaces,
    /// One row per workspace.
    Entries(Vec<EntryView>),
}

/// `view` is the row at `index` of `count` rows, for the workspace `workspace`
/// with the given label and full path, while `active` is the active one.
pub open spec fn row_matches(
    view: EntryView,
    label: Seq<char>,
    full_path: Seq<char>,
    workspace: u64,
    index: nat,
    count: nat,
    active: Option<u64>,
) -> bool {
    &&& view.element_id@ == "workspace-entry-"@ + decimal(index)
    &&& view.label@ == label
    &&& view.full_path@ == full_path
    &&& view.workspace == workspace
    &&& view.is_active == (active == Some(workspace))
    &&& (view.remove_button_id is Some) == (count > 1)
    &&& (view.remove_button_id matches Some(id) ==> id@ == "remove-workspace-"@ + decimal(index))
    &&& view.shows_path_tooltip == (full_path.len() > 0)
}

/// `content` is what the sidebar shows for `entries`, with `active` the
/// active workspace and `enabled` whether several workspaces are supported.
pub open spec fn content_for_entries(
    content: SidebarContent,
    entries: Seq<WorkspaceEntry>,
    active: Option<u64>,
    enabled: bool,
) -> bool {
    if !enabled {
        content is Unavailable
    } else if entries.len() == 0 {
        content is NoWorkspaces
    } else {
        &&& content matches SidebarContent::Entries(rows)
        &&& rows@.len() == entries.len()
        &&& forall|i: int|
            0 <= i < entries.len() ==> row_matches(
                #[trigger] rows@[i],
                entries[i].label@,
                entries[i].full_path@,
                entries[i].workspace,
                i as nat,
                entries.len(),
                active,
            )
    }
}

/// `content` is what the sidebar shows for the multi-workspace `mw`.
pub open spec fn content_for_multi_workspace(
    content: SidebarContent,
    mw: MultiWorkspaceSnapshot,
) -> bool {
    let workspaces = mw.workspaces@;
    if !mw.multi_workspace_enabled {
        content is Unavailable
    } else if workspaces.len() == 0 {
        content is NoWorkspaces
    } else {
        &&& content matches SidebarContent::Entries(rows)
        &&& rows@.len() == workspaces.len()
        &&& forall|i: int|
            0 <= i < workspaces.len() ==> row_matches(
                #[trigger] rows@[i],
                workspace_label(workspaces[i].worktrees@),
                workspace_full_path(workspaces[i].worktrees@),
                workspaces[i].id,
                i as nat,
                workspaces.len(),
                Some(mw.active),
            )
    }
}

/// The sidebar's body for `entries`, with `active` the active workspace and
/// `multi_workspace_enabled` whether several workspaces are supported.
pub fn sidebar_content(
    entries: &Vec<WorkspaceEntry>,
    active: Option<u64>,
    multi_workspace_enabled: bool,
) -> (content: SidebarContent)
    ensures
        content_for_entries(content, entries@, active, multi_workspace_enabled),
{
    if !multi_workspace_enabled {
        return SidebarContent::Unavailable;
    }
    let count = entries.len();
    if count == 0 {
        return SidebarContent::NoWorkspaces;
    }
    let mut rows: Vec<EntryView> = Vec::new();
    let mut i: usize = 0;
    while i < count
        invariant
            count == entries@.len(),
            0 <= i <= count,
            rows@.len() == i,
            forall|j: int|
                0 <= j < i ==> row_matches(
                    #[trigger] rows@[j],
                    entries@[j].label@,
                    entries@[j].full_path@,
                    entries@[j].workspace,
                    j as nat,
                    count as nat,
                    active,
                ),
        decreases count - i,
    {
        let entry = &entries[i];
        let is_active = match active {
            Some(a) => a == entry.workspace,
            None => false,
        };
        let remove_button_id = if count > 1 {
            Some(with_decimal_suffix("remove-workspace-", i))
        } else {
            None
        };
        let shows_path_tooltip = !entry.full_path.as_str().is_empty();
        rows.push(
            EntryView {
                element_id: with_decimal_suffix("workspace-entry-", i),
                label: entry.label.clone(),
                full_path: entry.full_path.clone(),
                workspace: entry.workspace,
                is_active,
                remove_button_id,
                shows_path_tooltip,
            },
        );
        i = i + 1;
    }
    SidebarContent::Entries(rows)
}

/// The sidebar's body for the window's multi-workspace, or for none when it
/// is gone.
pub fn sidebar_view(multi_workspace: Option<&MultiWorkspaceSnapshot>) -> (content: SidebarContent)
    ensures
        match multi_workspace {
            None => content is Unavailable,
            Some(mw) => content_for_multi_workspace(content, *mw),
        },
{
    let entries = workspace_entries(multi_workspace);
    let (active, enabled) = match multi_workspace {
        Some(mw) => (Some(mw.active), mw.multi_workspace_enabled),
        None => (None, false),
    };
    let content = sidebar_content(&entries, active, enabled);
    proof {
        if let Some(mw) = multi_workspace {
            if enabled && entries@.len() > 0 {
                let rows = content->Entries_0;
                assert forall|i: int| 0 <= i < mw.workspaces@.len() implies row_matches(
                    #[trigger] rows@[i],
                    workspace_label(mw.workspaces@[i].worktrees@),
                    workspace_full_path(mw.workspaces@[i].worktrees@),
                    mw.workspaces@[i].id,
                    i as nat,
                    mw.workspaces@.len(),
                    Some(mw.active),
                ) by {
                    assert(entry_describes(entries@[i], mw.workspaces@[i]));
                }
            }
        }
    }
    content
}

impl SidebarContent {
    /// The notice shown in place of rows, if any.
    pub fn notice(&self) -> (text: Option<&'static str>)
        ensures
            match self {
                SidebarContent::Unavailable => text matches Some(
                    t,
                ) && t@ == "Multi-workspace is unavailable in this build."@,
                SidebarContent::NoWorkspaces => text matches Some(t) && t@ == "No workspaces open"@,
                SidebarContent::Entries(_) => text is None,
            },
    {
        match self {
            SidebarContent::Unavailable => Some("Multi-workspace is unavailable in this build."),
            SidebarContent::NoWorkspaces => Some("No workspaces open"),
            SidebarContent::Entries(_) => None,
        }
    }
}

/// Where `workspace` stands first in `workspaces`, if it stands there.
pub fn workspace_position(workspaces: &Vec<u64>, workspace: u64) -> (index: Option<usize>)
    ensures
        match index {
            Some(i) => {
                &&& i < workspaces@.len()
                &&& workspaces@[i as int] == workspace
                &&& forall|j: int| 0 <= j < i ==> workspaces@[j] != workspace
            },
            None => !workspaces@.contains(workspace),
        },
{
    let n = workspaces.len();
    let mut i: usize = 0;
    while i < n
        invariant
            n == workspaces@.len(),
            0 <= i <= n,
            forall|j: int| 0 <= j < i ==> workspaces@[j] != workspace,
        decreases n - i,
    {
        if workspaces[i] == workspace {
            return Some(i);
        }
        i = i + 1;
    }
    None
}

/// Whether the header leaves room for the window's traffic lights: on macOS,
/// outside full screen.
pub fn header_uses_traffic_light_padding(is_macos: bool, is_fullscreen: bool) -> (r: bool)
    ensures
        r == (is_macos && !is_fullscreen),
{
    is_macos && !is_fullscreen
}

/// No two rows of the sidebar share an element id, nor two remove buttons
/// an id.
pub proof fn lemma_row_ids_distinct(
    content: SidebarContent,
    entries: Seq<WorkspaceEntry>,
    active: Option<u64>,
    enabled: bool,
    i: int,
    j: int,
)
    requires
        content_for_entries(content, entries, active, enabled),
        content is Entries,
        0 <= i < entries.len(),
        0 <= j < entries.len(),
        i != j,
    ensures
        content->Entries_0@[i].element_id@ != content->Entries_0@[j].element_id@,
        content->Entries_0@[i].remove_button_id matches Some(a) ==> content->Entries_0@[j].remove_button_id matches Some(b) ==> a@ != b@,
{
    let rows = content->Entries_0@;
    assert(row_matches(rows[i], entries[i].label@, entries[i].full_path@, entries[i].workspace, i as nat, entries.len(), active));
    assert(row_matches(rows[j], entries[j].label@, entries[j].full_path@, entries[j].workspace, j as nat, entries.len(), active));
    if rows[i].element_id@ == rows[j].element_id@ {
        lemma_suffix_injective("workspace-entry-"@, i as nat, j as nat);
    }
    if let Some(a) = rows[i].remove_button_id {
        if let Some(b) = rows[j].remove_button_id {
            if a@ == b@ {
                lemma_suffix_injective("remove-workspace-"@, i as nat, j as nat);
            }
        }
    }
}

/// When the entries name distinct workspaces, at most one row is active.
pub proof fn lemma_at_most_one_active(
    content: SidebarContent,
    entries: Seq<WorkspaceEntry>,
    active: Option<u64>,
    enabled: bool,
    i: int,
    j: int,
)
    requires
        content_for_entries(content, entries, active, enabled),
        content is Entries,
        forall|a: int, b: int|
            0 <= a < entries.len() && 0 <= b < entries.len() && a != b ==> entries[a].workspace
                != entries[b].workspace,
        0 <= i < entries.len(),
        0 <= j < entries.len(),
        content->Entries_0@[i].is_active,
        content->Entries_0@[j].is_active,
    ensures
        i == j,
{
    let rows = content->Entries_0@;
    assert(row_matches(rows[i], entries[i].label@, entries[i].full_path@, entries[i].workspace, i as nat, entries.len(), active));
    assert(row_matches(rows[j], entries[j].label@, entries[j].full_path@, entries[j].workspace, j as nat, entries.len(), active));
}

/// The entries list the workspaces one for one, in order: each entry names
/// its workspace, is labelled with the names of all of the workspace's
/// visible named worktrees in order, separated by ", " (or "Empty Workspace"
/// when there is none), and has as full path the paths of all of its visible
/// worktrees in order, one per line.
pub proof fn law_workspace_entries(mw: MultiWorkspaceSnapshot, entries: Seq<WorkspaceEntry>)
    requires
        entries.len() == mw.workspaces@.len(),
        forall|i: int| 0 <= i < entries.len() ==> entry_describes(#[trigger] entries[i], mw.workspaces@[i]),
    ensures
        forall|i: int| #![trigger entries[i]]
            0 <= i < entries.len() ==> {
                let worktrees = mw.workspaces@[i].worktrees@;
                &&& entries[i].workspace == mw.workspaces@[i].id
                &&& entries[i].label@ == (if names_in_order(worktrees).len() == 0 {
                    "Empty Workspace"@
                } else {
                    separated(names_in_order(worktrees), ", "@)
                })
                &&& entries[i].full_path@ == separated(paths_in_order(worktrees), "\n"@)
            },
{
    assert forall|i: int| #![trigger entries[i]] 0 <= i < entries.len() implies {
        let worktrees = mw.workspaces@[i].worktrees@;
        &&& entries[i].workspace == mw.workspaces@[i].id
        &&& entries[i].label@ == (if names_in_order(worktrees).len() == 0 {
            "Empty Workspace"@
        } else {
            separated(names_in_order(worktrees), ", "@)
        })
        &&& entries[i].full_path@ == separated(paths_in_order(worktrees), "\n"@)
    } by {
        assert(entry_describes(entries[i], mw.workspaces@[i]));
        law_label_and_full_path(mw.workspaces@[i].worktrees@);
    }
}

/// The sidebar shows the "unavailable" notice when several workspaces are not
/// supported, the "no workspaces" notice when there is no entry, and
/// otherwise one row per entry, in order: row `i` has element id
/// "workspace-entry-i", the entry's label, full path and workspace, is
/// active exactly when its workspace is the active one, has a remove button
/// "remove-workspace-i" exactly when there are at least two entries, and a
/// path tooltip exactly when the entry's full path is not empty.
pub proof fn law_sidebar_content(
    content: SidebarContent,
    entries: Seq<WorkspaceEntry>,
    active: Option<u64>,
    enabled: bool,
)
    requires
        content_for_entries(content, entries, active, enabled),
    ensures
        !enabled ==> content is Unavailable,
        enabled && entries.len() == 0 ==> content is NoWorkspaces,
        enabled && entries.len() > 0 ==> {
            &&& content is Entries
            &&& content->Entries_0@.len() == entries.len()
            &&& forall|i: int| #![trigger content->Entries_0@[i]]
                0 <= i < entries.len() ==> {
                    let row = content->Entries_0@[i];
                    &&& row.element_id@ == "workspace-entry-"@ + decimal(i as nat)
                    &&& row.label@ == entries[i].label@
                    &&& row.full_path@ == entries[i].full_path@
                    &&& row.workspace == entries[i].workspace
                    &&& row.is_active == (active == Some(entries[i].workspace))
                    &&& (row.remove_button_id is Some) == (entries.len() >= 2)
                    &&& (row.remove_button_id matches Some(id) ==> id@ == "remove-workspace-"@
                        + decimal(i as nat))
                    &&& row.shows_path_tooltip == (entries[i].full_path@.len() > 0)
                }
        },
{
    if enabled && entries.len() > 0 {
        let rows = content->Entries_0@;
        assert forall|i: int| #![trigger rows[i]] 0 <= i < entries.len() implies {
            let row = rows[i];
            &&& row.element_id@ == "workspace-entry-"@ + decimal(i as nat)
            &&& row.label@ == entries[i].label@
            &&& row.full_path@ == entries[i].full_path@
            &&& row.workspace == entries[i].workspace
            &&& row.is_active == (active == Some(entries[i].workspace))
            &&& (row.remove_button_id is Some) == (entries.len() >= 2)
            &&& (row.remove_button_id matches Some(id) ==> id@ == "remove-workspace-"@ + decimal(
                i as nat,
            ))
            &&& row.shows_path_tooltip == (entries[i].full_path@.len() > 0)
        } by {
            assert(row_matches(
                rows[i],
                entries[i].label@,
                entries[i].full_path@,
                entries[i].workspace,
                i as nat,
                entries.len(),
                active,
            ));
        }
    }
}

/// The sidebar of a multi-workspace shows the "unavailable" notice when
/// several workspaces are not supported, the "no workspaces" notice when none
/// is open, and otherwise one row per workspace, in order: row `i` names
/// workspace `i`, is active exactly when that workspace is the active one
/// (however many workspaces there are), is labelled with the names of all of
/// its visible named worktrees separated by ", " (or "Empty Workspace"), has
/// as full path the paths of all of its visible worktrees one per line, shows
/// that path as a tooltip exactly when it is not empty, and has a remove
/// button exactly when at least two workspaces are open.
pub proof fn law_sidebar_view(content: SidebarContent, mw: MultiWorkspaceSnapshot)
    requires
        content_for_multi_workspace(content, mw),
    ensures
        !mw.multi_workspace_enabled ==> content is Unavailable,
        mw.multi_workspace_enabled && mw.workspaces@.len() == 0 ==> content is NoWorkspaces,
        mw.multi_workspace_enabled && mw.workspaces@.len() > 0 ==> {
            &&& content is Entries
            &&& content->Entries_0@.len() == mw.workspaces@.len()
            &&& forall|i: int| #![trigger content->Entries_0@[i]]
                0 <= i < mw.workspaces@.len() ==> {
                    let row = content->Entries_0@[i];
                    let worktrees = mw.workspaces@[i].worktrees@;
                    &&& row.element_id@ == "workspace-entry-"@ + decimal(i as nat)
                    &&& row.workspace == mw.workspaces@[i].id
                    &&& row.is_active == (mw.workspaces@[i].id == mw.active)
                    &&& row.label@ == (if names_in_order(worktrees).len() == 0 {
                        "Empty Workspace"@
                    } else {
                        separated(names_in_order(worktrees), ", "@)
                    })
                    &&& row.full_path@ == separated(paths_in_order(worktrees), "\n"@)
                    &&& row.shows_path_tooltip == (row.full_path@.len() > 0)
                    &&& (row.remove_button_id is Some) == (mw.workspaces@.len() >= 2)
                }
        },
{
    if mw.multi_workspace_enabled && mw.workspaces@.len() > 0 {
        let rows = content->Entries_0@;
        let ws = mw.workspaces@;
        assert forall|i: int| #![trigger rows[i]] 0 <= i < ws.len() implies {
            let row = rows[i];
            let worktrees = ws[i].worktrees@;
            &&& row.element_id@ == "workspace-entry-"@ + decimal(i as nat)
            &&& row.workspace == ws[i].id
            &&& row.is_active == (ws[i].id == mw.active)
            &&& row.label@ == (if names_in_order(worktrees).len() == 0 {
                "Empty Workspace"@
            } else {
                separated(names_in_order(worktrees), ", "@)
            })
            &&& row.full_path@ == separated(paths_in_order(worktrees), "\n"@)
            &&& row.shows_path_tooltip == (row.full_path@.len() > 0)
            &&& (row.remove_button_id is Some) == (ws.len() >= 2)
        } by {
            assert(row_matches(
                rows[i],
                workspace_label(ws[i].worktrees@),
                workspace_full_path(ws[i].worktrees@),
                ws[i].id,
                i as nat,
                ws.len(),
                Some(mw.active),
            ));
            law_label_and_full_path(ws[i].worktrees@);
        }
    }
}

/// The sidebar of a multi-workspace is the sidebar of its entries, with its
/// active workspace as the active one.
pub proof fn law_view_is_content_of_entries(
    content: SidebarContent,
    mw: MultiWorkspaceSnapshot,
    entries: Seq<WorkspaceEntry>,
)
    requires
        content_for_multi_workspace(content, mw),
        entries.len() == mw.workspaces@.len(),
        forall|i: int| 0 <= i < entries.len() ==> entry_describes(#[trigger] entries[i], mw.workspaces@[i]),
    ensures
        content_for_entries(content, entries, Some(mw.active), mw.multi_workspace_enabled),
{
    if mw.multi_workspace_enabled && entries.len() > 0 {
        let rows = content->Entries_0@;
        assert forall|i: int| 0 <= i < entries.len() implies row_matches(
            #[trigger] rows[i],
            entries[i].label@,
            entries[i].full_path@,
            entries[i].workspace,
            i as nat,
            entries.len(),
            Some(mw.active),
        ) by {
            assert(entry_describes(entries[i], mw.workspaces@[i]));
        }
    }
}

} // verus!
