use sidebar::digits::with_decimal_suffix;
use sidebar::events::{requires_refresh, ProjectEventKind};
use sidebar::label::{workspace_label_and_path, WorktreeInfo};
use sidebar::model::{
    header_uses_traffic_light_padding, sidebar_content, sidebar_view, workspace_entries,
    workspace_position, MultiWorkspaceSnapshot, SidebarContent, WorkspaceEntry,
    WorkspaceSnapshot,
};

fn worktree(visible: bool, path: &str, name: Option<&str>) -> WorktreeInfo {
    WorktreeInfo {
        visible,
        abs_path: path.to_string(),
        file_name: name.map(|n| n.to_string()),
    }
}

fn entry(label: &str, full_path: &str, workspace: u64) -> WorkspaceEntry {
    WorkspaceEntry {
        label: label.to_string(),
        full_path: full_path.to_string(),
        workspace,
    }
}

fn rows(content: SidebarContent) -> Vec<sidebar::model::EntryView> {
    match content {
        SidebarContent::Entries(rows) => rows,
        _ => panic!("expected rows"),
    }
}

#[test]
fn label_of_workspace_without_worktrees_is_empty_workspace() {
    let (label, full_path) = workspace_label_and_path(&Vec::new());
    assert_eq!(label, "Empty Workspace");
    assert_eq!(full_path, "");
}

#[test]
fn label_joins_visible_names_and_paths() {
    let worktrees = vec![
        worktree(true, "/home/me/zed", Some("zed")),
        worktree(false, "/tmp/hidden", Some("hidden")),
        worktree(true, "/home/me/notes", Some("notes")),
    ];
    let (label, full_path) = workspace_label_and_path(&worktrees);
    assert_eq!(label, "zed, notes");
    assert_eq!(full_path, "/home/me/zed\n/home/me/notes");
}

#[test]
fn unnamed_visible_worktree_contributes_only_its_path() {
    let worktrees = vec![worktree(true, "/", None)];
    let (label, full_path) = workspace_label_and_path(&worktrees);
    assert_eq!(label, "Empty Workspace");
    assert_eq!(full_path, "/");

    let worktrees = vec![worktree(true, "/", None), worktree(true, "/srv/app", Some("app"))];
    let (label, full_path) = workspace_label_and_path(&worktrees);
    assert_eq!(label, "app");
    assert_eq!(full_path, "/\n/srv/app");
}

#[test]
fn only_hidden_worktrees_give_empty_workspace() {
    let worktrees = vec![worktree(false, "/a", Some("a")), worktree(false, "/b", Some("b"))];
    let (label, full_path) = workspace_label_and_path(&worktrees);
    assert_eq!(label, "Empty Workspace");
    assert_eq!(full_path, "");
}

#[test]
fn decimal_suffix() {
    assert_eq!(with_decimal_suffix("workspace-entry-", 0), "workspace-entry-0");
    assert_eq!(with_decimal_suffix("x", 9), "x9");
    assert_eq!(with_decimal_suffix("x", 10), "x10");
    assert_eq!(with_decimal_suffix("", 4071), "4071");
    assert_eq!(
        with_decimal_suffix("n", usize::MAX),
        format!("n{}", usize::MAX)
    );
}

#[test]
fn entries_follow_the_workspaces() {
    let mw = MultiWorkspaceSnapshot {
        workspaces: vec![
            WorkspaceSnapshot { id: 11, worktrees: vec![worktree(true, "/p/one", Some("one"))] },
            WorkspaceSnapshot { id: 12, worktrees: Vec::new() },
        ],
        active: 12,
        multi_workspace_enabled: true,
    };
    let entries = workspace_entries(Some(&mw));
    assert_eq!(entries.len(), 2);
    assert_eq!(entries[0].label, "one");
    assert_eq!(entries[0].full_path, "/p/one");
    assert_eq!(entries[0].workspace, 11);
    assert_eq!(entries[1].label, "Empty Workspace");
    assert_eq!(entries[1].full_path, "");
    assert_eq!(entries[1].workspace, 12);
    assert!(workspace_entries(None).is_empty());
}

#[test]
fn disabled_multi_workspace_shows_unavailable_notice() {
    let entries = vec![entry("a", "/a", 1)];
    let content = sidebar_content(&entries, Some(1), false);
    assert!(matches!(content, SidebarContent::Unavailable));
    assert_eq!(content.notice(), Some("Multi-workspace is unavailable in this build."));
}

#[test]
fn no_entries_shows_no_workspaces_notice() {
    let content = sidebar_content(&Vec::new(), None, true);
    assert!(matches!(content, SidebarContent::NoWorkspaces));
    assert_eq!(content.notice(), Some("No workspaces open"));
}

#[test]
fn single_entry_has_no_remove_button() {
    let entries = vec![entry("zed", "/home/zed", 7)];
    let content = sidebar_content(&entries, Some(7), true);
    assert_eq!(content.notice(), None);
    let rows = rows(content);
    assert_eq!(rows.len(), 1);
    assert_eq!(rows[0].element_id, "workspace-entry-0");
    assert_eq!(rows[0].label, "zed");
    assert_eq!(rows[0].full_path, "/home/zed");
    assert_eq!(rows[0].workspace, 7);
    assert!(rows[0].is_active);
    assert_eq!(rows[0].remove_button_id, None);
    assert!(rows[0].shows_path_tooltip);
}

#[test]
fn several_entries_have_remove_buttons_and_one_active_row() {
    let entries = vec![entry("a", "/a", 1), entry("Empty Workspace", "", 2), entry("c", "/c", 3)];
    let rows = rows(sidebar_content(&entries, Some(2), true));
    assert_eq!(rows.len(), 3);
    for (i, row) in rows.iter().enumerate() {
        assert_eq!(row.element_id, format!("workspace-entry-{i}"));
        assert_eq!(row.remove_button_id, Some(format!("remove-workspace-{i}")));
        assert_eq!(row.workspace, entries[i].workspace);
    }
    assert!(!rows[0].is_active);
    assert!(rows[1].is_active);
    assert!(!rows[2].is_active);
    assert!(rows[0].shows_path_tooltip);
    assert!(!rows[1].shows_path_tooltip);
    assert!(rows[2].shows_path_tooltip);
}

#[test]
fn no_active_workspace_highlights_nothing() {
    let entries = vec![entry("a", "/a", 1), entry("b", "/b", 2)];
    let rows = rows(sidebar_content(&entries, None, true));
    assert!(rows.iter().all(|row| !row.is_active));
}

#[test]
fn view_of_missing_multi_workspace_is_unavailable() {
    assert!(matches!(sidebar_view(None), SidebarContent::Unavailable));
}

#[test]
fn view_of_multi_workspace() {
    let mw = MultiWorkspaceSnapshot {
        workspaces: vec![
            WorkspaceSnapshot { id: 3, worktrees: vec![worktree(true, "/x", Some("x"))] },
            WorkspaceSnapshot { id: 4, worktrees: vec![worktree(true, "/y", Some("y"))] },
        ],
        active: 3,
        multi_workspace_enabled: true,
    };
    let rows = rows(sidebar_view(Some(&mw)));
    assert_eq!(rows.len(), 2);
    assert_eq!(rows[0].label, "x");
    assert!(rows[0].is_active);
    assert_eq!(rows[1].label, "y");
    assert!(!rows[1].is_active);
    assert_eq!(rows[1].remove_button_id, Some("remove-workspace-1".to_string()));

    let empty = MultiWorkspaceSnapshot { workspaces: Vec::new(), active: 3, multi_workspace_enabled: true };
    assert!(matches!(sidebar_view(Some(&empty)), SidebarContent::NoWorkspaces));

    let disabled = MultiWorkspaceSnapshot { workspaces: Vec::new(), active: 3, multi_workspace_enabled: false };
    assert!(matches!(sidebar_view(Some(&disabled)), SidebarContent::Unavailable));
}

#[test]
fn position_finds_first_occurrence() {
    let ws = vec![5u64, 7, 5];
    assert_eq!(workspace_position(&ws, 5), Some(0));
    assert_eq!(workspace_position(&ws, 7), Some(1));
    assert_eq!(workspace_position(&ws, 9), None);
    assert_eq!(workspace_position(&Vec::new(), 1), None);
}

#[test]
fn worktree_changes_require_refresh() {
    assert!(requires_refresh(&ProjectEventKind::WorktreeAdded));
    assert!(requires_refresh(&ProjectEventKind::WorktreeRemoved));
    assert!(requires_refresh(&ProjectEventKind::WorktreeOrderChanged));
    assert!(!requires_refresh(&ProjectEventKind::Other));
}

#[test]
fn traffic_light_padding_only_on_windowed_macos() {
    assert!(header_uses_traffic_light_padding(true, false));
    assert!(!header_uses_traffic_light_padding(true, true));
    assert!(!header_uses_traffic_light_padding(false, false));
    assert!(!header_uses_traffic_light_padding(false, true));
}
