//! How a workspace is named in the sidebar: from the worktrees it holds.

use vstd::prelude::*;

verus! {

/// What the sidebar reads of one worktree of a workspace.
pub struct WorktreeInfo {
    /// Whether the worktree is shown to the user.
    pub visible: bool,
    /// Its absolute path, as text.
    pub abs_path: String,
    /// The last component of that path, where the path has one.
    pub file_name: Option<String>,
}

/// Joins `parts` with `sep` between each two neighbours.
pub open spec fn join(parts: Seq<Seq<char>>, sep: Seq<char>) -> Seq<char>
    decreases parts.len(),
{
    if parts.len() == 0 {
        Seq::empty()
    } else if parts.len() == 1 {
        parts[0]
    } else {
        join(parts.drop_last(), sep) + sep + parts.last()
    }
}

/// The names of the visible worktrees that have one, in order.
pub open spec fn visible_names(worktrees: Seq<WorktreeInfo>) -> Seq<Seq<char>>
    decreases worktrees.len(),
{
    if worktrees.len() == 0 {
        Seq::empty()
    } else {
        let earlier = visible_names(worktrees.drop_last());
        let w = worktrees.last();
        if w.visible && w.file_name is Some {
            earlier.push(w.file_name->0@)
        } else {
            earlier
        }
    }
}

/// The paths of the visible worktrees, in order.
pub open spec fn visible_paths(worktrees: Seq<WorktreeInfo>) -> Seq<Seq<char>>
    decreases worktrees.len(),
{
    if worktrees.len() == 0 {
        Seq::empty()
    } else {
        let earlier = visible_paths(worktrees.drop_last());
        let w = worktrees.last();
        if w.visible {
            earlier.push(w.abs_path@)
        } else {
            earlier
        }
    }
}

/// The label of a workspace: its visible worktrees' names separated by
/// ", ", or "Empty Workspace" when there is none.
pub open spec fn workspace_label(worktrees: Seq<WorktreeInfo>) -> Seq<char> {
    if visible_names(worktrees).len() == 0 {
        "Empty Workspace"@
    } else {
        join(visible_names(worktrees), ", "@)
    }
}

/// The full path of a workspace: its visible worktrees' paths, one per line.
pub open spec fn workspace_full_path(worktrees: Seq<WorktreeInfo>) -> Seq<char> {
    join(visible_paths(worktrees), "\n"@)
}

proof fn lemma_join_push(parts: Seq<Seq<char>>, sep: Seq<char>, next: Seq<char>)
    ensures
        join(parts.push(next), sep) == (if parts.len() == 0 {
            next
        } else {
            join(parts, sep) + sep + next
        }),
{
    assert(parts.push(next).drop_last() =~= parts);
}

/// Appends `part` to the joined text `acc` of `count` earlier parts.
fn append_part(acc: &mut String, count: usize, sep: &str, part: &str)
    ensures
        final(acc)@ == (if count == 0 {
            old(acc)@ + part@
        } else {
            old(acc)@ + sep@ + part@
        }),
{
    if count != 0 {
        acc.append(sep);
    }
    acc.append(part);
}

/// The label and the full path of a workspace whose worktrees are
/// `worktrees`, in their order.
pub fn workspace_label_and_path(worktrees: &Vec<WorktreeInfo>) -> (res: (String, String))
    ensures
        res.0@ == workspace_label(worktrees@),
        res.1@ == workspace_full_path(worktrees@),
{
    let mut label = String::new();
    let mut names: usize = 0;
    let mut full_path = String::new();
    let mut paths: usize = 0;
    let n = worktrees.len();
    let mut i: usize = 0;
    while i < n
        invariant
            n == worktrees@.len(),
            0 <= i <= n,
            names as nat == visible_names(worktrees@.take(i as int)).len(),
            paths as nat == visible_paths(worktrees@.take(i as int)).len(),
            names <= i,
            paths <= i,
            label@ == join(visible_names(worktrees@.take(i as int)), ", "@),
            full_path@ == join(visible_paths(worktrees@.take(i as int)), "\n"@),
        decreases n - i,
    {
        let w = &worktrees[i];
        let ghost before = worktrees@.take(i as int);
        let ghost after = worktrees@.take(i + 1);
        assert(after.drop_last() =~= before);
        assert(after.last() == *w);
        if w.visible {
            proof {
                lemma_join_push(visible_paths(before), "\n"@, w.abs_path@);
            }
            append_part(&mut full_path, paths, "\n", w.abs_path.as_str());
            paths = paths + 1;
            match &w.file_name {
                Some(name) => {
                    proof {
                        lemma_join_push(visible_names(before), ", "@, name@);
                    }
                    append_part(&mut label, names, ", ", name.as_str());
                    names = names + 1;
                },
                None => {},
            }
        }
        i = i + 1;
    }
    assert(worktrees@.take(n as int) =~= worktrees@);
    if names == 0 {
        label = String::from_str("Empty Workspace");
    }
    (label, full_path)
}

/// The names of the worktrees that are visible and have a name, in order.
pub open spec fn names_in_order(worktrees: Seq<WorktreeInfo>) -> Seq<Seq<char>> {
    worktrees.filter(|w: WorktreeInfo| w.visible && w.file_name is Some).map_values(
        |w: WorktreeInfo| w.file_name->0@,
    )
}

/// The paths of the worktrees that are visible, in order.
pub open spec fn paths_in_order(worktrees: Seq<WorktreeInfo>) -> Seq<Seq<char>> {
    worktrees.filter(|w: WorktreeInfo| w.visible).map_values(|w: WorktreeInfo| w.abs_path@)
}

/// The first part, then each further part preceded by `sep`; nothing for no parts.
pub open spec fn separated(parts: Seq<Seq<char>>, sep: Seq<char>) -> Seq<char> {
    if parts.len() == 0 {
        Seq::empty()
    } else {
        parts[0] + parts.drop_first().map_values(|p: Seq<char>| sep + p).flatten()
    }
}

/// Every visible named worktree contributes its name, in order, and no other
/// worktree contributes one.
pub proof fn law_visible_names(worktrees: Seq<WorktreeInfo>)
    ensures
        visible_names(worktrees) == names_in_order(worktrees),
    decreases worktrees.len(),
{
    reveal(Seq::filter);
    if worktrees.len() > 0 {
        law_visible_names(worktrees.drop_last());
        assert(visible_names(worktrees) =~= names_in_order(worktrees));
    }
}

/// Every visible worktree contributes its path, in order, and no hidden one
/// does.
pub proof fn law_visible_paths(worktrees: Seq<WorktreeInfo>)
    ensures
        visible_paths(worktrees) == paths_in_order(worktrees),
    decreases worktrees.len(),
{
    reveal(Seq::filter);
    if worktrees.len() > 0 {
        law_visible_paths(worktrees.drop_last());
        assert(visible_paths(worktrees) =~= paths_in_order(worktrees));
    }
}

/// Joining puts the separator between each two neighbouring parts and
/// nowhere else.
pub proof fn law_join_separates(parts: Seq<Seq<char>>, sep: Seq<char>)
    ensures
        join(parts, sep) == separated(parts, sep),
    decreases parts.len(),
{
    broadcast use Seq::lemma_flatten_push;

    if parts.len() == 1 {
        let rest = parts.drop_first().map_values(|p: Seq<char>| sep + p);
        assert(rest =~= Seq::<Seq<char>>::empty());
        assert(rest.flatten() =~= Seq::<char>::empty());
        assert(separated(parts, sep) =~= parts[0]);
    } else if parts.len() > 1 {
        let init = parts.drop_last();
        law_join_separates(init, sep);
        let f = |p: Seq<char>| sep + p;
        let tail_all = parts.drop_first().map_values(f);
        let tail_init = init.drop_first().map_values(f);
        assert(tail_all =~= tail_init.push(sep + parts.last()));
        assert(tail_all.flatten() =~= tail_init.flatten() + (sep + parts.last()));
        assert(init[0] == parts[0]);
        assert(join(parts, sep) =~= separated(parts, sep));
    }
}

/// The label of a workspace is "Empty Workspace" when none of its visible
/// worktrees has a name, and otherwise the names of all of its visible named
/// worktrees, in order, separated by ", "; its full path is the paths of all
/// of its visible worktrees, in order, one per line.
pub proof fn law_label_and_full_path(worktrees: Seq<WorktreeInfo>)
    ensures
        workspace_label(worktrees) == (if names_in_order(worktrees).len() == 0 {
            "Empty Workspace"@
        } else {
            separated(names_in_order(worktrees), ", "@)
        }),
        workspace_full_path(worktrees) == separated(paths_in_order(worktrees), "\n"@),
{
    law_visible_names(worktrees);
    law_visible_paths(worktrees);
    law_join_separates(visible_names(worktrees), ", "@);
    law_join_separates(visible_paths(worktrees), "\n"@);
}

} // verus!
