//! Identity of accessibility nodes. Fixed nodes have fixed identifiers; each tab
//! and pane keeps one identifier for as long as it exists, and no two nodes ever
//! share one; accessible actions are routed back to what their node stands for.

use vstd::prelude::*;
use crate::interaction::{AccessibilityTarget, AccessibilityTargetView, WorkspaceHeaderControl};
use crate::text::str_eq;

verus! {

pub const WINDOW_NODE: u64 = 0;
pub const CONTENT_NODE: u64 = 1;
pub const STATUS_NODE: u64 = 2;
pub const TAB_LIST_NODE: u64 = 3;
pub const PANE_PANEL_NODE: u64 = 4;
pub const SHORTCUT_DIALOG_NODE: u64 = 5;
pub const NEW_TAB_NODE: u64 = 6;
pub const SHORTCUTS_NODE: u64 = 7;
pub const CLOSE_TAB_NODE: u64 = 8;
pub const QUOTA_NODE: u64 = 9;
/// First identifier of text runs, one per terminal row.
pub const TEXT_RUN_NODE_START: u64 = 10_000;
/// First identifier of tab and pane nodes; scene rows are `u16`, so text runs
/// stay below it.
pub const WORKSPACE_NODE_START: u64 = 0x1_0000_0000;
/// First identifier of link nodes.
pub const LINK_NODE_START: u64 = 0x1_0000_0000_0000;

/// The node of a workspace header button.
pub open spec fn spec_control_node_id(control: WorkspaceHeaderControl) -> u64 {
    match control {
        WorkspaceHeaderControl::NewTab => NEW_TAB_NODE,
        WorkspaceHeaderControl::Shortcuts => SHORTCUTS_NODE,
        WorkspaceHeaderControl::CloseTab => CLOSE_TAB_NODE,
    }
}

pub fn control_node_id(control: WorkspaceHeaderControl) -> (node: u64)
    ensures
        node == spec_control_node_id(control),
{
    match control {
        WorkspaceHeaderControl::NewTab => NEW_TAB_NODE,
        WorkspaceHeaderControl::Shortcuts => SHORTCUTS_NODE,
        WorkspaceHeaderControl::CloseTab => CLOSE_TAB_NODE,
    }
}

/// The header button a node stands for; the inverse of [`control_node_id`].
pub fn header_control_for_node(node: u64) -> (control: Option<WorkspaceHeaderControl>)
    ensures
        match control {
            Some(c) => spec_control_node_id(c) == node,
            None => node != NEW_TAB_NODE && node != SHORTCUTS_NODE && node != CLOSE_TAB_NODE,
        },
{
    if node == NEW_TAB_NODE {
        Some(WorkspaceHeaderControl::NewTab)
    } else if node == SHORTCUTS_NODE {
        Some(WorkspaceHeaderControl::Shortcuts)
    } else if node == CLOSE_TAB_NODE {
        Some(WorkspaceHeaderControl::CloseTab)
    } else {
        None
    }
}

/// The node of the text run of terminal row `index`.
pub fn text_run_id(index: u16) -> (node: u64)
    ensures
        node == TEXT_RUN_NODE_START + index,
        node < WORKSPACE_NODE_START,
{
    TEXT_RUN_NODE_START + index as u64
}

/// An identity (a tab or pane id) with its node.
#[derive(Clone, Debug)]
pub struct NodeEntry {
    pub identity: String,
    pub node: u64,
}

impl View for NodeEntry {
    type V = (Seq<char>, u64);

    open spec fn view(&self) -> (Seq<char>, u64) {
        (self.identity@, self.node)
    }
}

pub open spec fn entries_view(entries: Seq<NodeEntry>) -> Seq<(Seq<char>, u64)> {
    entries.map_values(|entry: NodeEntry| entry@)
}

/// Whether an entry for `identity` exists.
pub open spec fn has_identity(entries: Seq<(Seq<char>, u64)>, identity: Seq<char>) -> bool {
    exists|i: int| 0 <= i < entries.len() && (#[trigger] entries[i]).0 == identity
}

/// The entries whose identity is still among `ids`, in order.
pub open spec fn retained(entries: Seq<(Seq<char>, u64)>, ids: Seq<Seq<char>>) -> Seq<(Seq<char>, u64)>
    decreases entries.len(),
{
    if entries.len() == 0 {
        entries
    } else {
        let rest = retained(entries.drop_last(), ids);
        if ids.contains(entries.last().0) {
            rest.push(entries.last())
        } else {
            rest
        }
    }
}

/// The entries after giving each identity of `ids` that has none a node, in the
/// order of `ids`, counting up from `next`; and the next free node.
pub open spec fn allocated(entries: Seq<(Seq<char>, u64)>, next: int, ids: Seq<Seq<char>>) -> (Seq<(Seq<char>, u64)>, int)
    decreases ids.len(),
{
    if ids.len() == 0 {
        (entries, next)
    } else {
        let (before, n) = allocated(entries, next, ids.drop_last());
        if has_identity(before, ids.last()) {
            (before, n)
        } else {
            (before.push((ids.last(), n as u64)), n + 1)
        }
    }
}

/// No two entries share an identity or a node.
pub open spec fn distinct_entries(entries: Seq<(Seq<char>, u64)>) -> bool {
    forall|i: int, j: int| 0 <= i < j < entries.len() ==> (#[trigger] entries[i]).0 != (#[trigger] entries[j]).0
        && entries[i].1 != entries[j].1
}

/// Every node of `entries` lies in `[low, high)`.
pub open spec fn nodes_within(entries: Seq<(Seq<char>, u64)>, low: int, high: int) -> bool {
    forall|i: int| 0 <= i < entries.len() ==> low <= (#[trigger] entries[i]).1 < high
}

/// No node of `a` is a node of `b`.
pub open spec fn disjoint_nodes(a: Seq<(Seq<char>, u64)>, b: Seq<(Seq<char>, u64)>) -> bool {
    forall|i: int, j: int| 0 <= i < a.len() && 0 <= j < b.len() ==> (#[trigger] a[i]).1 != (#[trigger] b[j]).1
}

/// What `retained` keeps: exactly the entries whose identity is among `ids`, none
/// twice and none new.
pub proof fn lemma_retained(entries: Seq<(Seq<char>, u64)>, ids: Seq<Seq<char>>)
    ensures
        forall|x: (Seq<char>, u64)| #[trigger] retained(entries, ids).contains(x) <==> (entries.contains(x) && ids.contains(x.0)),
        distinct_entries(entries) ==> distinct_entries(retained(entries, ids)),
        forall|low: int, high: int| nodes_within(entries, low, high) ==> #[trigger] nodes_within(retained(entries, ids), low, high),
    decreases entries.len(),
{
    if entries.len() > 0 {
        let rest_in = entries.drop_last();
        let last = entries.last();
        lemma_retained(rest_in, ids);
        let rest = retained(rest_in, ids);
        let out = retained(entries, ids);
        assert(rest_in.push(last) =~= entries);
        assert forall|x: (Seq<char>, u64)| #[trigger] out.contains(x) <==> (entries.contains(x) && ids.contains(x.0)) by {
            if entries.contains(x) {
                let i = choose|i: int| 0 <= i < entries.len() && entries[i] == x;
                if i < entries.len() - 1 {
                    assert(rest_in[i] == x);
                }
            }
            if rest_in.contains(x) {
                let i = choose|i: int| 0 <= i < rest_in.len() && rest_in[i] == x;
                assert(entries[i] == x);
            }
            if ids.contains(last.0) {
                if rest.contains(x) {
                    let i = choose|i: int| 0 <= i < rest.len() && rest[i] == x;
                    assert(out[i] == x);
                }
                if x == last {
                    assert(out[out.len() - 1] == x);
                }
                if out.contains(x) {
                    let i = choose|i: int| 0 <= i < out.len() && out[i] == x;
                    if i < rest.len() {
                        assert(rest[i] == x);
                    }
                }
            }
        }
        if distinct_entries(entries) && ids.contains(last.0) {
            assert(distinct_entries(rest_in)) by {
                assert forall|i: int, j: int| 0 <= i < j < rest_in.len() implies (#[trigger] rest_in[i]).0 != (#[trigger] rest_in[j]).0
                    && rest_in[i].1 != rest_in[j].1 by {
                    assert(entries[i] == rest_in[i] && entries[j] == rest_in[j]);
                }
            }
            assert forall|i: int, j: int| 0 <= i < j < out.len() implies (#[trigger] out[i]).0 != (#[trigger] out[j]).0
                && out[i].1 != out[j].1 by {
                if j == out.len() - 1 {
                    assert(rest.contains(out[i]));
                    assert(rest_in.contains(out[i]));
                    let k = choose|k: int| 0 <= k < rest_in.len() && rest_in[k] == out[i];
                    assert(entries[k] == out[i]);
                    assert(entries[entries.len() - 1] == out[j]);
                } else {
                    assert(rest[i] == out[i] && rest[j] == out[j]);
                }
            }
        } else if distinct_entries(entries) {
            assert(distinct_entries(rest_in)) by {
                assert forall|i: int, j: int| 0 <= i < j < rest_in.len() implies (#[trigger] rest_in[i]).0 != (#[trigger] rest_in[j]).0
                    && rest_in[i].1 != rest_in[j].1 by {
                    assert(entries[i] == rest_in[i] && entries[j] == rest_in[j]);
                }
            }
        }
        assert forall|low: int, high: int| nodes_within(entries, low, high) implies #[trigger] nodes_within(out, low, high) by {
            assert(nodes_within(rest_in, low, high)) by {
                assert forall|i: int| 0 <= i < rest_in.len() implies low <= (#[trigger] rest_in[i]).1 < high by {
                    assert(entries[i] == rest_in[i]);
                }
            }
            assert(nodes_within(rest, low, high));
            assert forall|i: int| 0 <= i < out.len() implies low <= (#[trigger] out[i]).1 < high by {
                if i < rest.len() {
                    assert(rest[i] == out[i]);
                } else {
                    assert(entries[entries.len() - 1] == out[i]);
                }
            }
        }
    }
}

/// What `allocated` adds: the entries stay first, each identity of `ids` ends up
/// with an entry, and the new entries have distinct new identities and the nodes
/// from `next` up, in order.
pub proof fn lemma_allocated(entries: Seq<(Seq<char>, u64)>, next: int, ids: Seq<Seq<char>>)
    requires
        distinct_entries(entries),
        0 <= next,
        next + ids.len() <= u64::MAX,
    ensures
        ({
            let (out, n) = allocated(entries, next, ids);
            &&& next <= n <= next + ids.len()
            &&& out.len() == entries.len() + (n - next)
            &&& forall|i: int| 0 <= i < entries.len() ==> out[i] == entries[i]
            &&& forall|i: int| entries.len() <= i < out.len() ==> (#[trigger] out[i]).1 == next + (i - entries.len())
                && ids.contains(out[i].0) && !has_identity(entries, out[i].0)
            &&& forall|k: int| 0 <= k < ids.len() ==> has_identity(out, #[trigger] ids[k])
            &&& forall|i: int, j: int| entries.len() <= i < j < out.len() ==> (#[trigger] out[i]).0 != (#[trigger] out[j]).0
        }),
    decreases ids.len(),
{
    if ids.len() > 0 {
        let prefix = ids.drop_last();
        let last = ids.last();
        lemma_allocated(entries, next, prefix);
        let (before, n) = allocated(entries, next, prefix);
        let (out, m) = allocated(entries, next, ids);
        assert forall|k: int| 0 <= k < ids.len() implies has_identity(out, #[trigger] ids[k]) by {
            if k < ids.len() - 1 {
                assert(ids[k] == prefix[k]);
                assert(has_identity(before, prefix[k]));
                let i = choose|i: int| 0 <= i < before.len() && (#[trigger] before[i]).0 == prefix[k];
                assert(out[i] == before[i]);
            } else if !has_identity(before, last) {
                assert(out[out.len() - 1].0 == last);
            }
        }
        assert forall|i: int| entries.len() <= i < out.len() implies (#[trigger] out[i]).1 == next + (i - entries.len())
            && ids.contains(out[i].0) && !has_identity(entries, out[i].0) by {
            if i < before.len() {
                assert(out[i] == before[i]);
                let k = choose|k: int| 0 <= k < prefix.len() && prefix[k] == before[i].0;
                assert(ids[k] == prefix[k]);
            } else {
                assert(ids[ids.len() - 1] == last);
                if has_identity(entries, last) {
                    let e = choose|e: int| 0 <= e < entries.len() && (#[trigger] entries[e]).0 == last;
                    assert(before[e] == entries[e]);
                }
            }
        }
        assert forall|i: int, j: int| entries.len() <= i < j < out.len() implies (#[trigger] out[i]).0 != (#[trigger] out[j]).0 by {
            if j < before.len() {
                assert(out[i] == before[i] && out[j] == before[j]);
            } else {
                assert(out[i] == before[i]);
            }
        }
    }
}

/// The nodes of the tabs and panes of the current workspace.
#[derive(Debug)]
pub struct WorkspaceNodes {
    tabs: Vec<NodeEntry>,
    panes: Vec<NodeEntry>,
    next_node: u64,
}

/// The tab entries, the pane entries, and the next free node.
pub struct WorkspaceNodesView {
    pub tabs: Seq<(Seq<char>, u64)>,
    pub panes: Seq<(Seq<char>, u64)>,
    pub next_node: u64,
}

impl View for WorkspaceNodes {
    type V = WorkspaceNodesView;

    closed spec fn view(&self) -> WorkspaceNodesView {
        WorkspaceNodesView { tabs: entries_view(self.tabs@), panes: entries_view(self.panes@), next_node: self.next_node }
    }
}

/// Every identity has one node, no node serves two identities, and every node was
/// handed out from the workspace range.
pub open spec fn nodes_wf(v: WorkspaceNodesView) -> bool {
    &&& distinct_entries(v.tabs)
    &&& distinct_entries(v.panes)
    &&& disjoint_nodes(v.tabs, v.panes)
    &&& nodes_within(v.tabs, WORKSPACE_NODE_START as int, v.next_node as int)
    &&& nodes_within(v.panes, WORKSPACE_NODE_START as int, v.next_node as int)
    &&& WORKSPACE_NODE_START <= v.next_node
}

/// The nodes after the workspace shows these tabs and panes: identities that went
/// away lose their node, those that stay keep it, and new ones get fresh nodes,
/// tabs first.
pub open spec fn spec_set_workspace(v: WorkspaceNodesView, tab_ids: Seq<Seq<char>>, pane_ids: Seq<Seq<char>>) -> WorkspaceNodesView {
    let (tabs, after_tabs) = allocated(retained(v.tabs, tab_ids), v.next_node as int, tab_ids);
    let (panes, after_panes) = allocated(retained(v.panes, pane_ids), after_tabs, pane_ids);
    WorkspaceNodesView { tabs, panes, next_node: after_panes as u64 }
}

fn strings_contain(list: &Vec<String>, s: &str) -> (found: bool)
    ensures
        found == list@.map_values(|x: String| x@).contains(s@),
{
    let ghost views = list@.map_values(|x: String| x@);
    let mut i: usize = 0;
    while i < list.len()
        invariant
            i <= list@.len(),
            views == list@.map_values(|x: String| x@),
            forall|j: int| 0 <= j < i ==> views[j] != s@,
        decreases list@.len() - i,
    {
        if str_eq(list[i].as_str(), s) {
            assert(views[i as int] == s@);
            return true;
        }
        i = i + 1;
    }
    proof {
        if views.contains(s@) {
            let j = choose|j: int| 0 <= j < views.len() && views[j] == s@;
            assert(views[j] != s@);
        }
    }
    false
}

fn retain_entries(entries: &Vec<NodeEntry>, ids: &Vec<String>) -> (kept: Vec<NodeEntry>)
    ensures
        entries_view(kept@) == retained(entries_view(entries@), ids@.map_values(|x: String| x@)),
{
    let ghost all = entries_view(entries@);
    let ghost names = ids@.map_values(|x: String| x@);
    let mut kept: Vec<NodeEntry> = Vec::new();
    let mut i: usize = 0;
    while i < entries.len()
        invariant
            i <= entries@.len(),
            all == entries_view(entries@),
            names == ids@.map_values(|x: String| x@),
            entries_view(kept@) == retained(all.take(i as int), names),
        decreases entries@.len() - i,
    {
        proof {
            assert(all.take(i + 1).drop_last() =~= all.take(i as int));
            assert(all.take(i + 1).last() == all[i as int]);
        }
        if strings_contain(ids, entries[i].identity.as_str()) {
            let ghost before = kept@;
            kept.push(NodeEntry { identity: entries[i].identity.clone(), node: entries[i].node });
            assert(entries_view(kept@) =~= entries_view(before).push(all[i as int]));
        }
        i = i + 1;
    }
    assert(all.take(entries@.len() as int) =~= all);
    kept
}

/// The node of the first entry at or after `from` with this identity.
pub open spec fn first_node(entries: Seq<(Seq<char>, u64)>, identity: Seq<char>, from: int) -> Option<u64>
    decreases entries.len() - from,
{
    if from < 0 || from >= entries.len() {
        None
    } else if entries[from].0 == identity {
        Some(entries[from].1)
    } else {
        first_node(entries, identity, from + 1)
    }
}

fn find_identity(entries: &Vec<NodeEntry>, identity: &str) -> (node: Option<u64>)
    ensures
        match node {
            Some(n) => entries_view(entries@).contains((identity@, n)),
            None => !has_identity(entries_view(entries@), identity@),
        },
        node == first_node(entries_view(entries@), identity@, 0),
{
    let ghost all = entries_view(entries@);
    let mut i: usize = 0;
    while i < entries.len()
        invariant
            i <= entries@.len(),
            all == entries_view(entries@),
            forall|j: int| 0 <= j < i ==> (#[trigger] all[j]).0 != identity@,
            first_node(all, identity@, 0) == first_node(all, identity@, i as int),
        decreases entries@.len() - i,
    {
        if str_eq(entries[i].identity.as_str(), identity) {
            assert(all[i as int] == (identity@, entries[i as int].node));
            return Some(entries[i].node);
        }
        i = i + 1;
    }
    proof {
        if has_identity(all, identity@) {
            let j = choose|j: int| 0 <= j < all.len() && (#[trigger] all[j]).0 == identity@;
            assert(all[j].0 != identity@);
        }
    }
    None
}

fn allocate_entries(entries: &mut Vec<NodeEntry>, next: &mut u64, ids: &Vec<String>)
    requires
        *old(next) + ids@.len() <= u64::MAX,
        distinct_entries(entries_view(old(entries)@)),
    ensures
        (entries_view(final(entries)@), *final(next) as int)
            == allocated(entries_view(old(entries)@), *old(next) as int, ids@.map_values(|x: String| x@)),
{
    let ghost start = entries_view(entries@);
    let ghost first = *next as int;
    let ghost names = ids@.map_values(|x: String| x@);
    let mut i: usize = 0;
    while i < ids.len()
        invariant
            i <= ids@.len(),
            names == ids@.map_values(|x: String| x@),
            distinct_entries(start),
            first + ids@.len() <= u64::MAX,
            0 <= first,
            (entries_view(entries@), *next as int) == allocated(start, first, names.take(i as int)),
        decreases ids@.len() - i,
    {
        proof {
            assert(names.take(i + 1).drop_last() =~= names.take(i as int));
            assert(names.take(i + 1).last() == names[i as int]);
            lemma_allocated(start, first, names.take(i as int));
        }
        let identity = ids[i].as_str();
        if find_identity(entries, identity).is_none() {
            let ghost before = entries_view(entries@);
            entries.push(NodeEntry { identity: ids[i].clone(), node: *next });
            assert(entries_view(entries@) =~= before.push((names[i as int], *next)));
            *next = *next + 1;
        } else {
            proof {
                let v = entries_view(entries@);
                let n = choose|n: u64| v.contains((identity@, n));
                let k = choose|k: int| 0 <= k < v.len() && v[k] == (identity@, n);
                assert(v[k].0 == names[i as int]);
            }
        }
        i = i + 1;
    }
    assert(names.take(ids@.len() as int) =~= names);
}

impl WorkspaceNodes {
    /// The nodes are always well formed.
    #[verifier::type_invariant]
    closed spec fn nodes_invariant(self) -> bool {
        nodes_wf(self@)
    }

    /// No tab or pane nodes yet.
    pub fn new() -> (nodes: Self)
        ensures
            nodes@ == (WorkspaceNodesView { tabs: Seq::empty(), panes: Seq::empty(), next_node: WORKSPACE_NODE_START }),
            nodes_wf(nodes@),
    {
        let nodes = WorkspaceNodes { tabs: Vec::new(), panes: Vec::new(), next_node: WORKSPACE_NODE_START };
        assert(entries_view(nodes.tabs@) =~= Seq::empty());
        assert(entries_view(nodes.panes@) =~= Seq::empty());
        nodes
    }

    /// The next node that a new tab or pane would get.
    pub fn next_node(&self) -> (next: u64)
        ensures
            next == self@.next_node,
    {
        self.next_node
    }

    /// Show these tabs and panes. Identities that went away lose their node, those
    /// that stay keep it, and new ones get fresh nodes.
    pub fn set_workspace(&mut self, tab_ids: &Vec<String>, pane_ids: &Vec<String>)
        requires
            old(self)@.next_node + tab_ids@.len() + pane_ids@.len() <= u64::MAX,
        ensures
            nodes_wf(final(self)@),
            final(self)@ == spec_set_workspace(
                old(self)@,
                tab_ids@.map_values(|x: String| x@),
                pane_ids@.map_values(|x: String| x@),
            ),
    {
        proof {
            use_type_invariant(&*self);
        }
        let ghost tab_names = tab_ids@.map_values(|x: String| x@);
        let ghost pane_names = pane_ids@.map_values(|x: String| x@);
        proof {
            lemma_set_workspace_keeps_identities(self@, tab_names, pane_names);
            lemma_retained(entries_view(self.tabs@), tab_names);
            lemma_retained(entries_view(self.panes@), pane_names);
        }
        let mut tabs = retain_entries(&self.tabs, tab_ids);
        let mut panes = retain_entries(&self.panes, pane_ids);
        let mut next = self.next_node;
        allocate_entries(&mut tabs, &mut next, tab_ids);
        proof {
            lemma_allocated(retained(old(self)@.tabs, tab_names), old(self)@.next_node as int, tab_names);
        }
        allocate_entries(&mut panes, &mut next, pane_ids);
        *self = WorkspaceNodes { tabs, panes, next_node: next };
    }

    /// Forget every tab and pane; their nodes are never handed out again.
    pub fn clear(&mut self)
        ensures
            final(self)@ == (WorkspaceNodesView { tabs: Seq::empty(), panes: Seq::empty(), next_node: old(self)@.next_node }),
            nodes_wf(final(self)@),
    {
        proof {
            use_type_invariant(&*self);
        }
        let cleared = WorkspaceNodes { tabs: Vec::new(), panes: Vec::new(), next_node: self.next_node };
        assert(entries_view(cleared.tabs@) =~= Seq::empty());
        assert(entries_view(cleared.panes@) =~= Seq::empty());
        *self = cleared;
    }

    /// The node of a tab.
    pub fn tab_node(&self, identity: &str) -> (node: Option<u64>)
        ensures
            match node {
                Some(n) => self@.tabs.contains((identity@, n)),
                None => !has_identity(self@.tabs, identity@),
            },
            node == first_node(self@.tabs, identity@, 0),
    {
        find_identity(&self.tabs, identity)
    }

    /// The node of a pane.
    pub fn pane_node(&self, identity: &str) -> (node: Option<u64>)
        ensures
            match node {
                Some(n) => self@.panes.contains((identity@, n)),
                None => !has_identity(self@.panes, identity@),
            },
            node == first_node(self@.panes, identity@, 0),
    {
        find_identity(&self.panes, identity)
    }
}

proof fn lemma_allocated_distinct(entries: Seq<(Seq<char>, u64)>, next: int, ids: Seq<Seq<char>>, low: int)
    requires
        distinct_entries(entries),
        nodes_within(entries, low, next),
        low <= next,
        0 <= next,
        next + ids.len() <= u64::MAX,
    ensures
        distinct_entries(allocated(entries, next, ids).0),
        nodes_within(allocated(entries, next, ids).0, low, allocated(entries, next, ids).1),
{
    lemma_allocated(entries, next, ids);
    let (out, n) = allocated(entries, next, ids);
    assert forall|i: int, j: int| 0 <= i < j < out.len() implies (#[trigger] out[i]).0 != (#[trigger] out[j]).0
        && out[i].1 != out[j].1 by {
        if j < entries.len() {
            assert(out[i] == entries[i] && out[j] == entries[j]);
        } else if i < entries.len() {
            assert(out[i] == entries[i]);
            assert(!has_identity(entries, out[j].0));
            assert(entries[i].1 < next);
        }
    }
    assert forall|i: int| 0 <= i < out.len() implies low <= (#[trigger] out[i]).1 < n by {
        if i < entries.len() {
            assert(out[i] == entries[i]);
        }
    }
}

/// Showing a new set of tabs and panes keeps the nodes well formed: every tab and
/// pane has exactly one node and no node serves two of them. A tab or pane that
/// stays keeps its node, each one shown has a node, and one that went away has
/// none.
pub proof fn lemma_set_workspace_keeps_identities(v: WorkspaceNodesView, tab_ids: Seq<Seq<char>>, pane_ids: Seq<Seq<char>>)
    requires
        nodes_wf(v),
        v.next_node + tab_ids.len() + pane_ids.len() <= u64::MAX,
    ensures
        nodes_wf(spec_set_workspace(v, tab_ids, pane_ids)),
        forall|x: (Seq<char>, u64)| v.tabs.contains(x) && tab_ids.contains(x.0)
            ==> #[trigger] spec_set_workspace(v, tab_ids, pane_ids).tabs.contains(x),
        forall|x: (Seq<char>, u64)| v.panes.contains(x) && pane_ids.contains(x.0)
            ==> #[trigger] spec_set_workspace(v, tab_ids, pane_ids).panes.contains(x),
        forall|k: int| 0 <= k < tab_ids.len() ==> has_identity(spec_set_workspace(v, tab_ids, pane_ids).tabs, #[trigger] tab_ids[k]),
        forall|k: int| 0 <= k < pane_ids.len() ==> has_identity(spec_set_workspace(v, tab_ids, pane_ids).panes, #[trigger] pane_ids[k]),
        forall|i: int| 0 <= i < spec_set_workspace(v, tab_ids, pane_ids).tabs.len()
            ==> tab_ids.contains((#[trigger] spec_set_workspace(v, tab_ids, pane_ids).tabs[i]).0),
        forall|i: int| 0 <= i < spec_set_workspace(v, tab_ids, pane_ids).panes.len()
            ==> pane_ids.contains((#[trigger] spec_set_workspace(v, tab_ids, pane_ids).panes[i]).0),
{
    let start = WORKSPACE_NODE_START as int;
    let next = v.next_node as int;
    let kept_tabs = retained(v.tabs, tab_ids);
    let kept_panes = retained(v.panes, pane_ids);
    lemma_retained(v.tabs, tab_ids);
    lemma_retained(v.panes, pane_ids);
    assert(nodes_within(kept_tabs, start, next));
    assert(nodes_within(kept_panes, start, next));
    lemma_allocated(kept_tabs, next, tab_ids);
    lemma_allocated_distinct(kept_tabs, next, tab_ids, start);
    let (tabs, n1) = allocated(kept_tabs, next, tab_ids);
    assert(nodes_within(kept_panes, start, n1)) by {
        assert forall|i: int| 0 <= i < kept_panes.len() implies start <= (#[trigger] kept_panes[i]).1 < n1 by {}
    }
    lemma_allocated(kept_panes, n1, pane_ids);
    lemma_allocated_distinct(kept_panes, n1, pane_ids, start);
    let (panes, n2) = allocated(kept_panes, n1, pane_ids);
    let out = spec_set_workspace(v, tab_ids, pane_ids);
    assert(out.tabs == tabs && out.panes == panes && out.next_node == n2);
    assert forall|i: int, j: int| 0 <= i < tabs.len() && 0 <= j < panes.len() implies (#[trigger] tabs[i]).1 != (#[trigger] panes[j]).1 by {
        if i < kept_tabs.len() && j < kept_panes.len() {
            assert(tabs[i] == kept_tabs[i] && panes[j] == kept_panes[j]);
            assert(kept_tabs.contains(kept_tabs[i]));
            assert(kept_panes.contains(kept_panes[j]));
            assert(v.tabs.contains(kept_tabs[i]));
            assert(v.panes.contains(kept_panes[j]));
            let a = choose|a: int| 0 <= a < v.tabs.len() && v.tabs[a] == kept_tabs[i];
            let b = choose|b: int| 0 <= b < v.panes.len() && v.panes[b] == kept_panes[j];
            assert(v.tabs[a].1 != v.panes[b].1);
        } else if i < kept_tabs.len() {
            assert(tabs[i] == kept_tabs[i]);
        } else if j < kept_panes.len() {
            assert(panes[j] == kept_panes[j]);
        }
    }
    assert forall|x: (Seq<char>, u64)| v.tabs.contains(x) && tab_ids.contains(x.0) implies #[trigger] out.tabs.contains(x) by {
        assert(kept_tabs.contains(x));
        let i = choose|i: int| 0 <= i < kept_tabs.len() && kept_tabs[i] == x;
        assert(tabs[i] == x);
    }
    assert forall|x: (Seq<char>, u64)| v.panes.contains(x) && pane_ids.contains(x.0) implies #[trigger] out.panes.contains(x) by {
        assert(kept_panes.contains(x));
        let i = choose|i: int| 0 <= i < kept_panes.len() && kept_panes[i] == x;
        assert(panes[i] == x);
    }
    assert forall|i: int| 0 <= i < out.tabs.len() implies tab_ids.contains((#[trigger] out.tabs[i]).0) by {
        if i < kept_tabs.len() {
            assert(tabs[i] == kept_tabs[i]);
            assert(kept_tabs.contains(kept_tabs[i]));
        }
    }
    assert forall|i: int| 0 <= i < out.panes.len() implies pane_ids.contains((#[trigger] out.panes[i]).0) by {
        if i < kept_panes.len() {
            assert(panes[i] == kept_panes[i]);
            assert(kept_panes.contains(kept_panes[i]));
        }
    }
    assert(nodes_within(tabs, start, n2)) by {
        assert forall|i: int| 0 <= i < tabs.len() implies start <= (#[trigger] tabs[i]).1 < n2 by {}
    }
}

/// An action that assistive technology asks of a node.
#[derive(Clone, Copy, Debug, PartialEq, Eq, Structural)]
pub enum AccessAction {
    Click,
    Focus,
    /// Any other action, which no node of Venus supports.
    Other,
}

/// The open and copy nodes of one visible link, and the cell it starts at.
#[derive(Clone, Copy, Debug, PartialEq, Eq, Structural)]
pub struct LinkNodes {
    pub open: u64,
    pub copy: u64,
    pub row: u16,
    pub column: u16,
}

/// Give each visible link, in order, an open node and a copy node, counting up
/// from `next`.
pub fn link_nodes(next: &mut u64, positions: &Vec<(u16, u16)>) -> (links: Vec<LinkNodes>)
    requires
        *old(next) + 2 * positions@.len() <= u64::MAX,
    ensures
        *final(next) == *old(next) + 2 * positions@.len(),
        links@.len() == positions@.len(),
        forall|k: int| 0 <= k < links@.len() ==> (#[trigger] links@[k]) == (LinkNodes {
            open: (*old(next) + 2 * k) as u64,
            copy: (*old(next) + 2 * k + 1) as u64,
            row: positions@[k].0,
            column: positions@[k].1,
        }),
{
    let ghost first = *next;
    let mut links: Vec<LinkNodes> = Vec::new();
    let mut i: usize = 0;
    while i < positions.len()
        invariant
            i <= positions@.len(),
            first + 2 * positions@.len() <= u64::MAX,
            *next == first + 2 * i,
            links@.len() == i,
            forall|k: int| 0 <= k < i ==> (#[trigger] links@[k]) == (LinkNodes {
                open: (first + 2 * k) as u64,
                copy: (first + 2 * k + 1) as u64,
                row: positions@[k].0,
                column: positions@[k].1,
            }),
        decreases positions@.len() - i,
    {
        let (row, column) = positions[i];
        links.push(LinkNodes { open: *next, copy: *next + 1, row, column });
        *next = *next + 2;
        i = i + 1;
    }
    links
}

/// The first link with `target` as its open or copy node, or the link count.
pub open spec fn link_at(links: Seq<LinkNodes>, target: u64, from: int) -> int
    decreases links.len() - from,
{
    if from < 0 || from >= links.len() {
        links.len() as int
    } else if links[from].open == target || links[from].copy == target {
        from
    } else {
        link_at(links, target, from + 1)
    }
}

/// The identity of the first entry whose node is `target`.
pub open spec fn node_owner(entries: Seq<(Seq<char>, u64)>, target: u64, from: int) -> Option<Seq<char>>
    decreases entries.len() - from,
{
    if from < 0 || from >= entries.len() {
        None
    } else if entries[from].1 == target {
        Some(entries[from].0)
    } else {
        node_owner(entries, target, from + 1)
    }
}

/// What an accessible action on `target` stands for. Nothing while the shortcut
/// viewer is open; a click on a link's open or copy node; otherwise only clicks
/// and focus requests, and those only with a workspace: on a header button, on the
/// terminal content while the terminal is visible, on a tab or on a pane.
pub open spec fn spec_action_target(
    viewer_open: bool,
    links: Seq<LinkNodes>,
    terminal_visible: Option<bool>,
    nodes: WorkspaceNodesView,
    target: u64,
    action: AccessAction,
) -> Option<AccessibilityTargetView> {
    let l = link_at(links, target, 0);
    if viewer_open {
        None
    } else if l < links.len() {
        if action == AccessAction::Click {
            Some(AccessibilityTargetView::Link { row: links[l].row, column: links[l].column, copy: links[l].copy == target })
        } else {
            None
        }
    } else if action == AccessAction::Other || terminal_visible is None {
        None
    } else if target == NEW_TAB_NODE || target == SHORTCUTS_NODE || target == CLOSE_TAB_NODE {
        let control = if target == NEW_TAB_NODE {
            WorkspaceHeaderControl::NewTab
        } else if target == SHORTCUTS_NODE {
            WorkspaceHeaderControl::Shortcuts
        } else {
            WorkspaceHeaderControl::CloseTab
        };
        Some(AccessibilityTargetView::HeaderControl { control, activate: action == AccessAction::Click })
    } else if target == CONTENT_NODE {
        if terminal_visible == Some(true) {
            Some(AccessibilityTargetView::Terminal)
        } else {
            None
        }
    } else {
        match node_owner(nodes.tabs, target, 0) {
            Some(id) => Some(AccessibilityTargetView::Tab(id)),
            None => match node_owner(nodes.panes, target, 0) {
                Some(id) => Some(AccessibilityTargetView::Pane(id)),
                None => None,
            },
        }
    }
}

fn owner_of(entries: &Vec<NodeEntry>, target: u64) -> (owner: Option<String>)
    ensures
        match node_owner(entries_view(entries@), target, 0) {
            Some(id) => owner matches Some(s) && s@ == id,
            None => owner is None,
        },
{
    let ghost all = entries_view(entries@);
    let mut i: usize = 0;
    while i < entries.len()
        invariant
            i <= entries@.len(),
            all == entries_view(entries@),
            node_owner(all, target, 0) == node_owner(all, target, i as int),
        decreases entries@.len() - i,
    {
        if entries[i].node == target {
            return Some(entries[i].identity.clone());
        }
        i = i + 1;
    }
    None
}

impl WorkspaceNodes {
    /// What an accessible action on `target` stands for; `terminal_visible` is
    /// `None` without a workspace, else whether the terminal is visible in it.
    pub fn action_target(
        &self,
        viewer_open: bool,
        links: &Vec<LinkNodes>,
        terminal_visible: Option<bool>,
        target: u64,
        action: AccessAction,
    ) -> (routed: Option<AccessibilityTarget>)
        ensures
            match spec_action_target(viewer_open, links@, terminal_visible, self@, target, action) {
                Some(view) => routed matches Some(t) && t@ == view,
                None => routed is None,
            },
    {
        if viewer_open {
            return None;
        }
        let mut l: usize = 0;
        while l < links.len()
            invariant
                !viewer_open,
                l <= links@.len(),
                link_at(links@, target, 0) == link_at(links@, target, l as int),
            decreases links@.len() - l,
        {
            let link = links[l];
            if link.open == target || link.copy == target {
                assert(link_at(links@, target, l as int) == l);
                if action != AccessAction::Click {
                    return None;
                }
                let routed = AccessibilityTarget::Link { row: link.row, column: link.column, copy: link.copy == target };
                assert(routed@ == AccessibilityTargetView::Link { row: link.row, column: link.column, copy: link.copy == target });
                return Some(routed);
            }
            l = l + 1;
        }
        if action == AccessAction::Other {
            return None;
        }
        let visible = match terminal_visible {
            Some(visible) => visible,
            None => return None,
        };
        if let Some(control) = header_control_for_node(target) {
            return Some(AccessibilityTarget::HeaderControl { control, activate: action == AccessAction::Click });
        }
        if target == CONTENT_NODE {
            return if visible { Some(AccessibilityTarget::Terminal) } else { None };
        }
        if let Some(id) = owner_of(&self.tabs, target) {
            return Some(AccessibilityTarget::Tab(id));
        }
        match owner_of(&self.panes, target) {
            Some(id) => Some(AccessibilityTarget::Pane(id)),
            None => None,
        }
    }
}

proof fn lemma_node_owner(entries: Seq<(Seq<char>, u64)>, target: u64, from: int)
    requires
        0 <= from,
    ensures
        node_owner(entries, target, from) is None <==> forall|i: int| from <= i < entries.len() ==> (#[trigger] entries[i]).1 != target,
    decreases entries.len() - from,
{
    if from < entries.len() {
        lemma_node_owner(entries, target, from + 1);
    }
}

/// A tab or pane that went away leaves its node behind: after the workspace
/// changes, no action on that node reaches any tab or pane.
pub proof fn lemma_removed_nodes_route_nowhere(
    v: WorkspaceNodesView,
    tab_ids: Seq<Seq<char>>,
    pane_ids: Seq<Seq<char>>,
    removed: (Seq<char>, u64),
)
    requires
        nodes_wf(v),
        v.next_node + tab_ids.len() + pane_ids.len() <= u64::MAX,
        (v.tabs.contains(removed) && !tab_ids.contains(removed.0)) || (v.panes.contains(removed) && !pane_ids.contains(removed.0)),
    ensures
        node_owner(spec_set_workspace(v, tab_ids, pane_ids).tabs, removed.1, 0) is None,
        node_owner(spec_set_workspace(v, tab_ids, pane_ids).panes, removed.1, 0) is None,
{
    let next = v.next_node as int;
    let kept_tabs = retained(v.tabs, tab_ids);
    let kept_panes = retained(v.panes, pane_ids);
    lemma_retained(v.tabs, tab_ids);
    lemma_retained(v.panes, pane_ids);
    lemma_allocated(kept_tabs, next, tab_ids);
    let (tabs, n1) = allocated(kept_tabs, next, tab_ids);
    lemma_allocated(kept_panes, n1, pane_ids);
    let (panes, n2) = allocated(kept_panes, n1, pane_ids);
    lemma_node_owner(tabs, removed.1, 0);
    lemma_node_owner(panes, removed.1, 0);
    assert(removed.1 < next) by {
        if v.tabs.contains(removed) {
            let a = choose|a: int| 0 <= a < v.tabs.len() && v.tabs[a] == removed;
            assert(v.tabs[a].1 < next);
        } else {
            let a = choose|a: int| 0 <= a < v.panes.len() && v.panes[a] == removed;
            assert(v.panes[a].1 < next);
        }
    }
    assert forall|i: int| 0 <= i < tabs.len() implies (#[trigger] tabs[i]).1 != removed.1 by {
        if i < kept_tabs.len() {
            let y = kept_tabs[i];
            assert(tabs[i] == y);
            assert(kept_tabs.contains(y));
            let b = choose|b: int| 0 <= b < v.tabs.len() && v.tabs[b] == y;
            if v.tabs.contains(removed) {
                let a = choose|a: int| 0 <= a < v.tabs.len() && v.tabs[a] == removed;
                if a != b {
                    assert(v.tabs[a].1 != v.tabs[b].1);
                }
            } else {
                let a = choose|a: int| 0 <= a < v.panes.len() && v.panes[a] == removed;
                assert(v.tabs[b].1 != v.panes[a].1);
            }
        }
    }
    assert forall|i: int| 0 <= i < panes.len() implies (#[trigger] panes[i]).1 != removed.1 by {
        if i < kept_panes.len() {
            let y = kept_panes[i];
            assert(panes[i] == y);
            assert(kept_panes.contains(y));
            let b = choose|b: int| 0 <= b < v.panes.len() && v.panes[b] == y;
            if v.panes.contains(removed) {
                let a = choose|a: int| 0 <= a < v.panes.len() && v.panes[a] == removed;
                if a != b {
                    assert(v.panes[a].1 != v.panes[b].1);
                }
            } else {
                let a = choose|a: int| 0 <= a < v.tabs.len() && v.tabs[a] == removed;
                assert(v.tabs[a].1 != v.panes[b].1);
            }
        }
    }
}

/// The link nodes of the presented scene, and the scene they belong to.
#[derive(Clone, Debug)]
pub struct AccessibleLinks {
    links: Vec<LinkNodes>,
    identity: Option<(u64, u64)>,
    next_node: u64,
}

/// The links, the scene identity, and the next free link node.
pub struct AccessibleLinksView {
    pub links: Seq<LinkNodes>,
    pub identity: Option<(u64, u64)>,
    pub next_node: u64,
}

impl View for AccessibleLinks {
    type V = AccessibleLinksView;

    closed spec fn view(&self) -> AccessibleLinksView {
        AccessibleLinksView { links: self.links@, identity: self.identity, next_node: self.next_node }
    }
}

/// Every offered link node was handed out below the next free one.
pub open spec fn links_wf(v: AccessibleLinksView) -> bool {
    forall|k: int| 0 <= k < v.links.len() ==> (#[trigger] v.links[k]).open < v.next_node && v.links[k].copy < v.next_node
}

impl AccessibleLinks {
    /// No links, for no scene.
    pub fn new() -> (links: Self)
        ensures
            links@.links.len() == 0,
            links@.identity is None,
            links@.next_node == LINK_NODE_START,
            links_wf(links@),
    {
        AccessibleLinks { links: Vec::new(), identity: None, next_node: LINK_NODE_START }
    }

    /// The link nodes now offered.
    pub fn links(&self) -> (links: &Vec<LinkNodes>)
        ensures
            links@ == self@.links,
    {
        &self.links
    }

    /// Offer the links of the scene `identity` (generation and revision), whose
    /// visible links start at `positions`. The same scene keeps its nodes; a new
    /// one retires every old node and gives its links fresh ones, and no scene has
    /// no links. Returns whether the links changed.
    pub fn set_links(&mut self, identity: Option<(u64, u64)>, positions: &Vec<(u16, u16)>) -> (changed: bool)
        requires
            old(self)@.next_node + 2 * positions@.len() <= u64::MAX,
        ensures
            changed == (identity != old(self)@.identity),
            links_wf(old(self)@) ==> links_wf(final(self)@),
            !changed ==> final(self)@ == old(self)@,
            changed ==> final(self)@.identity == identity,
            changed && identity is None ==> final(self)@.links.len() == 0 && final(self)@.next_node == old(self)@.next_node,
            changed && identity is Some ==> {
                &&& final(self)@.next_node == old(self)@.next_node + 2 * positions@.len()
                &&& final(self)@.links.len() == positions@.len()
                &&& forall|k: int| 0 <= k < positions@.len() ==> (#[trigger] final(self)@.links[k]) == (LinkNodes {
                    open: (old(self)@.next_node + 2 * k) as u64,
                    copy: (old(self)@.next_node + 2 * k + 1) as u64,
                    row: positions@[k].0,
                    column: positions@[k].1,
                })
            },
    {
        if identity == self.identity {
            return false;
        }
        self.identity = identity;
        if identity.is_none() {
            self.links = Vec::new();
        } else {
            let mut next = self.next_node;
            self.links = link_nodes(&mut next, positions);
            self.next_node = next;
        }
        true
    }
}

/// Links retire with their scene: once a new scene's links are offered, no node
/// of the old scene's links is offered again, since every new node lies above
/// every node ever handed out before.
pub proof fn lemma_links_retire_with_the_scene(before: AccessibleLinksView, after: AccessibleLinksView, positions: Seq<(u16, u16)>)
    requires
        links_wf(before),
        after.next_node == before.next_node + 2 * positions.len(),
        after.links.len() == positions.len(),
        forall|k: int| 0 <= k < positions.len() ==> (#[trigger] after.links[k]) == (LinkNodes {
            open: (before.next_node + 2 * k) as u64,
            copy: (before.next_node + 2 * k + 1) as u64,
            row: positions[k].0,
            column: positions[k].1,
        }),
    ensures
        forall|i: int, j: int| 0 <= i < before.links.len() && 0 <= j < after.links.len() ==> {
            let old_link = #[trigger] before.links[i];
            let new_link = #[trigger] after.links[j];
            &&& old_link.open != new_link.open && old_link.open != new_link.copy
            &&& old_link.copy != new_link.open && old_link.copy != new_link.copy
        },
        links_wf(after),
{
}

} // verus!
