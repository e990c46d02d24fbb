//! The accessibility tree of the window as plain nodes: their roles, labels,
//! values, children and actions, and which node has focus. Where each node is
//! drawn, how a list is oriented and which nodes clip their children follow from
//! the window's geometry and from the role; the window adds them.

use vstd::prelude::*;
use vstd::string::StringExecFns;
use crate::accessibility::{
    first_node, AccessibleLinks, AccessibleLinksView, LinkNodes, WorkspaceNodes, WorkspaceNodesView, CLOSE_TAB_NODE,
    CONTENT_NODE, NEW_TAB_NODE, PANE_PANEL_NODE, QUOTA_NODE, SHORTCUTS_NODE, SHORTCUT_DIALOG_NODE, STATUS_NODE,
    TAB_LIST_NODE, TEXT_RUN_NODE_START, WINDOW_NODE,
};
use crate::viewer::{ShortcutGroup, ShortcutRow};
use crate::workspace::{opt_str_view, WorkspaceFocus};

verus! {

/// The first node of the shortcut viewer's groups.
pub const SHORTCUT_NODE_START: u64 = 0x0100_0000_0000_0000;
/// The node distance between two groups of the shortcut viewer.
pub const SHORTCUT_GROUP_STRIDE: u64 = 256;

/// What a node is to assistive technology.
#[derive(Clone, Copy, Debug, PartialEq, Eq, Structural)]
pub enum AccessRole {
    Window,
    Dialog,
    Group,
    Label,
    Terminal,
    GenericContainer,
    Alert,
    TabList,
    Tab,
    Button,
    TabPanel,
    TextRun,
    Link,
}

/// One node of the tree.
#[derive(Clone, Debug)]
pub struct AccessNode {
    pub id: u64,
    pub role: AccessRole,
    pub label: Option<String>,
    pub description: Option<String>,
    pub value: Option<String>,
    pub children: Vec<u64>,
    /// Whether the node offers the click action.
    pub click: bool,
    /// Whether the node offers the focus action.
    pub focus: bool,
    pub selected: Option<bool>,
    pub expanded: Option<bool>,
    pub read_only: bool,
    pub modal: bool,
}

/// A node as values.
pub struct AccessNodeView {
    pub id: u64,
    pub role: AccessRole,
    pub label: Option<Seq<char>>,
    pub description: Option<Seq<char>>,
    pub value: Option<Seq<char>>,
    pub children: Seq<u64>,
    pub click: bool,
    pub focus: bool,
    pub selected: Option<bool>,
    pub expanded: Option<bool>,
    pub read_only: bool,
    pub modal: bool,
}

impl View for AccessNode {
    type V = AccessNodeView;

    open spec fn view(&self) -> AccessNodeView {
        AccessNodeView {
            id: self.id,
            role: self.role,
            label: opt_str_view(self.label),
            description: opt_str_view(self.description),
            value: opt_str_view(self.value),
            children: self.children@,
            click: self.click,
            focus: self.focus,
            selected: self.selected,
            expanded: self.expanded,
            read_only: self.read_only,
            modal: self.modal,
        }
    }
}

/// The nodes of the window and the node that has focus.
#[derive(Clone, Debug)]
pub struct AccessTree {
    pub nodes: Vec<AccessNode>,
    pub focus: u64,
}

pub open spec fn nodes_view(nodes: Seq<AccessNode>) -> Seq<AccessNodeView> {
    nodes.map_values(|node: AccessNode| node@)
}

impl View for AccessTree {
    type V = (Seq<AccessNodeView>, u64);

    open spec fn view(&self) -> (Seq<AccessNodeView>, u64) {
        (nodes_view(self.nodes@), self.focus)
    }
}

/// A workspace tab as shown: its identity, its accessible label, and whether it
/// is the selected tab.
#[derive(Clone, Debug)]
pub struct TreeTab {
    pub id: String,
    pub label: String,
    pub selected: bool,
}

/// A pane of the expanded tab as shown.
#[derive(Clone, Debug)]
pub struct TreePane {
    pub id: String,
    pub label: String,
    pub selected: bool,
}

/// The quota chip: its text and what it explains.
#[derive(Clone, Debug)]
pub struct TreeQuota {
    pub label: String,
    pub description: String,
}

/// The workspace chrome as shown.
#[derive(Clone, Debug)]
pub struct TreeWorkspace {
    pub tabs: Vec<TreeTab>,
    pub panes: Vec<TreePane>,
    pub quota: Option<TreeQuota>,
    /// The label of the popup that covers the panes, if any.
    pub popup_label: Option<String>,
    /// Whether any of the terminal is visible.
    pub terminal_visible: bool,
}

/// What the window shows, as assistive technology reads it.
#[derive(Clone, Debug)]
pub struct PresentedView {
    pub title: String,
    pub status: String,
    /// The text of each terminal row.
    pub rows: Vec<String>,
    /// Whether a terminal is shown.
    pub terminal: bool,
    pub scrollback_label: Option<String>,
    pub workspace: Option<TreeWorkspace>,
    /// The groups of the shortcut viewer while it is open.
    pub shortcut_viewer: Option<Vec<ShortcutGroup>>,
    pub focus: WorkspaceFocus,
    /// The label of each offered link, in the order of the links.
    pub link_labels: Vec<String>,
}

/// A node with this id and role and nothing else set.
pub open spec fn plain(id: u64, role: AccessRole) -> AccessNodeView {
    AccessNodeView {
        id,
        role,
        label: None,
        description: None,
        value: None,
        children: Seq::empty(),
        click: false,
        focus: false,
        selected: None,
        expanded: None,
        read_only: false,
        modal: false,
    }
}

/// The status is announced beside a terminal when there is one.
pub open spec fn status_alert(view: PresentedView) -> bool {
    view.terminal && view.status@.len() > 0
}

pub open spec fn root_children(view: PresentedView) -> Seq<u64> {
    match view.workspace {
        Some(w) => seq![TAB_LIST_NODE] + (if w.quota is Some { seq![QUOTA_NODE] } else { Seq::empty() }) + seq![
            NEW_TAB_NODE,
            SHORTCUTS_NODE,
            CLOSE_TAB_NODE,
            PANE_PANEL_NODE,
        ] + (if status_alert(view) { seq![STATUS_NODE] } else { Seq::empty() }),
        None => if status_alert(view) { seq![CONTENT_NODE, STATUS_NODE] } else { seq![CONTENT_NODE] },
    }
}

pub open spec fn root_node(view: PresentedView) -> AccessNodeView {
    AccessNodeView { label: Some(view.title@), children: root_children(view), ..plain(WINDOW_NODE, AccessRole::Window) }
}

pub open spec fn text_run_node(k: int) -> u64 {
    (TEXT_RUN_NODE_START + k) as u64
}

/// The open and copy node of each of the first `k` links, in order.
pub open spec fn link_children(links: Seq<LinkNodes>, k: int) -> Seq<u64>
    decreases k,
{
    if k <= 0 {
        Seq::empty()
    } else {
        link_children(links, k - 1).push(links[k - 1].open).push(links[k - 1].copy)
    }
}

pub open spec fn scrollback_description(label: Seq<char>) -> Seq<char> {
    "Scrollback: "@ + label + " above live output (committed display rows)"@
}

pub open spec fn content_node(view: PresentedView, links: Seq<LinkNodes>) -> AccessNodeView {
    if view.terminal {
        AccessNodeView {
            label: Some(view.title@),
            description: match view.scrollback_label {
                Some(label) => Some(scrollback_description(label@)),
                None => None,
            },
            children: Seq::new(view.rows@.len(), |k: int| text_run_node(k)) + link_children(links, links.len() as int),
            read_only: true,
            ..plain(CONTENT_NODE, AccessRole::Terminal)
        }
    } else if view.status@.len() == 0 {
        AccessNodeView {
            label: Some("Tab content"@),
            value: Some(view.status@),
            ..plain(CONTENT_NODE, AccessRole::GenericContainer)
        }
    } else {
        AccessNodeView { label: Some("Venus status"@), value: Some(view.status@), ..plain(CONTENT_NODE, AccessRole::Alert) }
    }
}

/// The node of a tab or pane identity; the content node where it has none.
pub open spec fn node_or_content(entries: Seq<(Seq<char>, u64)>, id: Seq<char>) -> u64 {
    match first_node(entries, id, 0) {
        Some(n) => n,
        None => CONTENT_NODE,
    }
}

pub open spec fn tab_list_node(w: TreeWorkspace, nodes: WorkspaceNodesView) -> AccessNodeView {
    AccessNodeView {
        label: Some("Eon workspace tabs"@),
        children: Seq::new(w.tabs@.len(), |k: int| node_or_content(nodes.tabs, w.tabs@[k].id@)),
        ..plain(TAB_LIST_NODE, AccessRole::TabList)
    }
}

pub open spec fn tab_node(tab: TreeTab, nodes: WorkspaceNodesView) -> AccessNodeView {
    AccessNodeView {
        label: Some(tab.label@),
        selected: Some(tab.selected),
        click: true,
        focus: true,
        ..plain(node_or_content(nodes.tabs, tab.id@), AccessRole::Tab)
    }
}

pub open spec fn quota_node(quota: TreeQuota) -> AccessNodeView {
    AccessNodeView {
        value: Some(quota.label@),
        description: Some(quota.description@),
        ..plain(QUOTA_NODE, AccessRole::Label)
    }
}

/// The index of the first selected tab at or after `from`.
pub open spec fn first_selected_tab(tabs: Seq<TreeTab>, from: int) -> Option<int>
    decreases tabs.len() - from,
{
    if from < 0 || from >= tabs.len() {
        None
    } else if tabs[from].selected {
        Some(from)
    } else {
        first_selected_tab(tabs, from + 1)
    }
}

/// The index of the first selected pane at or after `from`.
pub open spec fn first_selected_pane(panes: Seq<TreePane>, from: int) -> Option<int>
    decreases panes.len() - from,
{
    if from < 0 || from >= panes.len() {
        None
    } else if panes[from].selected {
        Some(from)
    } else {
        first_selected_pane(panes, from + 1)
    }
}

pub open spec fn control_button(id: u64, label: Seq<char>) -> AccessNodeView {
    AccessNodeView { label: Some(label), click: true, focus: true, ..plain(id, AccessRole::Button) }
}

pub open spec fn close_tab_node(w: TreeWorkspace) -> AccessNodeView {
    AccessNodeView {
        description: match first_selected_tab(w.tabs@, 0) {
            Some(i) => Some("Active tab "@ + w.tabs@[i].id@),
            None => None,
        },
        ..control_button(CLOSE_TAB_NODE, "Close tab — Alt+Shift+W"@)
    }
}

/// The panel children from the first `k` panes: each pane, and the content
/// right after the selected ones.
pub open spec fn panel_children(panes: Seq<TreePane>, nodes: WorkspaceNodesView, k: int) -> Seq<u64>
    decreases k,
{
    if k <= 0 {
        Seq::empty()
    } else {
        let before = panel_children(panes, nodes, k - 1).push(node_or_content(nodes.panes, panes[k - 1].id@));
        if panes[k - 1].selected { before.push(CONTENT_NODE) } else { before }
    }
}

pub open spec fn panel_label(w: TreeWorkspace) -> Seq<char> {
    match w.popup_label {
        Some(label) => label@,
        None => if w.panes@.len() == 0 { "Empty tab"@ } else { "Active tab panes"@ },
    }
}

pub open spec fn panel_node(view: PresentedView, w: TreeWorkspace, nodes: WorkspaceNodesView) -> AccessNodeView {
    AccessNodeView {
        label: Some(panel_label(w)),
        children: (if w.panes@.len() == 0 && (w.terminal_visible || view.status@.len() > 0) {
            seq![CONTENT_NODE]
        } else {
            Seq::empty()
        }) + panel_children(w.panes@, nodes, w.panes@.len() as int),
        ..plain(PANE_PANEL_NODE, AccessRole::TabPanel)
    }
}

pub open spec fn pane_node(pane: TreePane, nodes: WorkspaceNodesView) -> AccessNodeView {
    AccessNodeView {
        label: Some(pane.label@),
        selected: Some(pane.selected),
        expanded: Some(pane.selected),
        click: true,
        focus: true,
        ..plain(node_or_content(nodes.panes, pane.id@), AccessRole::Button)
    }
}

/// The nodes of the workspace chrome: the tab list and its tabs, the quota chip,
/// the three header buttons, and the pane panel with its panes.
pub open spec fn workspace_nodes(view: PresentedView, w: TreeWorkspace, nodes: WorkspaceNodesView) -> Seq<AccessNodeView> {
    seq![tab_list_node(w, nodes)] + Seq::new(w.tabs@.len(), |k: int| tab_node(w.tabs@[k], nodes)) + (match w.quota {
        Some(q) => seq![quota_node(q)],
        None => Seq::empty(),
    }) + seq![
        control_button(NEW_TAB_NODE, "New tab — Alt+Shift+T"@),
        control_button(SHORTCUTS_NODE, "Keyboard shortcuts — Alt+/"@),
        close_tab_node(w),
        panel_node(view, w, nodes),
    ] + Seq::new(w.panes@.len(), |k: int| pane_node(w.panes@[k], nodes))
}

pub open spec fn text_run(k: int, row: Seq<char>) -> AccessNodeView {
    AccessNodeView { value: Some(row), ..plain(text_run_node(k), AccessRole::TextRun) }
}

/// The open and copy node of each of the first `k` links: the open node is a
/// link, the copy node a button, and both offer only the click action.
pub open spec fn link_nodes_view(links: Seq<LinkNodes>, labels: Seq<String>, k: int) -> Seq<AccessNodeView>
    decreases k,
{
    if k <= 0 {
        Seq::empty()
    } else {
        link_nodes_view(links, labels, k - 1).push(
            AccessNodeView { label: Some(labels[k - 1]@), click: true, ..plain(links[k - 1].open, AccessRole::Link) },
        ).push(
            AccessNodeView {
                label: Some("Copy "@ + labels[k - 1]@),
                click: true,
                ..plain(links[k - 1].copy, AccessRole::Button)
            },
        )
    }
}

pub open spec fn status_node(view: PresentedView) -> AccessNodeView {
    AccessNodeView { label: Some(view.status@), ..plain(STATUS_NODE, AccessRole::Alert) }
}

/// Where focus goes: the terminal without a workspace; with one, by the
/// workspace focus, to the selected tab, the selected pane or the terminal, which
/// stands in for the selected tab while no terminal is visible.
pub open spec fn tree_focus(view: PresentedView, nodes: WorkspaceNodesView) -> u64 {
    match view.workspace {
        None => CONTENT_NODE,
        Some(w) => {
            let selected_tab = match first_selected_tab(w.tabs@, 0) {
                Some(i) => node_or_content(nodes.tabs, w.tabs@[i].id@),
                None => CONTENT_NODE,
            };
            let content = if w.terminal_visible { CONTENT_NODE } else { selected_tab };
            match view.focus {
                WorkspaceFocus::Terminal => content,
                WorkspaceFocus::Panes => match first_selected_pane(w.panes@, 0) {
                    Some(i) => match first_node(nodes.panes, w.panes@[i].id@, 0) {
                        Some(n) => n,
                        None => content,
                    },
                    None => content,
                },
                WorkspaceFocus::Tabs => selected_tab,
            }
        },
    }
}

pub open spec fn group_node_id(g: int) -> u64 {
    (SHORTCUT_NODE_START + g * SHORTCUT_GROUP_STRIDE) as u64
}

pub open spec fn row_node_id(g: int, r: int) -> u64 {
    (SHORTCUT_NODE_START + g * SHORTCUT_GROUP_STRIDE + r + 1) as u64
}

pub open spec fn group_node(groups: Seq<ShortcutGroup>, g: int) -> AccessNodeView {
    AccessNodeView {
        label: Some(groups[g].title@),
        children: Seq::new(groups[g].rows@.len(), |r: int| row_node_id(g, r)),
        ..plain(group_node_id(g), AccessRole::Group)
    }
}

pub open spec fn row_node(groups: Seq<ShortcutGroup>, g: int, r: int) -> AccessNodeView {
    AccessNodeView {
        value: Some(groups[g].rows@[r].shortcut@ + " — "@ + groups[g].rows@[r].label@),
        ..plain(row_node_id(g, r), AccessRole::Label)
    }
}

/// Each of the first `g` groups, followed by its rows.
pub open spec fn viewer_nodes(groups: Seq<ShortcutGroup>, g: int) -> Seq<AccessNodeView>
    decreases g,
{
    if g <= 0 {
        Seq::empty()
    } else {
        viewer_nodes(groups, g - 1).push(group_node(groups, g - 1)) + Seq::new(
            groups[g - 1].rows@.len(),
            |r: int| row_node(groups, g - 1, r),
        )
    }
}

pub open spec fn dialog_description() -> Seq<char> {
    "Native Eon surface shortcuts. Use arrows or Page Up and Page Down to scroll; press Escape or Alt+Slash to close."@
}

pub open spec fn dialog_node(groups: Seq<ShortcutGroup>) -> AccessNodeView {
    AccessNodeView {
        label: Some("Eon shortcuts"@),
        description: Some(dialog_description()),
        children: Seq::new(groups.len(), |g: int| group_node_id(g)),
        modal: true,
        ..plain(SHORTCUT_DIALOG_NODE, AccessRole::Dialog)
    }
}

/// The tree of the window. An open shortcut viewer replaces everything else with
/// a focused modal dialog. Otherwise the window holds the workspace chrome, if
/// any, the content (a terminal with a text run per row and a node pair per
/// link, or the status), and the status as an alert beside a terminal.
pub open spec fn spec_accessibility_tree(
    view: PresentedView,
    nodes: WorkspaceNodesView,
    links: AccessibleLinksView,
) -> (Seq<AccessNodeView>, u64) {
    match view.shortcut_viewer {
        Some(groups) => (
            seq![
                AccessNodeView {
                    label: Some(view.title@),
                    children: seq![SHORTCUT_DIALOG_NODE],
                    ..plain(WINDOW_NODE, AccessRole::Window)
                },
            ] + viewer_nodes(groups@, groups@.len() as int) + seq![dialog_node(groups@)],
            SHORTCUT_DIALOG_NODE,
        ),
        None => (
            seq![root_node(view), content_node(view, links.links)] + (match view.workspace {
                Some(w) => workspace_nodes(view, w, nodes),
                None => Seq::empty(),
            }) + (if view.terminal {
                Seq::new(view.rows@.len(), |k: int| text_run(k, view.rows@[k]@))
            } else {
                Seq::empty()
            }) + link_nodes_view(links.links, view.link_labels@, links.links.len() as int) + (if status_alert(view) {
                seq![status_node(view)]
            } else {
                Seq::empty()
            }),
            tree_focus(view, nodes),
        ),
    }
}

/// Outside the shortcut viewer, every tab of the workspace has a tab node right
/// after the tab list, in tab order, that carries the tab's label and reports the
/// tab as selected exactly when the tab is the selected one.
pub proof fn lemma_tab_nodes_report_their_tabs(view: PresentedView, nodes: WorkspaceNodesView, links: AccessibleLinksView, k: int)
    requires
        view.shortcut_viewer is None,
        view.workspace is Some,
        0 <= k < view.workspace->0.tabs@.len(),
    ensures
        ({
            let tree = spec_accessibility_tree(view, nodes, links).0;
            let tab = view.workspace->0.tabs@[k];
            &&& 3 + k < tree.len()
            &&& tree[3 + k].role == AccessRole::Tab
            &&& tree[3 + k].id == node_or_content(nodes.tabs, tab.id@)
            &&& tree[3 + k].label == Some(tab.label@)
            &&& tree[3 + k].selected == Some(tab.selected)
            &&& tree[3 + k].click && tree[3 + k].focus
        }),
{
    let w = view.workspace->0;
    let chrome = workspace_nodes(view, w, nodes);
    let tabs = Seq::new(w.tabs@.len(), |j: int| tab_node(w.tabs@[j], nodes));
    assert(chrome[1 + k] == tabs[k]);
    let head = seq![root_node(view), content_node(view, links.links)] + chrome;
    assert(head[3 + k] == chrome[1 + k]);
}

fn text(s: &str) -> (t: String)
    ensures
        t@ == s@,
{
    String::from_str(s)
}

fn joined(a: &str, b: &str) -> (t: String)
    ensures
        t@ == a@ + b@,
{
    let mut t = String::from_str(a);
    t.append(b);
    t
}

fn leaf(id: u64, role: AccessRole, label: Option<String>, description: Option<String>, value: Option<String>) -> (node: AccessNode)
    ensures
        node@ == (AccessNodeView {
            label: opt_str_view(label),
            description: opt_str_view(description),
            value: opt_str_view(value),
            ..plain(id, role)
        }),
{
    let node = AccessNode {
        id,
        role,
        label,
        description,
        value,
        children: Vec::new(),
        click: false,
        focus: false,
        selected: None,
        expanded: None,
        read_only: false,
        modal: false,
    };
    assert(node@.children =~= Seq::<u64>::empty());
    node
}

fn push_node(out: &mut Vec<AccessNode>, node: AccessNode)
    ensures
        nodes_view(final(out)@) == nodes_view(old(out)@).push(node@),
{
    let ghost v = node@;
    let ghost before = out@;
    out.push(node);
    assert(nodes_view(out@) =~= nodes_view(before).push(v));
}

fn make_root(view: &PresentedView) -> (node: AccessNode)
    ensures
        node@ == root_node(*view),
{
    let alert = view.terminal && !view.status.as_str().is_empty();
    let mut children: Vec<u64> = Vec::new();
    match &view.workspace {
        Some(w) => {
            children.push(TAB_LIST_NODE);
            if w.quota.is_some() {
                children.push(QUOTA_NODE);
            }
            children.push(NEW_TAB_NODE);
            children.push(SHORTCUTS_NODE);
            children.push(CLOSE_TAB_NODE);
            children.push(PANE_PANEL_NODE);
            if alert {
                children.push(STATUS_NODE);
            }
        },
        None => {
            children.push(CONTENT_NODE);
            if alert {
                children.push(STATUS_NODE);
            }
        },
    }
    assert(children@ =~= root_children(*view));
    let mut node = leaf(WINDOW_NODE, AccessRole::Window, Some(text(view.title.as_str())), None, None);
    node.children = children;
    node
}

fn make_content(view: &PresentedView, links: &Vec<LinkNodes>) -> (node: AccessNode)
    requires
        view.rows@.len() <= 0x1_0000,
    ensures
        node@ == content_node(*view, links@),
{
    if view.terminal {
        let mut children: Vec<u64> = Vec::new();
        let mut k: usize = 0;
        while k < view.rows.len()
            invariant
                k <= view.rows@.len() <= 0x1_0000,
                children@ =~= Seq::new(k as nat, |j: int| text_run_node(j)),
            decreases view.rows@.len() - k,
        {
            children.push(TEXT_RUN_NODE_START + k as u64);
            k = k + 1;
        }
        let ghost runs = children@;
        let mut l: usize = 0;
        while l < links.len()
            invariant
                l <= links@.len(),
                children@ == runs + link_children(links@, l as int),
            decreases links@.len() - l,
        {
            children.push(links[l].open);
            children.push(links[l].copy);
            l = l + 1;
            assert(children@ =~= runs + link_children(links@, l as int));
        }
        let description = match &view.scrollback_label {
            Some(label) => {
                let mut d = String::from_str("Scrollback: ");
                d.append(label.as_str());
                d.append(" above live output (committed display rows)");
                Some(d)
            },
            None => None,
        };
        let mut node = leaf(CONTENT_NODE, AccessRole::Terminal, Some(text(view.title.as_str())), description, None);
        node.children = children;
        node.read_only = true;
        node
    } else if view.status.as_str().is_empty() {
        leaf(CONTENT_NODE, AccessRole::GenericContainer, Some(text("Tab content")), None, Some(text(view.status.as_str())))
    } else {
        leaf(CONTENT_NODE, AccessRole::Alert, Some(text("Venus status")), None, Some(text(view.status.as_str())))
    }
}

fn tab_node_of(nodes: &WorkspaceNodes, id: &str) -> (node: u64)
    ensures
        node == node_or_content(nodes@.tabs, id@),
{
    match nodes.tab_node(id) {
        Some(n) => n,
        None => CONTENT_NODE,
    }
}

fn pane_node_of(nodes: &WorkspaceNodes, id: &str) -> (node: u64)
    ensures
        node == node_or_content(nodes@.panes, id@),
{
    match nodes.pane_node(id) {
        Some(n) => n,
        None => CONTENT_NODE,
    }
}

fn selected_tab_index(tabs: &Vec<TreeTab>) -> (index: Option<usize>)
    ensures
        match index {
            Some(i) => i < tabs@.len() && first_selected_tab(tabs@, 0) == Some(i as int),
            None => first_selected_tab(tabs@, 0) is None,
        },
{
    let mut i: usize = 0;
    while i < tabs.len()
        invariant
            i <= tabs@.len(),
            first_selected_tab(tabs@, 0) == first_selected_tab(tabs@, i as int),
        decreases tabs@.len() - i,
    {
        if tabs[i].selected {
            return Some(i);
        }
        i = i + 1;
    }
    None
}

fn selected_pane_index(panes: &Vec<TreePane>) -> (index: Option<usize>)
    ensures
        match index {
            Some(i) => i < panes@.len() && first_selected_pane(panes@, 0) == Some(i as int),
            None => first_selected_pane(panes@, 0) is None,
        },
{
    let mut i: usize = 0;
    while i < panes.len()
        invariant
            i <= panes@.len(),
            first_selected_pane(panes@, 0) == first_selected_pane(panes@, i as int),
        decreases panes@.len() - i,
    {
        if panes[i].selected {
            return Some(i);
        }
        i = i + 1;
    }
    None
}

fn push_workspace(out: &mut Vec<AccessNode>, view: &PresentedView, w: &TreeWorkspace, nodes: &WorkspaceNodes)
    ensures
        nodes_view(final(out)@) == nodes_view(old(out)@) + workspace_nodes(*view, *w, nodes@),
{
    let ghost start = nodes_view(out@);
    let mut tab_children: Vec<u64> = Vec::new();
    let mut k: usize = 0;
    while k < w.tabs.len()
        invariant
            k <= w.tabs@.len(),
            tab_children@ =~= Seq::new(k as nat, |j: int| node_or_content(nodes@.tabs, w.tabs@[j].id@)),
        decreases w.tabs@.len() - k,
    {
        tab_children.push(tab_node_of(nodes, w.tabs[k].id.as_str()));
        k = k + 1;
    }
    let mut list = leaf(TAB_LIST_NODE, AccessRole::TabList, Some(text("Eon workspace tabs")), None, None);
    list.children = tab_children;
    assert(list@ == tab_list_node(*w, nodes@));
    push_node(out, list);
    let ghost after_list = nodes_view(out@);
    let mut k: usize = 0;
    while k < w.tabs.len()
        invariant
            k <= w.tabs@.len(),
            nodes_view(out@) =~= after_list + Seq::new(k as nat, |j: int| tab_node(w.tabs@[j], nodes@)),
        decreases w.tabs@.len() - k,
    {
        let tab = &w.tabs[k];
        let mut node = leaf(tab_node_of(nodes, tab.id.as_str()), AccessRole::Tab, Some(text(tab.label.as_str())), None, None);
        node.selected = Some(tab.selected);
        node.click = true;
        node.focus = true;
        assert(node@ == tab_node(w.tabs@[k as int], nodes@));
        push_node(out, node);
        k = k + 1;
    }
    let ghost after_tabs = nodes_view(out@);
    match &w.quota {
        Some(q) => push_node(
            out,
            leaf(QUOTA_NODE, AccessRole::Label, None, Some(text(q.description.as_str())), Some(text(q.label.as_str()))),
        ),
        None => {},
    }
    let ghost after_quota = nodes_view(out@);
    assert(after_quota =~= after_tabs + (match w.quota {
        Some(q) => seq![quota_node(q)],
        None => Seq::<AccessNodeView>::empty(),
    }));
    let mut new_tab = leaf(NEW_TAB_NODE, AccessRole::Button, Some(text("New tab — Alt+Shift+T")), None, None);
    new_tab.click = true;
    new_tab.focus = true;
    push_node(out, new_tab);
    let mut shortcuts = leaf(SHORTCUTS_NODE, AccessRole::Button, Some(text("Keyboard shortcuts — Alt+/")), None, None);
    shortcuts.click = true;
    shortcuts.focus = true;
    push_node(out, shortcuts);
    let description = match selected_tab_index(&w.tabs) {
        Some(i) => Some(joined("Active tab ", w.tabs[i].id.as_str())),
        None => None,
    };
    let mut close = leaf(CLOSE_TAB_NODE, AccessRole::Button, Some(text("Close tab — Alt+Shift+W")), description, None);
    close.click = true;
    close.focus = true;
    assert(close@ == close_tab_node(*w));
    push_node(out, close);
    let mut panel_children_vec: Vec<u64> = Vec::new();
    if w.panes.len() == 0 && (w.terminal_visible || !view.status.as_str().is_empty()) {
        panel_children_vec.push(CONTENT_NODE);
    }
    let ghost lead = panel_children_vec@;
    let mut k: usize = 0;
    while k < w.panes.len()
        invariant
            k <= w.panes@.len(),
            panel_children_vec@ == lead + panel_children(w.panes@, nodes@, k as int),
        decreases w.panes@.len() - k,
    {
        panel_children_vec.push(pane_node_of(nodes, w.panes[k].id.as_str()));
        if w.panes[k].selected {
            panel_children_vec.push(CONTENT_NODE);
        }
        k = k + 1;
        assert(panel_children_vec@ =~= lead + panel_children(w.panes@, nodes@, k as int));
    }
    let label = match &w.popup_label {
        Some(label) => text(label.as_str()),
        None => if w.panes.len() == 0 { text("Empty tab") } else { text("Active tab panes") },
    };
    let mut panel = leaf(PANE_PANEL_NODE, AccessRole::TabPanel, Some(label), None, None);
    panel.children = panel_children_vec;
    assert(panel@.children =~= panel_node(*view, *w, nodes@).children);
    assert(panel@ == panel_node(*view, *w, nodes@));
    push_node(out, panel);
    let ghost after_panel = nodes_view(out@);
    let mut k: usize = 0;
    while k < w.panes.len()
        invariant
            k <= w.panes@.len(),
            nodes_view(out@) =~= after_panel + Seq::new(k as nat, |j: int| pane_node(w.panes@[j], nodes@)),
        decreases w.panes@.len() - k,
    {
        let pane = &w.panes[k];
        let mut node = leaf(pane_node_of(nodes, pane.id.as_str()), AccessRole::Button, Some(text(pane.label.as_str())), None, None);
        node.selected = Some(pane.selected);
        node.expanded = Some(pane.selected);
        node.click = true;
        node.focus = true;
        assert(node@ == pane_node(w.panes@[k as int], nodes@));
        push_node(out, node);
        k = k + 1;
    }
    assert(nodes_view(out@) =~= start + workspace_nodes(*view, *w, nodes@));
}

fn push_text_runs(out: &mut Vec<AccessNode>, rows: &Vec<String>)
    requires
        rows@.len() <= 0x1_0000,
    ensures
        nodes_view(final(out)@) == nodes_view(old(out)@) + Seq::new(rows@.len(), |k: int| text_run(k, rows@[k]@)),
{
    let ghost start = nodes_view(out@);
    let mut k: usize = 0;
    while k < rows.len()
        invariant
            k <= rows@.len() <= 0x1_0000,
            nodes_view(out@) =~= start + Seq::new(k as nat, |j: int| text_run(j, rows@[j]@)),
        decreases rows@.len() - k,
    {
        push_node(out, leaf(TEXT_RUN_NODE_START + k as u64, AccessRole::TextRun, None, None, Some(text(rows[k].as_str()))));
        k = k + 1;
    }
}

fn push_links(out: &mut Vec<AccessNode>, links: &Vec<LinkNodes>, labels: &Vec<String>)
    requires
        labels@.len() == links@.len(),
    ensures
        nodes_view(final(out)@) == nodes_view(old(out)@) + link_nodes_view(links@, labels@, links@.len() as int),
{
    let ghost start = nodes_view(out@);
    let mut k: usize = 0;
    while k < links.len()
        invariant
            k <= links@.len() == labels@.len(),
            nodes_view(out@) == start + link_nodes_view(links@, labels@, k as int),
        decreases links@.len() - k,
    {
        let mut open = leaf(links[k].open, AccessRole::Link, Some(text(labels[k].as_str())), None, None);
        open.click = true;
        push_node(out, open);
        let mut copy = leaf(links[k].copy, AccessRole::Button, Some(joined("Copy ", labels[k].as_str())), None, None);
        copy.click = true;
        push_node(out, copy);
        k = k + 1;
        assert(nodes_view(out@) =~= start + link_nodes_view(links@, labels@, k as int));
    }
}

fn focus_of(view: &PresentedView, nodes: &WorkspaceNodes) -> (focus: u64)
    ensures
        focus == tree_focus(*view, nodes@),
{
    match &view.workspace {
        None => CONTENT_NODE,
        Some(w) => {
            let selected_tab = match selected_tab_index(&w.tabs) {
                Some(i) => tab_node_of(nodes, w.tabs[i].id.as_str()),
                None => CONTENT_NODE,
            };
            let content = if w.terminal_visible { CONTENT_NODE } else { selected_tab };
            match view.focus {
                WorkspaceFocus::Terminal => content,
                WorkspaceFocus::Panes => match selected_pane_index(&w.panes) {
                    Some(i) => match nodes.pane_node(w.panes[i].id.as_str()) {
                        Some(n) => n,
                        None => content,
                    },
                    None => content,
                },
                WorkspaceFocus::Tabs => selected_tab,
            }
        },
    }
}

/// Whether the viewer's groups and rows stay within the node range given to them.
pub open spec fn viewer_fits(groups: Seq<ShortcutGroup>) -> bool {
    &&& groups.len() < 0x1_0000_0000
    &&& forall|g: int| 0 <= g < groups.len() ==> (#[trigger] groups[g]).rows@.len() < 0x1_0000_0000
}

fn viewer_tree(title: &String, groups: &Vec<ShortcutGroup>) -> (nodes: Vec<AccessNode>)
    requires
        viewer_fits(groups@),
    ensures
        nodes_view(nodes@) == seq![
            AccessNodeView {
                label: Some(title@),
                children: seq![SHORTCUT_DIALOG_NODE],
                ..plain(WINDOW_NODE, AccessRole::Window)
            },
        ] + viewer_nodes(groups@, groups@.len() as int) + seq![dialog_node(groups@)],
{
    let mut out: Vec<AccessNode> = Vec::new();
    let mut root = leaf(WINDOW_NODE, AccessRole::Window, Some(text(title.as_str())), None, None);
    let mut root_children: Vec<u64> = Vec::new();
    root_children.push(SHORTCUT_DIALOG_NODE);
    root.children = root_children;
    push_node(&mut out, root);
    let ghost first = nodes_view(out@);
    let mut group_ids: Vec<u64> = Vec::new();
    let mut g: usize = 0;
    while g < groups.len()
        invariant
            g <= groups@.len(),
            viewer_fits(groups@),
            nodes_view(out@) == first + viewer_nodes(groups@, g as int),
            group_ids@ =~= Seq::new(g as nat, |j: int| group_node_id(j)),
        decreases groups@.len() - g,
    {
        let group = &groups[g];
        let id = SHORTCUT_NODE_START + g as u64 * SHORTCUT_GROUP_STRIDE;
        let mut row_ids: Vec<u64> = Vec::new();
        let mut r: usize = 0;
        while r < group.rows.len()
            invariant
                r <= group.rows@.len() < 0x1_0000_0000,
                g < 0x1_0000_0000,
                id == group_node_id(g as int),
                row_ids@ =~= Seq::new(r as nat, |j: int| row_node_id(g as int, j)),
            decreases group.rows@.len() - r,
        {
            row_ids.push(id + r as u64 + 1);
            r = r + 1;
        }
        let mut node = leaf(id, AccessRole::Group, Some(text(group.title.as_str())), None, None);
        node.children = row_ids;
        assert(node@ == group_node(groups@, g as int));
        push_node(&mut out, node);
        let ghost with_group = nodes_view(out@);
        let mut r: usize = 0;
        while r < group.rows.len()
            invariant
                r <= group.rows@.len() < 0x1_0000_0000,
                g < groups@.len(),
                g < 0x1_0000_0000,
                *group == groups@[g as int],
                id == group_node_id(g as int),
                nodes_view(out@) =~= with_group + Seq::new(r as nat, |j: int| row_node(groups@, g as int, j)),
            decreases group.rows@.len() - r,
        {
            let row = &group.rows[r];
            let mut value = String::from_str(row.shortcut.as_str());
            value.append(" — ");
            value.append(row.label.as_str());
            push_node(&mut out, leaf(id + r as u64 + 1, AccessRole::Label, None, None, Some(value)));
            r = r + 1;
        }
        group_ids.push(id);
        g = g + 1;
        assert(nodes_view(out@) =~= first + viewer_nodes(groups@, g as int));
    }
    let mut dialog = leaf(
        SHORTCUT_DIALOG_NODE,
        AccessRole::Dialog,
        Some(text("Eon shortcuts")),
        Some(text("Native Eon surface shortcuts. Use arrows or Page Up and Page Down to scroll; press Escape or Alt+Slash to close.")),
        None,
    );
    dialog.children = group_ids;
    dialog.modal = true;
    push_node(&mut out, dialog);
    out
}

/// The accessibility tree of the window. Each tab and pane that is shown has a
/// node, and each offered link a label.
pub fn accessibility_tree(view: &PresentedView, nodes: &WorkspaceNodes, links: &AccessibleLinks) -> (tree: AccessTree)
    requires
        view.rows@.len() <= 0x1_0000,
        view.link_labels@.len() == links@.links.len(),
        view.shortcut_viewer matches Some(groups) ==> viewer_fits(groups@),
        view.workspace matches Some(w) ==> {
            &&& forall|k: int| 0 <= k < w.tabs@.len() ==> first_node(nodes@.tabs, (#[trigger] w.tabs@[k]).id@, 0) is Some
            &&& forall|k: int| 0 <= k < w.panes@.len() ==> first_node(nodes@.panes, (#[trigger] w.panes@[k]).id@, 0) is Some
        },
    ensures
        tree@ == spec_accessibility_tree(*view, nodes@, links@),
{
    if let Some(groups) = &view.shortcut_viewer {
        return AccessTree { nodes: viewer_tree(&view.title, groups), focus: SHORTCUT_DIALOG_NODE };
    }
    let offered = links.links();
    let mut out: Vec<AccessNode> = Vec::new();
    push_node(&mut out, make_root(view));
    push_node(&mut out, make_content(view, offered));
    let ghost base = nodes_view(out@);
    match &view.workspace {
        Some(w) => push_workspace(&mut out, view, w, nodes),
        None => {},
    }
    let ghost with_workspace = nodes_view(out@);
    if view.terminal {
        push_text_runs(&mut out, &view.rows);
    }
    let ghost with_runs = nodes_view(out@);
    push_links(&mut out, offered, &view.link_labels);
    let ghost with_links = nodes_view(out@);
    if view.terminal && !view.status.as_str().is_empty() {
        push_node(&mut out, leaf(STATUS_NODE, AccessRole::Alert, Some(text(view.status.as_str())), None, None));
    }
    let tree = AccessTree { nodes: out, focus: focus_of(view, nodes) };
    proof {
        let spec = spec_accessibility_tree(*view, nodes@, links@);
        assert(base =~= seq![root_node(*view), content_node(*view, links@.links)]);
        assert(with_workspace =~= base + (match view.workspace {
            Some(w) => workspace_nodes(*view, w, nodes@),
            None => Seq::<AccessNodeView>::empty(),
        }));
        assert(tree@.0 =~= spec.0);
    }
    tree
}

} // verus!
