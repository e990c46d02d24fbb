//! The last complete Eon-authored workspace accepted by Venus.

use vstd::prelude::*;
use vstd::string::StringExecFns;
use crate::model::{bounded, bounded_text};
use crate::text::{bytes_eq, copy_bytes, str_eq};

verus! {

/// Which part of the window has keyboard focus.
#[derive(Clone, Copy, Debug, PartialEq, Eq, Structural)]
pub enum WorkspaceFocus {
    Terminal,
    Tabs,
    Panes,
}

/// A workspace action that Eon performs for any client.
#[derive(Clone, Debug, PartialEq, Eq)]
pub enum CommonAction {
    Focus(crate::shortcuts::WorkspaceDirection),
    Move(crate::shortcuts::WorkspaceDirection),
    FocusId(String),
    CreatePane,
    CreateTab,
    CloseTab { tab: String },
}

/// Whether invoking a popup toggles it or only focuses it.
#[derive(Clone, Copy, Debug, PartialEq, Eq, Structural)]
pub enum InvokeIntent {
    Toggle,
    Focus,
}

/// One semantic request to the Eon workspace.
#[derive(Clone, Debug, PartialEq, Eq)]
pub enum WorkspaceAction {
    Workspace(CommonAction),
    InvokePopup { tab: String, entry: String, expected_instance: Option<String>, intent: InvokeIntent },
}

/// One pane of an Eon tab and the Orbit endpoint that serves it.
#[derive(Clone, Debug)]
pub struct Pane {
    pub id: String,
    pub session: String,
    pub endpoint: Vec<u8>,
    pub live: bool,
}

/// A popup open in a tab: its instance, the entry it shows, and the Orbit
/// endpoint that serves it.
#[derive(Clone, Debug)]
pub struct Popup {
    pub id: String,
    pub entry: String,
    pub session: String,
    pub endpoint: Vec<u8>,
}

/// One Eon tab with its panes and popups.
#[derive(Clone, Debug)]
pub struct Tab {
    pub id: String,
    pub directory: Vec<u8>,
    pub selected_pane: String,
    pub panes: Vec<Pane>,
    pub popups: Vec<Popup>,
    /// The popup shown over the tab, if any.
    pub selected_popup: Option<String>,
}

/// A project or tool popup that Eon offers in every tab, with the shortcut that
/// invokes it as workspace modifier bits and a key name.
#[derive(Clone, Debug, PartialEq, Eq)]
pub struct PopupEntry {
    pub id: String,
    pub label: String,
    pub modifiers: u8,
    pub key: String,
}

/// A complete workspace as Eon describes it.
#[derive(Clone, Debug)]
pub struct Snapshot {
    pub active_tab: String,
    pub tabs: Vec<Tab>,
    pub entries: Vec<PopupEntry>,
}

/// Eon refused a workspace request.
#[derive(Clone, Debug)]
pub struct WorkspaceFailure {
    pub code: String,
    pub detail: String,
}

/// One complete reply from the Eon workspace boundary.
#[derive(Clone, Debug)]
pub enum WorkspaceResponse {
    Snapshot(Snapshot),
    Failure(WorkspaceFailure),
}

impl View for Pane {
    type V = (Seq<char>, Seq<char>, Seq<u8>, bool);

    open spec fn view(&self) -> Self::V {
        (self.id@, self.session@, self.endpoint@, self.live)
    }
}

impl View for Popup {
    type V = (Seq<char>, Seq<char>, Seq<char>, Seq<u8>);

    open spec fn view(&self) -> Self::V {
        (self.id@, self.entry@, self.session@, self.endpoint@)
    }
}

impl View for PopupEntry {
    type V = (Seq<char>, Seq<char>, u8, Seq<char>);

    open spec fn view(&self) -> Self::V {
        (self.id@, self.label@, self.modifiers, self.key@)
    }
}

pub open spec fn opt_str_view(value: Option<String>) -> Option<Seq<char>> {
    match value {
        Some(v) => Some(v@),
        None => None,
    }
}

impl View for Tab {
    type V = (
        Seq<char>,
        Seq<u8>,
        Seq<char>,
        Seq<(Seq<char>, Seq<char>, Seq<u8>, bool)>,
        Seq<(Seq<char>, Seq<char>, Seq<char>, Seq<u8>)>,
        Option<Seq<char>>,
    );

    open spec fn view(&self) -> Self::V {
        (
            self.id@,
            self.directory@,
            self.selected_pane@,
            self.panes@.map_values(|pane: Pane| pane@),
            self.popups@.map_values(|popup: Popup| popup@),
            opt_str_view(self.selected_popup),
        )
    }
}

impl View for Snapshot {
    type V = (
        Seq<char>,
        Seq<<Tab as View>::V>,
        Seq<(Seq<char>, Seq<char>, u8, Seq<char>)>,
    );

    open spec fn view(&self) -> Self::V {
        (self.active_tab@, self.tabs@.map_values(|tab: Tab| tab@), self.entries@.map_values(|entry: PopupEntry| entry@))
    }
}

fn pane_eq(a: &Pane, b: &Pane) -> (equal: bool)
    ensures
        equal == (a@ == b@),
{
    str_eq(a.id.as_str(), b.id.as_str()) && str_eq(a.session.as_str(), b.session.as_str())
        && bytes_eq(a.endpoint.as_slice(), b.endpoint.as_slice()) && a.live == b.live
}

fn popup_eq(a: &Popup, b: &Popup) -> (equal: bool)
    ensures
        equal == (a@ == b@),
{
    str_eq(a.id.as_str(), b.id.as_str()) && str_eq(a.entry.as_str(), b.entry.as_str())
        && str_eq(a.session.as_str(), b.session.as_str()) && bytes_eq(a.endpoint.as_slice(), b.endpoint.as_slice())
}

fn entry_eq(a: &PopupEntry, b: &PopupEntry) -> (equal: bool)
    ensures
        equal == (a@ == b@),
{
    str_eq(a.id.as_str(), b.id.as_str()) && str_eq(a.label.as_str(), b.label.as_str()) && a.modifiers == b.modifiers
        && str_eq(a.key.as_str(), b.key.as_str())
}

fn opt_str_eq(a: &Option<String>, b: &Option<String>) -> (equal: bool)
    ensures
        equal == (opt_str_view(*a) == opt_str_view(*b)),
{
    match (a, b) {
        (Some(a), Some(b)) => str_eq(a.as_str(), b.as_str()),
        (None, None) => true,
        _ => false,
    }
}

fn panes_eq(a: &Vec<Pane>, b: &Vec<Pane>) -> (equal: bool)
    ensures
        equal == (a@.map_values(|pane: Pane| pane@) == b@.map_values(|pane: Pane| pane@)),
{
    if a.len() != b.len() {
        assert(a@.map_values(|pane: Pane| pane@).len() != b@.map_values(|pane: Pane| pane@).len());
        return false;
    }
    let mut i: usize = 0;
    while i < a.len()
        invariant
            i <= a@.len(),
            a@.len() == b@.len(),
            forall|k: int| 0 <= k < i ==> a@[k]@ == b@[k]@,
        decreases a@.len() - i,
    {
        if !pane_eq(&a[i], &b[i]) {
            assert(a@.map_values(|pane: Pane| pane@)[i as int] != b@.map_values(|pane: Pane| pane@)[i as int]);
            return false;
        }
        i = i + 1;
    }
    assert(a@.map_values(|pane: Pane| pane@) =~= b@.map_values(|pane: Pane| pane@));
    true
}

fn popups_eq(a: &Vec<Popup>, b: &Vec<Popup>) -> (equal: bool)
    ensures
        equal == (a@.map_values(|popup: Popup| popup@) == b@.map_values(|popup: Popup| popup@)),
{
    if a.len() != b.len() {
        assert(a@.map_values(|popup: Popup| popup@).len() != b@.map_values(|popup: Popup| popup@).len());
        return false;
    }
    let mut i: usize = 0;
    while i < a.len()
        invariant
            i <= a@.len(),
            a@.len() == b@.len(),
            forall|k: int| 0 <= k < i ==> a@[k]@ == b@[k]@,
        decreases a@.len() - i,
    {
        if !popup_eq(&a[i], &b[i]) {
            assert(a@.map_values(|popup: Popup| popup@)[i as int] != b@.map_values(|popup: Popup| popup@)[i as int]);
            return false;
        }
        i = i + 1;
    }
    assert(a@.map_values(|popup: Popup| popup@) =~= b@.map_values(|popup: Popup| popup@));
    true
}

fn entries_eq(a: &Vec<PopupEntry>, b: &Vec<PopupEntry>) -> (equal: bool)
    ensures
        equal == (a@.map_values(|entry: PopupEntry| entry@) == b@.map_values(|entry: PopupEntry| entry@)),
{
    if a.len() != b.len() {
        assert(a@.map_values(|entry: PopupEntry| entry@).len() != b@.map_values(|entry: PopupEntry| entry@).len());
        return false;
    }
    let mut i: usize = 0;
    while i < a.len()
        invariant
            i <= a@.len(),
            a@.len() == b@.len(),
            forall|k: int| 0 <= k < i ==> a@[k]@ == b@[k]@,
        decreases a@.len() - i,
    {
        if !entry_eq(&a[i], &b[i]) {
            assert(a@.map_values(|entry: PopupEntry| entry@)[i as int] != b@.map_values(|entry: PopupEntry| entry@)[i as int]);
            return false;
        }
        i = i + 1;
    }
    assert(a@.map_values(|entry: PopupEntry| entry@) =~= b@.map_values(|entry: PopupEntry| entry@));
    true
}

fn tab_eq(a: &Tab, b: &Tab) -> (equal: bool)
    ensures
        equal == (a@ == b@),
{
    str_eq(a.id.as_str(), b.id.as_str()) && bytes_eq(a.directory.as_slice(), b.directory.as_slice())
        && str_eq(a.selected_pane.as_str(), b.selected_pane.as_str()) && panes_eq(&a.panes, &b.panes)
        && popups_eq(&a.popups, &b.popups) && opt_str_eq(&a.selected_popup, &b.selected_popup)
}

/// Whether two snapshots describe the same workspace.
pub fn snapshot_eq(a: &Snapshot, b: &Snapshot) -> (equal: bool)
    ensures
        equal == (a@ == b@),
{
    if !str_eq(a.active_tab.as_str(), b.active_tab.as_str()) || a.tabs.len() != b.tabs.len() {
        assert(a@.1.len() == a.tabs@.len() && b@.1.len() == b.tabs@.len());
        return false;
    }
    let mut i: usize = 0;
    while i < a.tabs.len()
        invariant
            i <= a.tabs@.len(),
            a.tabs@.len() == b.tabs@.len(),
            forall|k: int| 0 <= k < i ==> a.tabs@[k]@ == b.tabs@[k]@,
        decreases a.tabs@.len() - i,
    {
        if !tab_eq(&a.tabs[i], &b.tabs[i]) {
            assert(a@.1[i as int] != b@.1[i as int]);
            return false;
        }
        i = i + 1;
    }
    assert(a@.1 =~= b@.1);
    entries_eq(&a.entries, &b.entries)
}

/// The first tab at or after `from` with this id, or the tab count.
pub open spec fn find_tab(tabs: Seq<Tab>, id: Seq<char>, from: int) -> int
    decreases tabs.len() - from,
{
    if from < 0 || from >= tabs.len() { tabs.len() as int } else if tabs[from].id@ == id { from } else { find_tab(tabs, id, from + 1) }
}

/// The first pane at or after `from` with this id, or the pane count.
pub open spec fn find_pane(panes: Seq<Pane>, id: Seq<char>, from: int) -> int
    decreases panes.len() - from,
{
    if from < 0 || from >= panes.len() { panes.len() as int } else if panes[from].id@ == id { from } else { find_pane(panes, id, from + 1) }
}

/// The endpoint and liveness of the selected pane of the active tab.
pub open spec fn spec_active_attachment(snapshot: Snapshot) -> Option<(Seq<u8>, bool)> {
    let t = find_tab(snapshot.tabs@, snapshot.active_tab@, 0);
    if t >= snapshot.tabs@.len() {
        None
    } else {
        let tab = snapshot.tabs@[t];
        let p = find_pane(tab.panes@, tab.selected_pane@, 0);
        if p >= tab.panes@.len() { None } else { Some((tab.panes@[p].endpoint@, tab.panes@[p].live)) }
    }
}

/// `find_tab` gives the first tab at or after `from` with the id, or the count
/// when no tab from there on has it.
pub proof fn lemma_find_tab(tabs: Seq<Tab>, id: Seq<char>, from: int)
    requires
        0 <= from <= tabs.len(),
    ensures
        ({
            let t = find_tab(tabs, id, from);
            &&& from <= t <= tabs.len()
            &&& t < tabs.len() ==> tabs[t].id@ == id
            &&& forall|j: int| from <= j < t ==> (#[trigger] tabs[j]).id@ != id
        }),
    decreases tabs.len() - from,
{
    if from < tabs.len() && tabs[from].id@ != id {
        lemma_find_tab(tabs, id, from + 1);
    }
}

/// `find_pane` gives the first pane at or after `from` with the id, or the count
/// when no pane from there on has it.
pub proof fn lemma_find_pane(panes: Seq<Pane>, id: Seq<char>, from: int)
    requires
        0 <= from <= panes.len(),
    ensures
        ({
            let p = find_pane(panes, id, from);
            &&& from <= p <= panes.len()
            &&& p < panes.len() ==> panes[p].id@ == id
            &&& forall|j: int| from <= j < p ==> (#[trigger] panes[j]).id@ != id
        }),
    decreases panes.len() - from,
{
    if from < panes.len() && panes[from].id@ != id {
        lemma_find_pane(panes, id, from + 1);
    }
}

/// Venus attaches to the selected pane of the active tab and to no other pane:
/// an attachment is the endpoint and liveness of a pane of the active tab whose id
/// is that tab's selected pane, and whenever the active tab holds its selected
/// pane, the attachment is that pane's (the first, should ids repeat).
pub proof fn lemma_attachment_is_selected_pane(snapshot: Snapshot)
    ensures
        spec_active_attachment(snapshot) matches Some((endpoint, live)) ==> exists|t: int, p: int|
            0 <= t < snapshot.tabs@.len() && snapshot.tabs@[t].id@ == snapshot.active_tab@
            && 0 <= p < snapshot.tabs@[t].panes@.len()
            && (#[trigger] snapshot.tabs@[t].panes@[p]).id@ == snapshot.tabs@[t].selected_pane@
            && snapshot.tabs@[t].panes@[p].endpoint@ == endpoint && snapshot.tabs@[t].panes@[p].live == live,
        forall|t: int, p: int|
            0 <= t < snapshot.tabs@.len() && snapshot.tabs@[t].id@ == snapshot.active_tab@
            && (forall|j: int| 0 <= j < t ==> (#[trigger] snapshot.tabs@[j]).id@ != snapshot.active_tab@)
            && 0 <= p < snapshot.tabs@[t].panes@.len()
            && (#[trigger] snapshot.tabs@[t].panes@[p]).id@ == snapshot.tabs@[t].selected_pane@
            && (forall|q: int| 0 <= q < p ==> (#[trigger] snapshot.tabs@[t].panes@[q]).id@ != snapshot.tabs@[t].selected_pane@)
            ==> spec_active_attachment(snapshot) == Some((snapshot.tabs@[t].panes@[p].endpoint@, snapshot.tabs@[t].panes@[p].live)),
{
    let tabs = snapshot.tabs@;
    let t0 = find_tab(tabs, snapshot.active_tab@, 0);
    lemma_find_tab(tabs, snapshot.active_tab@, 0);
    if t0 < tabs.len() {
        let tab = tabs[t0];
        lemma_find_pane(tab.panes@, tab.selected_pane@, 0);
        let p0 = find_pane(tab.panes@, tab.selected_pane@, 0);
        if p0 < tab.panes@.len() {
            assert(tabs[t0].panes@[p0].id@ == tabs[t0].selected_pane@);
        }
    }
    assert forall|t: int, p: int|
        0 <= t < snapshot.tabs@.len() && snapshot.tabs@[t].id@ == snapshot.active_tab@
        && (forall|j: int| 0 <= j < t ==> (#[trigger] snapshot.tabs@[j]).id@ != snapshot.active_tab@)
        && 0 <= p < snapshot.tabs@[t].panes@.len()
        && (#[trigger] snapshot.tabs@[t].panes@[p]).id@ == snapshot.tabs@[t].selected_pane@
        && (forall|q: int| 0 <= q < p ==> (#[trigger] snapshot.tabs@[t].panes@[q]).id@ != snapshot.tabs@[t].selected_pane@)
        implies spec_active_attachment(snapshot) == Some((snapshot.tabs@[t].panes@[p].endpoint@, snapshot.tabs@[t].panes@[p].live)) by {
        if t0 < t {
            assert(tabs[t0].id@ == snapshot.active_tab@);
        }
        if t < t0 {
            assert(tabs[t].id@ != snapshot.active_tab@);
        }
        assert(t0 == t);
        let tab = tabs[t];
        let p0 = find_pane(tab.panes@, tab.selected_pane@, 0);
        lemma_find_pane(tab.panes@, tab.selected_pane@, 0);
        if p0 < p {
            assert(tab.panes@[p0].id@ == tab.selected_pane@);
        }
        if p < p0 {
            assert(tab.panes@[p].id@ != tab.selected_pane@);
        }
        assert(p0 == p);
    }
}

/// The first popup at or after `from` with this id, or the popup count.
pub open spec fn find_popup(popups: Seq<Popup>, id: Seq<char>, from: int) -> int
    decreases popups.len() - from,
{
    if from < 0 || from >= popups.len() { popups.len() as int } else if popups[from].id@ == id { from } else { find_popup(popups, id, from + 1) }
}

/// The popup shown over the workspace: the selected popup of the active tab,
/// where that names one of its popups.
pub open spec fn spec_active_popup(snapshot: Snapshot) -> Option<Popup> {
    let t = find_tab(snapshot.tabs@, snapshot.active_tab@, 0);
    if t >= snapshot.tabs@.len() {
        None
    } else {
        let tab = snapshot.tabs@[t];
        match tab.selected_popup {
            None => None,
            Some(id) => {
                let p = find_popup(tab.popups@, id@, 0);
                if p >= tab.popups@.len() { None } else { Some(tab.popups@[p]) }
            },
        }
    }
}

/// What applying a snapshot reports: `(view changed, snapshot changed)`.
pub open spec fn snapshot_changes(
    previous: Option<<Snapshot as View>::V>,
    had_notice: bool,
    snapshot: <Snapshot as View>::V,
) -> (bool, bool) {
    let snapshot_changed = previous != Some(snapshot);
    (snapshot_changed || had_notice, snapshot_changed)
}

/// The notice for a workspace failure reply.
pub open spec fn failure_notice(code: Seq<char>, detail: Seq<char>) -> Seq<char> {
    bounded_text("Eon workspace "@ + code + ": "@ + detail)
}

/// The last complete Eon-authored workspace accepted by Venus, and the notice
/// explaining why a later request failed.
#[derive(Debug)]
pub struct WorkspaceModel {
    pub snapshot: Option<Snapshot>,
    pub notice: Option<String>,
}

impl Default for WorkspaceModel {
    fn default() -> (model: Self)
        ensures
            model.snapshot is None,
            model.notice is None,
    {
        WorkspaceModel { snapshot: None, notice: None }
    }
}

impl WorkspaceModel {
    pub open spec fn snapshot_view(&self) -> Option<<Snapshot as View>::V> {
        match self.snapshot {
            Some(snapshot) => Some(snapshot@),
            None => None,
        }
    }

    pub open spec fn notice_view(&self) -> Option<Seq<char>> {
        match self.notice {
            Some(notice) => Some(notice@),
            None => None,
        }
    }

    pub fn snapshot(&self) -> (snapshot: Option<&Snapshot>)
        ensures
            snapshot == match self.snapshot {
                Some(s) => Some(&s),
                None => None::<&Snapshot>,
            },
    {
        self.snapshot.as_ref()
    }

    pub fn notice(&self) -> (notice: Option<&str>)
        ensures
            match notice {
                Some(text) => self.notice_view() == Some(text@),
                None => self.notice is None,
            },
    {
        match &self.notice {
            Some(text) => Some(text.as_str()),
            None => None,
        }
    }

    /// Apply a response and report `(view changed, snapshot changed)`.
    pub fn apply(&mut self, response: WorkspaceResponse) -> (changed: (bool, bool))
        ensures
            match response {
                WorkspaceResponse::Snapshot(snapshot) => {
                    &&& changed == snapshot_changes(old(self).snapshot_view(), old(self).notice is Some, snapshot@)
                    &&& final(self).snapshot_view() == Some(snapshot@)
                    &&& final(self).notice is None
                },
                WorkspaceResponse::Failure(failure) => {
                    &&& changed.0 == (old(self).notice_view() != Some(failure_notice(failure.code@, failure.detail@)))
                    &&& !changed.1
                    &&& final(self).snapshot_view() == old(self).snapshot_view()
                    &&& final(self).notice_view() == Some(failure_notice(failure.code@, failure.detail@))
                },
            },
    {
        match response {
            WorkspaceResponse::Snapshot(snapshot) => {
                let snapshot_changed = match &self.snapshot {
                    Some(previous) => !snapshot_eq(previous, &snapshot),
                    None => true,
                };
                let view_changed = snapshot_changed || self.notice.is_some();
                self.snapshot = Some(snapshot);
                self.notice = None;
                (view_changed, snapshot_changed)
            }
            WorkspaceResponse::Failure(failure) => {
                let mut text = String::from_str("Eon workspace ");
                text.append(failure.code.as_str());
                text.append(": ");
                text.append(failure.detail.as_str());
                (self.set_notice(bounded(text)), false)
            }
        }
    }

    /// Explain that the workspace boundary is unavailable. Returns whether the
    /// notice changed.
    pub fn mark_unavailable(&mut self, detail: String) -> (changed: bool)
        ensures
            changed == (old(self).notice_view() != Some(bounded_text(detail@))),
            final(self).notice_view() == Some(bounded_text(detail@)),
            final(self).snapshot_view() == old(self).snapshot_view(),
    {
        self.set_notice(bounded(detail))
    }

    fn set_notice(&mut self, notice: String) -> (changed: bool)
        ensures
            changed == (old(self).notice_view() != Some(notice@)),
            final(self).notice_view() == Some(notice@),
            final(self).snapshot_view() == old(self).snapshot_view(),
    {
        let changed = match &self.notice {
            Some(previous) => !str_eq(previous.as_str(), notice.as_str()),
            None => true,
        };
        self.notice = Some(notice);
        changed
    }

    /// The endpoint and liveness of the pane that Venus should attach to: the
    /// selected pane of the active tab.
    pub fn active_attachment(&self) -> (attachment: Option<(&[u8], bool)>)
        ensures
            match self.snapshot {
                None => attachment is None,
                Some(snapshot) => match spec_active_attachment(snapshot) {
                    None => attachment is None,
                    Some((endpoint, live)) => attachment matches Some((e, l)) && e@ == endpoint && l == live,
                },
            },
    {
        let snapshot = match &self.snapshot {
            Some(snapshot) => snapshot,
            None => return None,
        };
        let t = tab_index(&snapshot.tabs, snapshot.active_tab.as_str());
        if t >= snapshot.tabs.len() {
            return None;
        }
        let tab = &snapshot.tabs[t];
        let p = pane_index(&tab.panes, tab.selected_pane.as_str());
        if p >= tab.panes.len() {
            return None;
        }
        Some((tab.panes[p].endpoint.as_slice(), tab.panes[p].live))
    }
}

/// The index of the first tab with this id, or the tab count.
pub fn tab_index(tabs: &Vec<Tab>, id: &str) -> (index: usize)
    ensures
        index as int == find_tab(tabs@, id@, 0),
{
    let mut t: usize = 0;
    while t < tabs.len()
        invariant
            t <= tabs@.len(),
            find_tab(tabs@, id@, 0) == find_tab(tabs@, id@, t as int),
        decreases tabs@.len() - t,
    {
        if str_eq(tabs[t].id.as_str(), id) {
            return t;
        }
        t = t + 1;
    }
    t
}

/// The index of the first pane with this id, or the pane count.
pub fn pane_index(panes: &Vec<Pane>, id: &str) -> (index: usize)
    ensures
        index as int == find_pane(panes@, id@, 0),
{
    let mut p: usize = 0;
    while p < panes.len()
        invariant
            p <= panes@.len(),
            find_pane(panes@, id@, 0) == find_pane(panes@, id@, p as int),
        decreases panes@.len() - p,
    {
        if str_eq(panes[p].id.as_str(), id) {
            return p;
        }
        p = p + 1;
    }
    p
}

/// The index of the first popup with this id, or the popup count.
fn popup_index(popups: &Vec<Popup>, id: &str) -> (index: usize)
    ensures
        index as int == find_popup(popups@, id@, 0),
{
    let mut p: usize = 0;
    while p < popups.len()
        invariant
            p <= popups@.len(),
            find_popup(popups@, id@, 0) == find_popup(popups@, id@, p as int),
        decreases popups@.len() - p,
    {
        if str_eq(popups[p].id.as_str(), id) {
            return p;
        }
        p = p + 1;
    }
    p
}

/// The popup shown over the workspace, if any.
pub fn active_popup(snapshot: &Snapshot) -> (popup: Option<&Popup>)
    ensures
        match popup {
            Some(p) => spec_active_popup(*snapshot) == Some(*p),
            None => spec_active_popup(*snapshot) is None,
        },
{
    let t = tab_index(&snapshot.tabs, snapshot.active_tab.as_str());
    if t >= snapshot.tabs.len() {
        return None;
    }
    let tab = &snapshot.tabs[t];
    match &tab.selected_popup {
        None => None,
        Some(id) => {
            let p = popup_index(&tab.popups, id.as_str());
            if p >= tab.popups.len() {
                None
            } else {
                Some(&tab.popups[p])
            }
        },
    }
}

/// Law: a snapshot applied again after it was accepted, with no notice standing,
/// reports that neither the view nor the snapshot changed; once a failure notice
/// stands, the same snapshot changes the view (the notice goes) but not the snapshot.
pub proof fn lemma_repeated_snapshot_is_quiet(snapshot: <Snapshot as View>::V)
    ensures
        snapshot_changes(Some(snapshot), false, snapshot) == (false, false),
        snapshot_changes(Some(snapshot), true, snapshot) == (true, false),
        snapshot_changes(None, false, snapshot) == (true, true),
{
}

/// Whether Venus observes pane metadata at `endpoint`: no popup covers the
/// workspace, a live pane of the active tab is served there, and it is not the
/// selected endpoint while Venus is not attached to it.
pub open spec fn is_metadata_endpoint(
    snapshot: Snapshot,
    selected: Option<Seq<u8>>,
    selected_attached: bool,
    endpoint: Seq<u8>,
) -> bool {
    let t = find_tab(snapshot.tabs@, snapshot.active_tab@, 0);
    &&& spec_active_popup(snapshot) is None
    &&& t < snapshot.tabs@.len()
    &&& exists|k: int| 0 <= k < snapshot.tabs@[t].panes@.len()
        && #[trigger] snapshot.tabs@[t].panes@[k].live && snapshot.tabs@[t].panes@[k].endpoint@ == endpoint
    &&& !(!selected_attached && selected == Some(endpoint))
}

/// The bytes of a selected endpoint, if there is one.
pub open spec fn selected_bytes(selected: Option<&[u8]>) -> Option<Seq<u8>> {
    match selected {
        Some(s) => Some(s@),
        None => None,
    }
}

fn holds_bytes(list: &Vec<Vec<u8>>, bytes: &[u8]) -> (found: bool)
    ensures
        found == exists|j: int| 0 <= j < list@.len() && (#[trigger] list@[j])@ == bytes@,
{
    let mut i: usize = 0;
    while i < list.len()
        invariant
            i <= list@.len(),
            forall|j: int| 0 <= j < i ==> (#[trigger] list@[j])@ != bytes@,
        decreases list@.len() - i,
    {
        if bytes_eq(list[i].as_slice(), bytes) {
            return true;
        }
        i = i + 1;
    }
    false
}

/// The endpoints whose pane metadata Venus observes, each once: the live panes of
/// the active tab, none while a popup covers the workspace, and never the
/// selected endpoint while Venus is not attached to it.
pub fn visible_metadata_endpoints(
    snapshot: &Snapshot,
    selected_endpoint: Option<&[u8]>,
    selected_attached: bool,
) -> (endpoints: Vec<Vec<u8>>)
    ensures
        forall|j: int| 0 <= j < endpoints@.len() ==> is_metadata_endpoint(
            *snapshot,
            selected_bytes(selected_endpoint),
            selected_attached,
            (#[trigger] endpoints@[j])@,
        ),
        forall|e: Seq<u8>| #[trigger] is_metadata_endpoint(
            *snapshot,
            selected_bytes(selected_endpoint),
            selected_attached,
            e,
        ) ==> exists|j: int| 0 <= j < endpoints@.len() && (#[trigger] endpoints@[j])@ == e,
        forall|i: int, j: int| 0 <= i < j < endpoints@.len() ==> endpoints@[i]@ != endpoints@[j]@,
{
    let ghost selected = selected_bytes(selected_endpoint);
    let mut endpoints: Vec<Vec<u8>> = Vec::new();
    if active_popup(snapshot).is_some() {
        return endpoints;
    }
    let t = tab_index(&snapshot.tabs, snapshot.active_tab.as_str());
    if t >= snapshot.tabs.len() {
        return endpoints;
    }
    let panes = &snapshot.tabs[t].panes;
    let mut k: usize = 0;
    while k < panes.len()
        invariant
            spec_active_popup(*snapshot) is None,
            t == find_tab(snapshot.tabs@, snapshot.active_tab@, 0),
            t < snapshot.tabs@.len(),
            *panes == snapshot.tabs@[t as int].panes,
            k <= panes@.len(),
            selected == selected_bytes(selected_endpoint),
            forall|j: int| 0 <= j < endpoints@.len() ==> is_metadata_endpoint(
                *snapshot,
                selected,
                selected_attached,
                (#[trigger] endpoints@[j])@,
            ),
            forall|e: Seq<u8>| (exists|m: int| 0 <= m < k && #[trigger] panes@[m].live && panes@[m].endpoint@ == e)
                && !(!selected_attached && selected == Some(e))
                ==> exists|j: int| 0 <= j < endpoints@.len() && (#[trigger] endpoints@[j])@ == e,
            forall|i: int, j: int| 0 <= i < j < endpoints@.len() ==> endpoints@[i]@ != endpoints@[j]@,
        decreases panes@.len() - k,
    {
        let pane = &panes[k];
        let excluded = match selected_endpoint {
            Some(s) => !selected_attached && bytes_eq(s, pane.endpoint.as_slice()),
            None => false,
        };
        if pane.live && !excluded && !holds_bytes(&endpoints, pane.endpoint.as_slice()) {
            let ghost before = endpoints@;
            endpoints.push(copy_bytes(pane.endpoint.as_slice()));
            proof {
                let n = before.len() as int;
                assert(endpoints@[n]@ == pane.endpoint@);
                assert(is_metadata_endpoint(*snapshot, selected, selected_attached, pane.endpoint@)) by {
                    assert(snapshot.tabs@[t as int].panes@[k as int].live);
                }
                assert forall|i: int, j: int| 0 <= i < j < endpoints@.len() implies endpoints@[i]@ != endpoints@[j]@ by {
                    if j == n {
                        assert(before[i] == endpoints@[i]);
                    } else {
                        assert(before[i] == endpoints@[i] && before[j] == endpoints@[j]);
                    }
                }
                assert forall|e: Seq<u8>| (exists|m: int| 0 <= m < k + 1 && #[trigger] panes@[m].live && panes@[m].endpoint@ == e)
                    && !(!selected_attached && selected == Some(e))
                    implies exists|j: int| 0 <= j < endpoints@.len() && (#[trigger] endpoints@[j])@ == e by {
                    let m = choose|m: int| 0 <= m < k + 1 && #[trigger] panes@[m].live && panes@[m].endpoint@ == e;
                    if m < k {
                        let j = choose|j: int| 0 <= j < before.len() && (#[trigger] before[j])@ == e;
                        assert(endpoints@[j] == before[j]);
                    } else {
                        assert(endpoints@[n]@ == e);
                    }
                }
            }
        } else {
            proof {
                assert forall|e: Seq<u8>| (exists|m: int| 0 <= m < k + 1 && #[trigger] panes@[m].live && panes@[m].endpoint@ == e)
                    && !(!selected_attached && selected == Some(e))
                    implies exists|j: int| 0 <= j < endpoints@.len() && (#[trigger] endpoints@[j])@ == e by {
                    let m = choose|m: int| 0 <= m < k + 1 && #[trigger] panes@[m].live && panes@[m].endpoint@ == e;
                    if m == k {
                        assert(pane.live);
                    }
                }
            }
        }
        k = k + 1;
    }
    endpoints
}

/// Whether the pane chrome can take focus: no popup covers the workspace and the
/// active tab has a pane.
pub fn active_tab_has_panes(snapshot: &Snapshot) -> (has_panes: bool)
    ensures
        has_panes == (spec_active_popup(*snapshot) is None && find_tab(snapshot.tabs@, snapshot.active_tab@, 0) < snapshot.tabs@.len()
            && snapshot.tabs@[find_tab(snapshot.tabs@, snapshot.active_tab@, 0)].panes@.len() > 0),
{
    if active_popup(snapshot).is_some() {
        return false;
    }
    let t = tab_index(&snapshot.tabs, snapshot.active_tab.as_str());
    t < snapshot.tabs.len() && snapshot.tabs[t].panes.len() > 0
}

} // verus!
