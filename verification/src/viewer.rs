//! The rows of the shortcut viewer: the fixed native shortcuts by group, and the
//! project and tool entries that Eon offers.

use vstd::prelude::*;
use vstd::string::StringExecFns;
use crate::platform::NativePlatform;
use crate::workspace::PopupEntry;
use crate::shortcuts::{fixed_row, fixed_shortcut, fixed_text, physical_shortcut_label_for, shortcut_label, trigger_label};

verus! {

/// One row: how the shortcut is typed, and what it does.
#[derive(Clone, Debug, PartialEq, Eq)]
pub struct ShortcutRow {
    pub shortcut: String,
    pub label: String,
}

/// A titled group of rows.
#[derive(Clone, Debug, PartialEq, Eq)]
pub struct ShortcutGroup {
    pub title: String,
    pub rows: Vec<ShortcutRow>,
}

impl View for ShortcutRow {
    type V = (Seq<char>, Seq<char>);

    open spec fn view(&self) -> (Seq<char>, Seq<char>) {
        (self.shortcut@, self.label@)
    }
}

impl View for ShortcutGroup {
    type V = (Seq<char>, Seq<(Seq<char>, Seq<char>)>);

    open spec fn view(&self) -> Self::V {
        (self.title@, self.rows@.map_values(|row: ShortcutRow| row@))
    }
}

/// The rows of the fixed table from `start` to `end`, labelled for a platform.
pub open spec fn fixed_rows(platform: NativePlatform, start: int, end: int) -> Seq<(Seq<char>, Seq<char>)> {
    Seq::new((end - start) as nat, |k: int| (trigger_label(fixed_row(start + k).0, platform), fixed_text(start + k).1))
}

/// The rows of the project and tool entries, in order.
pub open spec fn entry_rows(platform: NativePlatform, entries: Seq<PopupEntry>) -> Seq<(Seq<char>, Seq<char>)> {
    Seq::new(entries.len(), |k: int| (shortcut_label(platform, entries[k].modifiers, entries[k].key@), entries[k].label@))
}

/// The viewer's groups: navigation (rows 0 to 10 of the fixed table), tabs and
/// panes (rows 11 to 17), the project and tool entries where there are any, and
/// the host shortcuts (rows 18 to 21).
pub open spec fn spec_shortcut_groups(platform: NativePlatform, entries: Seq<PopupEntry>) -> Seq<(Seq<char>, Seq<(Seq<char>, Seq<char>)>)> {
    let fixed = seq![("Navigate"@, fixed_rows(platform, 0, 11)), ("Tabs and panes"@, fixed_rows(platform, 11, 18))];
    let projects = if entries.len() > 0 {
        seq![("Projects and tools"@, entry_rows(platform, entries))]
    } else {
        Seq::empty()
    };
    fixed + projects + seq![("Host"@, fixed_rows(platform, 18, 22))]
}

fn fixed_group(platform: NativePlatform, title: &str, start: usize, end: usize) -> (group: ShortcutGroup)
    requires
        start <= end <= 22,
    ensures
        group@ == (title@, fixed_rows(platform, start as int, end as int)),
{
    let mut rows: Vec<ShortcutRow> = Vec::new();
    let mut i: usize = start;
    while i < end
        invariant
            start <= i <= end <= 22,
            rows@.map_values(|row: ShortcutRow| row@) == fixed_rows(platform, start as int, i as int),
        decreases end - i,
    {
        let shortcut = fixed_shortcut(i);
        let row = ShortcutRow {
            shortcut: shortcut.trigger.display_label_for(platform),
            label: String::from_str(shortcut.label),
        };
        assert(row@ == fixed_rows(platform, start as int, i + 1)[i - start]);
        let ghost before = rows@;
        rows.push(row);
        proof {
            let mapped = rows@.map_values(|row: ShortcutRow| row@);
            let expected = fixed_rows(platform, start as int, i + 1);
            assert(before.map_values(|row: ShortcutRow| row@).len() == before.len());
            assert(before.len() == i - start);
            assert(mapped.len() == expected.len());
            assert forall|k: int| 0 <= k < mapped.len() implies mapped[k] == expected[k] by {
                if k < before.len() {
                    assert(mapped[k] == before.map_values(|row: ShortcutRow| row@)[k]);
                }
            }
            assert(mapped =~= expected);
        }
        i = i + 1;
    }
    ShortcutGroup { title: String::from_str(title), rows }
}

fn entry_group(platform: NativePlatform, entries: &Vec<PopupEntry>) -> (group: ShortcutGroup)
    ensures
        group@ == ("Projects and tools"@, entry_rows(platform, entries@)),
{
    let mut rows: Vec<ShortcutRow> = Vec::new();
    let mut i: usize = 0;
    while i < entries.len()
        invariant
            i <= entries@.len(),
            rows@.map_values(|row: ShortcutRow| row@) == entry_rows(platform, entries@.take(i as int)),
        decreases entries@.len() - i,
    {
        let entry = &entries[i];
        let row = ShortcutRow {
            shortcut: physical_shortcut_label_for(platform, entry.modifiers, entry.key.as_str()),
            label: entry.label.clone(),
        };
        assert(row@ == entry_rows(platform, entries@.take(i + 1))[i as int]);
        let ghost before = rows@;
        rows.push(row);
        proof {
            let mapped = rows@.map_values(|row: ShortcutRow| row@);
            let expected = entry_rows(platform, entries@.take(i + 1));
            assert(before.map_values(|row: ShortcutRow| row@).len() == before.len());
            assert(before.len() == i);
            assert(mapped.len() == expected.len());
            assert forall|k: int| 0 <= k < mapped.len() implies mapped[k] == expected[k] by {
                if k < before.len() {
                    assert(mapped[k] == before.map_values(|row: ShortcutRow| row@)[k]);
                    assert(entries@.take(i + 1)[k] == entries@.take(i as int)[k]);
                }
            }
            assert(mapped =~= expected);
        }
        i = i + 1;
    }
    assert(entries@.take(entries@.len() as int) =~= entries@);
    ShortcutGroup { title: String::from_str("Projects and tools"), rows }
}

/// The groups of the shortcut viewer on a platform.
pub fn shortcut_groups_for(platform: NativePlatform, entries: &Vec<PopupEntry>) -> (groups: Vec<ShortcutGroup>)
    ensures
        groups@.map_values(|group: ShortcutGroup| group@) == spec_shortcut_groups(platform, entries@),
{
    let mut groups: Vec<ShortcutGroup> = Vec::new();
    groups.push(fixed_group(platform, "Navigate", 0, 11));
    groups.push(fixed_group(platform, "Tabs and panes", 11, 18));
    if entries.len() > 0 {
        groups.push(entry_group(platform, entries));
    }
    groups.push(fixed_group(platform, "Host", 18, 22));
    assert(groups@.map_values(|group: ShortcutGroup| group@) =~= spec_shortcut_groups(platform, entries@));
    groups
}

} // verus!
