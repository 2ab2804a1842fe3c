//! List pickers for namespaces, queues, subscriptions and resource groups,
//! the global key watcher, the loading indicator and plain labels.
use vstd::prelude::*;
use crate::common::{
    LoadingActivityMsg, Msg, NamespaceActivityMsg, QueueActivityMsg, ResourceGroupSelectionMsg,
    SubscriptionSelectionMsg,
};
use crate::error::AppError;
use crate::input::{KeyCode, KeyInput};
use crate::keys::KeyBindingsConfig;
use crate::messages::string_views;
use crate::popups::ComponentState;
use crate::text::{byte_len, owned, repeat, repeat_char, str_byte_len};

verus! {

/// The selection moved one down, unless it is on the last of `len` items.
pub open spec fn moved_down(selected: usize, len: nat) -> usize {
    if selected + 1 < len {
        (selected + 1) as usize
    } else {
        selected
    }
}

/// The selection moved one up, unless it is on the first item.
pub open spec fn moved_up(selected: usize) -> usize {
    if selected > 0 {
        (selected - 1) as usize
    } else {
        selected
    }
}

/// Moving a picker's selection goes to the neighbouring item, staying within
/// the list: down to the next item unless on the last, up to the previous
/// unless on the first.
pub proof fn lemma_selection_moves_one_item(selected: usize, len: nat)
    requires
        len <= usize::MAX,
    ensures
        moved_down(selected, len) == (if selected + 1 < len {
            selected + 1
        } else {
            selected as int
        }),
        moved_up(selected) == (if selected > 0 {
            selected - 1
        } else {
            0
        }),
        selected < len ==> moved_down(selected, len) < len,
        moved_up(selected) <= selected,
{
}

/// The text of an item prefixed with the namespace icon.
pub open spec fn namespace_label(ns: Seq<char>) -> Seq<char> {
    "🏢 "@ + ns
}

/// The widest namespace label in bytes, or 30 without namespaces.
pub open spec fn widest_label(namespaces: Seq<Seq<char>>) -> nat
    decreases namespaces.len(),
{
    if namespaces.len() == 0 {
        30
    } else if namespaces.len() == 1 {
        byte_len(namespace_label(namespaces[0]))
    } else {
        let rest = widest_label(namespaces.drop_last());
        let last = byte_len(namespace_label(namespaces.last()));
        if last > rest {
            last
        } else {
            rest
        }
    }
}

/// Lists the namespaces to choose from.
pub struct NamespacePicker {
    pub namespaces: Vec<String>,
    pub selected: usize,
}

impl NamespacePicker {
    /// A picker over the namespaces (none where there are none), the first
    /// selected.
    pub fn new(namespaces: Option<Vec<String>>) -> (r: Self)
        ensures
            r.selected == 0,
            match namespaces {
                Some(v) => r.namespaces == v,
                None => r.namespaces@.len() == 0,
            },
    {
        let namespaces = match namespaces {
            Some(v) => v,
            None => Vec::new(),
        };
        NamespacePicker { namespaces, selected: 0 }
    }

    /// The selected namespace, if any.
    pub fn state(&self) -> (r: Option<String>)
        ensures
            self.selected < self.namespaces.len() ==> (r matches Some(s) && s@ == self.namespaces@[self.selected as int]@),
            self.selected >= self.namespaces.len() ==> r is None,
    {
        if self.selected < self.namespaces.len() {
            Some(self.namespaces[self.selected].clone())
        } else {
            None
        }
    }

    /// Down and up (or the configured down and up keys) move the selection;
    /// Enter (or the configured select key) chooses the selected namespace.
    /// Every other key only redraws.
    pub fn on(&mut self, key: KeyInput, keys: &KeyBindingsConfig) -> (r: Option<Msg>)
        requires
            old(self).selected < usize::MAX,
        ensures
            final(self).namespaces == old(self).namespaces,
            ({
                let len = old(self).namespaces@.len();
                let sel = old(self).selected;
                let select_msg = if sel < len {
                    Some(Msg::NamespaceActivity(NamespaceActivityMsg::NamespaceSelected))
                } else {
                    Some(Msg::ForceRedraw)
                };
                match key.code {
                    KeyCode::Down => final(self).selected == moved_down(sel, len) && r == Some(Msg::ForceRedraw),
                    KeyCode::Up => final(self).selected == moved_up(sel) && r == Some(Msg::ForceRedraw),
                    KeyCode::Enter => final(self).selected == sel && r == select_msg,
                    KeyCode::Char(c) => if c == keys.down() {
                        final(self).selected == moved_down(sel, len) && r == Some(Msg::ForceRedraw)
                    } else if c == keys.up() {
                        final(self).selected == moved_up(sel) && r == Some(Msg::ForceRedraw)
                    } else if c == keys.namespace_select() {
                        final(self).selected == sel && r == select_msg
                    } else {
                        final(self).selected == sel && r == Some(Msg::ForceRedraw)
                    },
                    _ => final(self).selected == sel && r == Some(Msg::ForceRedraw),
                }
            }),
    {
        let len = self.namespaces.len();
        match key.code {
            KeyCode::Down => {
                if self.selected + 1 < len {
                    self.selected = self.selected + 1;
                }
                Some(Msg::ForceRedraw)
            },
            KeyCode::Up => {
                if self.selected > 0 {
                    self.selected = self.selected - 1;
                }
                Some(Msg::ForceRedraw)
            },
            KeyCode::Enter => self.select_message(),
            KeyCode::Char(c) => {
                if c == keys.down() {
                    if self.selected + 1 < len {
                        self.selected = self.selected + 1;
                    }
                    Some(Msg::ForceRedraw)
                } else if c == keys.up() {
                    if self.selected > 0 {
                        self.selected = self.selected - 1;
                    }
                    Some(Msg::ForceRedraw)
                } else if c == keys.namespace_select() {
                    self.select_message()
                } else {
                    Some(Msg::ForceRedraw)
                }
            },
            _ => Some(Msg::ForceRedraw),
        }
    }

    /// The message for choosing the selected namespace: a redraw where
    /// nothing is selected.
    fn select_message(&self) -> (r: Option<Msg>)
        ensures
            r == if self.selected < self.namespaces@.len() {
                Some(Msg::NamespaceActivity(NamespaceActivityMsg::NamespaceSelected))
            } else {
                Some(Msg::ForceRedraw)
            },
    {
        if self.selected < self.namespaces.len() {
            Some(Msg::NamespaceActivity(NamespaceActivityMsg::NamespaceSelected))
        } else {
            Some(Msg::ForceRedraw)
        }
    }

    /// The items as listed: each label padded with spaces to four more
    /// characters than the widest label has bytes, and whether it is the
    /// selected one.
    pub fn display_items(&self) -> (r: Vec<(String, bool)>)
        requires
            widest_label(string_views(self.namespaces@)) + 4 <= usize::MAX,
        ensures
            r.len() == self.namespaces.len(),
            forall|i: int|
                0 <= i < r.len() ==> {
                    let label = namespace_label(self.namespaces@[i]@);
                    let width = widest_label(string_views(self.namespaces@)) + 4;
                    &&& (#[trigger] r[i]).0@ == label + repeat_char(
                        ' ',
                        if label.len() < width {
                            (width - label.len()) as nat
                        } else {
                            0
                        },
                    )
                    &&& r[i].1 == (i == self.selected)
                },
    {
        let mut labels: Vec<String> = Vec::new();
        let mut max_width: usize = 30;
        let mut i: usize = 0;
        while i < self.namespaces.len()
            invariant
                i <= self.namespaces.len(),
                labels.len() == i,
                forall|k: int| 0 <= k < i ==> (#[trigger] labels[k])@ == namespace_label(self.namespaces@[k]@),
                max_width as nat == widest_label(string_views(self.namespaces@.take(i as int))),
                widest_label(string_views(self.namespaces@)) + 4 <= usize::MAX,
            decreases self.namespaces.len() - i,
        {
            let mut label = owned("🏢 ");
            label.append(self.namespaces[i].as_str());
            let n = str_byte_len(label.as_str());
            proof {
                let pre = string_views(self.namespaces@.take(i + 1));
                assert(pre.drop_last() =~= string_views(self.namespaces@.take(i as int)));
                assert(pre.last() == self.namespaces@[i as int]@);
                lemma_widest_label_prefix(string_views(self.namespaces@), i + 1);
                assert(string_views(self.namespaces@).take(i + 1) =~= pre);
            }
            if i == 0 || n > max_width {
                max_width = n;
            }
            labels.push(label);
            i = i + 1;
        }
        proof {
            assert(self.namespaces@.take(i as int) =~= self.namespaces@);
        }
        let width = max_width + 4;
        let mut items: Vec<(String, bool)> = Vec::new();
        let mut j: usize = 0;
        while j < labels.len()
            invariant
                j <= labels.len(),
                labels.len() == self.namespaces.len(),
                items.len() == j,
                width as nat == widest_label(string_views(self.namespaces@)) + 4,
                forall|k: int| 0 <= k < labels.len() ==> (#[trigger] labels[k])@ == namespace_label(self.namespaces@[k]@),
                forall|k: int|
                    0 <= k < j ==> {
                        let label = namespace_label(self.namespaces@[k]@);
                        &&& (#[trigger] items[k]).0@ == label + repeat_char(
                            ' ',
                            if label.len() < width {
                                (width - label.len()) as nat
                            } else {
                                0
                            },
                        )
                        &&& items[k].1 == (k == self.selected)
                    },
            decreases labels.len() - j,
        {
            let chars = labels[j].as_str().unicode_len();
            let pad = if chars < width {
                width - chars
            } else {
                0
            };
            let mut text = labels[j].clone();
            let spaces = repeat(' ', pad);
            text.append(spaces.as_str());
            items.push((text, j == self.selected));
            j = j + 1;
        }
        items
    }
}

/// The widest label of a prefix, step by step.
proof fn lemma_widest_label_prefix(names: Seq<Seq<char>>, k: int)
    requires
        1 <= k <= names.len(),
    ensures
        widest_label(names.take(k)) <= widest_label(names) || names.len() == 0,
        widest_label(names.take(k)) == if k == 1 {
            byte_len(namespace_label(names[0]))
        } else {
            let rest = widest_label(names.take(k - 1));
            let last = byte_len(namespace_label(names[k - 1]));
            if last > rest {
                last
            } else {
                rest
            }
        },
    decreases names.len() - k,
{
    let t = names.take(k);
    if k > 1 {
        assert(t.drop_last() =~= names.take(k - 1));
    } else {
        assert(t =~= seq![names[0]]);
    }
    if k < names.len() {
        lemma_widest_label_prefix(names, k + 1);
        let u = names.take(k + 1);
        assert(u.drop_last() =~= t);
    } else {
        assert(t =~= names);
    }
}

/// Lists the queues of a namespace to choose from.
pub struct QueuePicker {
    pub queues: Vec<String>,
    pub selected: usize,
}

impl QueuePicker {
    /// A picker over the queues (none where there are none), the first
    /// selected.
    pub fn new(queues: Option<Vec<String>>) -> (r: Self)
        ensures
            r.selected == 0,
            match queues {
                Some(v) => r.queues == v,
                None => r.queues@.len() == 0,
            },
    {
        let queues = match queues {
            Some(v) => v,
            None => Vec::new(),
        };
        QueuePicker { queues, selected: 0 }
    }

    /// The selected queue, if any.
    pub fn state(&self) -> (r: Option<String>)
        ensures
            self.selected < self.queues.len() ==> (r matches Some(s) && s@ == self.queues@[self.selected as int]@),
            self.selected >= self.queues.len() ==> r is None,
    {
        if self.selected < self.queues.len() {
            Some(self.queues[self.selected].clone())
        } else {
            None
        }
    }

    /// Down or `j` and up or `k` move the selection; Enter or `o` chooses
    /// the selected queue; Esc goes back to the namespaces. Every other key
    /// only redraws.
    pub fn on(&mut self, key: KeyInput) -> (r: Option<Msg>)
        requires
            old(self).selected < usize::MAX,
        ensures
            final(self).queues == old(self).queues,
            ({
                let len = old(self).queues@.len();
                let sel = old(self).selected;
                if key.code == KeyCode::Down || key.code == KeyCode::Char('j') {
                    final(self).selected == moved_down(sel, len) && r == Some(Msg::ForceRedraw)
                } else if key.code == KeyCode::Up || key.code == KeyCode::Char('k') {
                    final(self).selected == moved_up(sel) && r == Some(Msg::ForceRedraw)
                } else if key.code == KeyCode::Enter || key.code == KeyCode::Char('o') {
                    final(self).selected == sel && if sel < len {
                        r matches Some(Msg::QueueActivity(QueueActivityMsg::QueueSelected(q)))
                            && q@ == old(self).queues@[sel as int]@
                    } else {
                        r == Some(Msg::ForceRedraw)
                    }
                } else if key.code == KeyCode::Esc {
                    final(self).selected == sel && r == Some(
                        Msg::NamespaceActivity(NamespaceActivityMsg::NamespaceUnselected),
                    )
                } else {
                    final(self).selected == sel && r == Some(Msg::ForceRedraw)
                }
            }),
    {
        let len = self.queues.len();
        match key.code {
            KeyCode::Down | KeyCode::Char('j') => {
                if self.selected + 1 < len {
                    self.selected = self.selected + 1;
                }
                Some(Msg::ForceRedraw)
            },
            KeyCode::Up | KeyCode::Char('k') => {
                if self.selected > 0 {
                    self.selected = self.selected - 1;
                }
                Some(Msg::ForceRedraw)
            },
            KeyCode::Enter | KeyCode::Char('o') => {
                if self.selected < len {
                    Some(
                        Msg::QueueActivity(
                            QueueActivityMsg::QueueSelected(self.queues[self.selected].clone()),
                        ),
                    )
                } else {
                    Some(Msg::ForceRedraw)
                }
            },
            KeyCode::Esc => Some(Msg::NamespaceActivity(NamespaceActivityMsg::NamespaceUnselected)),
            _ => Some(Msg::ForceRedraw),
        }
    }
}

/// An Azure subscription as the picker lists it.
#[derive(Debug, Clone, PartialEq)]
pub struct Subscription {
    pub subscription_id: String,
    pub display_name: String,
}

/// Lists the Azure subscriptions to choose from.
pub struct SubscriptionPicker {
    pub subscriptions: Vec<Subscription>,
    pub selected: usize,
}

impl SubscriptionPicker {
    /// A picker over the subscriptions, the first selected.
    pub fn new(subscriptions: Option<Vec<Subscription>>) -> (r: Self)
        ensures
            r.selected == 0,
            match subscriptions {
                Some(v) => r.subscriptions == v,
                None => r.subscriptions@.len() == 0,
            },
    {
        let subscriptions = match subscriptions {
            Some(v) => v,
            None => Vec::new(),
        };
        SubscriptionPicker { subscriptions, selected: 0 }
    }

    /// The id of the selected subscription, if any.
    pub fn state(&self) -> (r: Option<String>)
        ensures
            self.selected < self.subscriptions.len() ==> (r matches Some(s) && s@
                == self.subscriptions@[self.selected as int].subscription_id@),
            self.selected >= self.subscriptions.len() ==> r is None,
    {
        if self.selected < self.subscriptions.len() {
            Some(self.subscriptions[self.selected].subscription_id.clone())
        } else {
            None
        }
    }

    /// The items as listed: icon, name and id, and whether each is selected.
    pub fn display_items(&self) -> (r: Vec<(String, bool)>)
        ensures
            r.len() == self.subscriptions.len(),
            forall|i: int|
                0 <= i < r.len() ==> (#[trigger] r[i]).0@ == "📋 "@ + self.subscriptions@[i].display_name@
                    + " ("@ + self.subscriptions@[i].subscription_id@ + ")"@ && r[i].1 == (i == self.selected),
    {
        let mut items: Vec<(String, bool)> = Vec::new();
        let mut i: usize = 0;
        while i < self.subscriptions.len()
            invariant
                i <= self.subscriptions.len(),
                items.len() == i,
                forall|k: int|
                    0 <= k < i ==> (#[trigger] items[k]).0@ == "📋 "@ + self.subscriptions@[k].display_name@
                        + " ("@ + self.subscriptions@[k].subscription_id@ + ")"@ && items[k].1 == (k == self.selected),
            decreases self.subscriptions.len() - i,
        {
            let sub = &self.subscriptions[i];
            let mut text = owned("📋 ");
            text.append(sub.display_name.as_str());
            text.append(" (");
            text.append(sub.subscription_id.as_str());
            text.append(")");
            items.push((text, i == self.selected));
            i = i + 1;
        }
        items
    }

    /// Esc cancels; Enter chooses the selected subscription (nothing where
    /// none is selected); up or `k` and down or `j` move the selection,
    /// answering only where it moved.
    pub fn on(&mut self, key: KeyInput) -> (r: Option<Msg>)
        ensures
            final(self).subscriptions == old(self).subscriptions,
            ({
                let len = old(self).subscriptions@.len();
                let sel = old(self).selected;
                let changed = Some(Msg::SubscriptionSelection(SubscriptionSelectionMsg::SelectionChanged));
                if key.code == KeyCode::Esc {
                    final(self).selected == sel && r == Some(
                        Msg::SubscriptionSelection(SubscriptionSelectionMsg::CancelSelection),
                    )
                } else if key.code == KeyCode::Enter {
                    final(self).selected == sel && if sel < len {
                        r matches Some(Msg::SubscriptionSelection(SubscriptionSelectionMsg::SubscriptionSelected(id)))
                            && id@ == old(self).subscriptions@[sel as int].subscription_id@
                    } else {
                        r is None
                    }
                } else if key.code == KeyCode::Up || key.code == KeyCode::Char('k') {
                    if sel > 0 {
                        final(self).selected == sel - 1 && r == changed
                    } else {
                        final(self).selected == sel && r is None
                    }
                } else if key.code == KeyCode::Down || key.code == KeyCode::Char('j') {
                    if sel + 1 < len {
                        final(self).selected == sel + 1 && r == changed
                    } else {
                        final(self).selected == sel && r is None
                    }
                } else {
                    final(self).selected == sel && r is None
                }
            }),
    {
        match key.code {
            KeyCode::Esc => Some(Msg::SubscriptionSelection(SubscriptionSelectionMsg::CancelSelection)),
            KeyCode::Enter => {
                if self.selected < self.subscriptions.len() {
                    Some(
                        Msg::SubscriptionSelection(
                            SubscriptionSelectionMsg::SubscriptionSelected(
                                self.subscriptions[self.selected].subscription_id.clone(),
                            ),
                        ),
                    )
                } else {
                    None
                }
            },
            KeyCode::Up | KeyCode::Char('k') => {
                if self.selected > 0 {
                    self.selected = self.selected - 1;
                    Some(Msg::SubscriptionSelection(SubscriptionSelectionMsg::SelectionChanged))
                } else {
                    None
                }
            },
            KeyCode::Down | KeyCode::Char('j') => {
                if self.selected < self.subscriptions.len().saturating_sub(1) {
                    self.selected = self.selected + 1;
                    Some(Msg::SubscriptionSelection(SubscriptionSelectionMsg::SelectionChanged))
                } else {
                    None
                }
            },
            _ => None,
        }
    }
}

/// An Azure resource group as the picker lists it.
#[derive(Debug, Clone, PartialEq)]
pub struct ResourceGroup {
    pub name: String,
    pub location: String,
}

/// Lists the resource groups of a subscription to choose from.
pub struct ResourceGroupPicker {
    pub resource_groups: Vec<ResourceGroup>,
    pub selected: usize,
}

/// The list shown where a subscription has no resource groups.
pub open spec fn no_groups_lines() -> Seq<Seq<char>> {
    seq![
        "⚠️  No resource groups found"@,
        Seq::<char>::empty(),
        "This may be due to limited permissions."@,
        "Press ESC to go back to subscription selection."@,
    ]
}

impl ResourceGroupPicker {
    /// A picker over the resource groups, the first selected.
    pub fn new(resource_groups: Option<Vec<ResourceGroup>>) -> (r: Self)
        ensures
            r.selected == 0,
            match resource_groups {
                Some(v) => r.resource_groups == v,
                None => r.resource_groups@.len() == 0,
            },
    {
        let resource_groups = match resource_groups {
            Some(v) => v,
            None => Vec::new(),
        };
        ResourceGroupPicker { resource_groups, selected: 0 }
    }

    /// The name of the selected resource group, if any.
    pub fn state(&self) -> (r: Option<String>)
        ensures
            self.selected < self.resource_groups.len() ==> (r matches Some(s) && s@
                == self.resource_groups@[self.selected as int].name@),
            self.selected >= self.resource_groups.len() ==> r is None,
    {
        if self.selected < self.resource_groups.len() {
            Some(self.resource_groups[self.selected].name.clone())
        } else {
            None
        }
    }

    /// The items as listed: icon, name and location, and whether each is
    /// selected; without resource groups, a notice (nothing selected).
    pub fn display_items(&self) -> (r: Vec<(String, bool)>)
        ensures
            self.resource_groups.len() == 0 ==> r.len() == 4 && forall|i: int|
                0 <= i < 4 ==> (#[trigger] r[i]).0@ == no_groups_lines()[i] && !r[i].1,
            self.resource_groups.len() > 0 ==> r.len() == self.resource_groups.len() && forall|i: int|
                0 <= i < r.len() ==> (#[trigger] r[i]).0@ == "📁 "@ + self.resource_groups@[i].name@
                    + " ("@ + self.resource_groups@[i].location@ + ")"@ && r[i].1 == (i == self.selected),
    {
        let mut items: Vec<(String, bool)> = Vec::new();
        if self.resource_groups.len() == 0 {
            items.push((owned("⚠️  No resource groups found"), false));
            items.push((String::new(), false));
            items.push((owned("This may be due to limited permissions."), false));
            items.push((owned("Press ESC to go back to subscription selection."), false));
            return items;
        }
        let mut i: usize = 0;
        while i < self.resource_groups.len()
            invariant
                i <= self.resource_groups.len(),
                items.len() == i,
                forall|k: int|
                    0 <= k < i ==> (#[trigger] items[k]).0@ == "📁 "@ + self.resource_groups@[k].name@
                        + " ("@ + self.resource_groups@[k].location@ + ")"@ && items[k].1 == (k == self.selected),
            decreases self.resource_groups.len() - i,
        {
            let group = &self.resource_groups[i];
            let mut text = owned("📁 ");
            text.append(group.name.as_str());
            text.append(" (");
            text.append(group.location.as_str());
            text.append(")");
            items.push((text, i == self.selected));
            i = i + 1;
        }
        items
    }

    /// Esc cancels; Enter chooses the selected group (nothing where none is
    /// selected); up or `k` and down or `j` move the selection, answering
    /// only where it moved.
    pub fn on(&mut self, key: KeyInput) -> (r: Option<Msg>)
        ensures
            final(self).resource_groups == old(self).resource_groups,
            ({
                let len = old(self).resource_groups@.len();
                let sel = old(self).selected;
                let changed = Some(Msg::ResourceGroupSelection(ResourceGroupSelectionMsg::SelectionChanged));
                if key.code == KeyCode::Esc {
                    final(self).selected == sel && r == Some(
                        Msg::ResourceGroupSelection(ResourceGroupSelectionMsg::CancelSelection),
                    )
                } else if key.code == KeyCode::Enter {
                    final(self).selected == sel && if sel < len {
                        r matches Some(Msg::ResourceGroupSelection(ResourceGroupSelectionMsg::ResourceGroupSelected(n)))
                            && n@ == old(self).resource_groups@[sel as int].name@
                    } else {
                        r is None
                    }
                } else if key.code == KeyCode::Up || key.code == KeyCode::Char('k') {
                    if sel > 0 {
                        final(self).selected == sel - 1 && r == changed
                    } else {
                        final(self).selected == sel && r is None
                    }
                } else if key.code == KeyCode::Down || key.code == KeyCode::Char('j') {
                    if sel + 1 < len {
                        final(self).selected == sel + 1 && r == changed
                    } else {
                        final(self).selected == sel && r is None
                    }
                } else {
                    final(self).selected == sel && r is None
                }
            }),
    {
        match key.code {
            KeyCode::Esc => Some(Msg::ResourceGroupSelection(ResourceGroupSelectionMsg::CancelSelection)),
            KeyCode::Enter => {
                if self.selected < self.resource_groups.len() {
                    Some(
                        Msg::ResourceGroupSelection(
                            ResourceGroupSelectionMsg::ResourceGroupSelected(
                                self.resource_groups[self.selected].name.clone(),
                            ),
                        ),
                    )
                } else {
                    None
                }
            },
            KeyCode::Up | KeyCode::Char('k') => {
                if self.selected > 0 {
                    self.selected = self.selected - 1;
                    Some(Msg::ResourceGroupSelection(ResourceGroupSelectionMsg::SelectionChanged))
                } else {
                    None
                }
            },
            KeyCode::Down | KeyCode::Char('j') => {
                if self.selected < self.resource_groups.len().saturating_sub(1) {
                    self.selected = self.selected + 1;
                    Some(Msg::ResourceGroupSelection(ResourceGroupSelectionMsg::SelectionChanged))
                } else {
                    None
                }
            },
            _ => None,
        }
    }
}


// ---------------------------------------------------------------------------
// Global keys
// ---------------------------------------------------------------------------

/// The ASCII lower case of `c`; other characters are kept.
pub open spec fn ascii_lower(c: char) -> char {
    if 'A' <= c <= 'Z' {
        ((c as u32) + 32) as char
    } else {
        c
    }
}

/// `char::eq_ignore_ascii_case`.
fn eq_ignore_ascii_case(a: char, b: char) -> (r: bool)
    ensures
        r == (ascii_lower(a) == ascii_lower(b)),
{
    let la = if 'A' <= a && a <= 'Z' {
        ((a as u32) + 32) as u8 as char
    } else {
        a
    };
    let lb = if 'A' <= b && b <= 'Z' {
        ((b as u32) + 32) as u8 as char
    } else {
        b
    };
    proof {
        if 'A' <= a <= 'Z' {
            assert(((a as u32) + 32) as u8 as char == ((a as u32) + 32) as char);
        }
        if 'A' <= b <= 'Z' {
            assert(((b as u32) + 32) as u8 as char == ((b as u32) + 32) as char);
        }
    }
    la == lb
}

/// Watches for the keys that work everywhere: quit, help, theme and
/// configuration; none of them while text is being edited.
pub struct GlobalKeyWatcher {
    pub is_editing: bool,
}

impl GlobalKeyWatcher {
    /// A watcher, told whether text is being edited.
    pub fn new(is_editing: bool) -> (r: Self)
        ensures
            r.is_editing == is_editing,
    {
        GlobalKeyWatcher { is_editing }
    }

    /// Outside editing, a plain quit, help, theme or configuration key (in
    /// that order of precedence) answers its action, and shift with a letter
    /// equal to the configuration key ignoring ASCII case opens the
    /// configuration; everything else is ignored.
    pub fn on(&mut self, key: KeyInput, keys: &KeyBindingsConfig) -> (r: Option<Msg>)
        ensures
            *final(self) == *old(self),
            r == match key.code {
                KeyCode::Char(c) => if old(self).is_editing {
                    None
                } else if key.modifiers.is_none() {
                    if c == keys.quit() {
                        Some(Msg::AppClose)
                    } else if c == keys.help() {
                        Some(Msg::ToggleHelpScreen)
                    } else if c == keys.theme() {
                        Some(Msg::ToggleThemePicker)
                    } else if c == keys.config() {
                        Some(Msg::ToggleConfigScreen)
                    } else {
                        None
                    }
                } else if key.modifiers.is_shift_only() && ascii_lower(c) == ascii_lower(keys.config()) {
                    Some(Msg::ToggleConfigScreen)
                } else {
                    None
                },
                _ => None,
            },
    {
        match key.code {
            KeyCode::Char(c) => {
                if self.is_editing {
                    return None;
                }
                if key.modifiers.plain() {
                    if c == keys.quit() {
                        Some(Msg::AppClose)
                    } else if c == keys.help() {
                        Some(Msg::ToggleHelpScreen)
                    } else if c == keys.theme() {
                        Some(Msg::ToggleThemePicker)
                    } else if c == keys.config() {
                        Some(Msg::ToggleConfigScreen)
                    } else {
                        None
                    }
                } else if key.modifiers.shift_only() && eq_ignore_ascii_case(c, keys.config()) {
                    Some(Msg::ToggleConfigScreen)
                } else {
                    None
                }
            },
            _ => None,
        }
    }
}

impl Default for GlobalKeyWatcher {
    /// A watcher outside editing.
    fn default() -> (r: Self)
        ensures
            !r.is_editing,
    {
        Self::new(false)
    }
}

/// A centered line of text.
pub struct TextLabel {
    pub text: String,
}

impl TextLabel {
    /// A label showing `text`.
    pub fn new(text: String) -> (r: Self)
        ensures
            r.text == text,
    {
        TextLabel { text }
    }

    /// Labels ignore keys.
    pub fn on(&mut self, key: KeyInput) -> (r: Option<Msg>)
        ensures
            r is None,
            *final(self) == *old(self),
    {
        None
    }
}

// ---------------------------------------------------------------------------
// Loading indicator
// ---------------------------------------------------------------------------

/// The frames of the spinner.
pub open spec fn spinner_frames() -> Seq<Seq<char>> {
    seq!["⠋"@, "⠙"@, "⠹"@, "⠸"@, "⠼"@, "⠴"@, "⠦"@, "⠧"@]
}

/// The frame of the spinner at `index`.
fn spinner_frame(index: usize) -> (r: &'static str)
    requires
        index < 8,
    ensures
        r@ == spinner_frames()[index as int],
{
    let frames: [&'static str; 8] = ["⠋", "⠙", "⠹", "⠸", "⠼", "⠴", "⠦", "⠧"];
    frames[index]
}

/// Shows that work is under way, with a spinner, optional progress and an
/// optional way to cancel.
pub struct LoadingIndicator {
    pub message: String,
    pub progress_message: Option<String>,
    pub frame_index: usize,
    /// When the spinner last moved, in milliseconds of the clock the
    /// indicator is given.
    pub last_frame_ms: u64,
    pub is_mounted: bool,
    pub show_cancel_button: bool,
    pub operation_id: Option<String>,
    /// The text shown.
    pub display_text: String,
}

/// The text shown: the spinner and the message, then how to cancel where
/// the operation can be cancelled, or else the progress where there is any.
pub open spec fn loading_text(
    frame: Seq<char>,
    message: Seq<char>,
    progress: Option<Seq<char>>,
    cancellable: bool,
) -> Seq<char> {
    if cancellable {
        frame + " "@ + message + "\n\nPress 'c' to cancel"@
    } else {
        match progress {
            Some(p) => frame + " "@ + message + " • "@ + p,
            None => frame + " "@ + message,
        }
    }
}

/// `new` is `old` after the clock read `now_ms`: the spinner moves to its
/// next frame where at least `frame_duration_ms` has passed since it last
/// moved; nothing changes otherwise.
pub open spec fn animated(old: LoadingIndicator, new: LoadingIndicator, now_ms: u64, frame_duration_ms: u64) -> bool {
    let elapsed = if now_ms >= old.last_frame_ms {
        now_ms - old.last_frame_ms
    } else {
        0
    };
    &&& if elapsed >= frame_duration_ms {
        &&& new.frame_index == (old.frame_index + 1) % 8
        &&& new.last_frame_ms == now_ms
        &&& new.display_text@ == new.expected_text()
    } else {
        new == old
    }
    &&& new.message == old.message
    &&& new.progress_message == old.progress_message
    &&& new.show_cancel_button == old.show_cancel_button
    &&& new.operation_id == old.operation_id
    &&& new.is_mounted == old.is_mounted
}

impl LoadingIndicator {
    /// The spinner is on one of its frames.
    pub open spec fn wf(self) -> bool {
        self.frame_index < 8
    }

    /// The text for the current state.
    pub open spec fn expected_text(self) -> Seq<char> {
        loading_text(
            spinner_frames()[self.frame_index as int],
            self.message@,
            crate::validation_patterns::opt_view(self.progress_message),
            self.show_cancel_button,
        )
    }

    /// An indicator showing `message`, its spinner on the first frame; the
    /// clock reads `now_ms`.
    pub fn new(message: &str, indeterminate: bool, now_ms: u64) -> (r: Self)
        ensures
            r.wf(),
            r.message@ == message@,
            r.progress_message is None,
            r.frame_index == 0,
            r.last_frame_ms == now_ms,
            !r.is_mounted,
            !r.show_cancel_button,
            r.operation_id is None,
            r.display_text@ == r.expected_text(),
    {
        let mut display_text = owned(spinner_frame(0));
        display_text.append(" ");
        display_text.append(message);
        LoadingIndicator {
            message: owned(message),
            progress_message: None,
            frame_index: 0,
            last_frame_ms: now_ms,
            is_mounted: false,
            show_cancel_button: false,
            operation_id: None,
            display_text,
        }
    }

    /// Shows `progress` after the message.
    pub fn update_progress(&mut self, progress: String)
        requires
            old(self).wf(),
        ensures
            final(self).wf(),
            final(self).progress_message == Some(progress),
            final(self).display_text@ == final(self).expected_text(),
            final(self).message == old(self).message,
            final(self).frame_index == old(self).frame_index,
            final(self).last_frame_ms == old(self).last_frame_ms,
            final(self).is_mounted == old(self).is_mounted,
            final(self).show_cancel_button == old(self).show_cancel_button,
            final(self).operation_id == old(self).operation_id,
    {
        self.progress_message = Some(progress);
        self.update_display_text();
    }

    /// Lets the user cancel the operation `operation_id`.
    pub fn show_cancel_button(&mut self, operation_id: String)
        requires
            old(self).wf(),
        ensures
            final(self).wf(),
            final(self).show_cancel_button,
            final(self).operation_id == Some(operation_id),
            final(self).display_text@ == final(self).expected_text(),
            final(self).message == old(self).message,
            final(self).progress_message == old(self).progress_message,
            final(self).frame_index == old(self).frame_index,
            final(self).last_frame_ms == old(self).last_frame_ms,
            final(self).is_mounted == old(self).is_mounted,
    {
        self.show_cancel_button = true;
        self.operation_id = Some(operation_id);
        self.update_display_text();
    }

    /// Moves the spinner to its next frame where at least
    /// `frame_duration_ms` has passed since it last moved.
    pub fn update_animation(&mut self, now_ms: u64, frame_duration_ms: u64)
        requires
            old(self).wf(),
        ensures
            final(self).wf(),
            animated(*old(self), *final(self), now_ms, frame_duration_ms),
    {
        let elapsed = now_ms.saturating_sub(self.last_frame_ms);
        if elapsed >= frame_duration_ms {
            self.frame_index = (self.frame_index + 1) % 8;
            self.last_frame_ms = now_ms;
            self.update_display_text();
        }
    }

    /// Rewrites the text shown.
    fn update_display_text(&mut self)
        requires
            old(self).wf(),
        ensures
            final(self).display_text@ == old(self).expected_text(),
            final(self).message == old(self).message,
            final(self).progress_message == old(self).progress_message,
            final(self).frame_index == old(self).frame_index,
            final(self).last_frame_ms == old(self).last_frame_ms,
            final(self).is_mounted == old(self).is_mounted,
            final(self).show_cancel_button == old(self).show_cancel_button,
            final(self).operation_id == old(self).operation_id,
    {
        let mut text = owned(spinner_frame(self.frame_index));
        text.append(" ");
        text.append(self.message.as_str());
        if self.show_cancel_button {
            text.append("\n\nPress 'c' to cancel");
        } else {
            match &self.progress_message {
                Some(progress) => {
                    text.append(" • ");
                    text.append(progress.as_str());
                },
                None => {},
            }
        }
        self.display_text = text;
    }

    /// A tick at `now_ms` moves the spinner (see
    /// [`LoadingIndicator::update_animation`]) and redraws.
    pub fn on_tick(&mut self, now_ms: u64, frame_duration_ms: u64) -> (r: Option<Msg>)
        requires
            old(self).wf(),
        ensures
            final(self).wf(),
            animated(*old(self), *final(self), now_ms, frame_duration_ms),
            r == Some(Msg::ForceRedraw),
    {
        self.update_animation(now_ms, frame_duration_ms);
        Some(Msg::ForceRedraw)
    }

    /// `c`, whatever the modifiers, cancels where the operation can be
    /// cancelled; other keys are ignored.
    pub fn on(&mut self, key: KeyInput) -> (r: Option<Msg>)
        ensures
            *final(self) == *old(self),
            r == if key.code == KeyCode::Char('c') && old(self).show_cancel_button {
                Some(Msg::LoadingActivity(LoadingActivityMsg::Cancel))
            } else {
                None
            },
    {
        if key.code == KeyCode::Char('c') && self.show_cancel_button {
            Some(Msg::LoadingActivity(LoadingActivityMsg::Cancel))
        } else {
            None
        }
    }

    /// The first mount puts the spinner back on its first frame at `now_ms`.
    pub fn mount_at(&mut self, now_ms: u64) -> (r: Result<(), AppError>)
        requires
            old(self).wf(),
        ensures
            r is Ok,
            final(self).wf(),
            final(self).is_mounted,
            old(self).is_mounted ==> *final(self) == *old(self),
            !old(self).is_mounted ==> final(self).frame_index == 0 && final(self).last_frame_ms == now_ms
                && final(self).display_text@ == final(self).expected_text(),
            final(self).message == old(self).message,
            final(self).progress_message == old(self).progress_message,
            final(self).show_cancel_button == old(self).show_cancel_button,
            final(self).operation_id == old(self).operation_id,
    {
        if self.is_mounted {
            return Ok(());
        }
        self.frame_index = 0;
        self.last_frame_ms = now_ms;
        self.update_display_text();
        self.is_mounted = true;
        Ok(())
    }
}

} // verus!
