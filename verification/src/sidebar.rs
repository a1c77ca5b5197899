//! A navigation sidebar: a list of items that can be walked with the keys,
//! searched, and collapsed to a narrow strip.

use vstd::prelude::*;
use vstd::string::*;
use crate::assoc::StringTable;
use crate::component::{CommonComponentState, ComponentEvent, ComponentId, ComponentResult, ValidationState};
use crate::keys::{KeyCode, KeyEvent, KeyModifiers};
use crate::tabs::{next_index, previous_index};
use crate::text::{pop_char, push_char};

verus! {

/// An item of the sidebar, with its sub-items and metadata.
#[derive(Debug)]
pub struct SidebarItem {
    pub id: String,
    pub label: String,
    pub icon: Option<String>,
    pub children: Vec<SidebarItem>,
    pub expanded: bool,
    pub selectable: bool,
    pub metadata: StringTable,
}

impl SidebarItem {
    /// A selectable, collapsed item without icon, children or metadata.
    pub fn new(id: &str, label: &str) -> (r: Self)
        ensures
            r.id@ == id@,
            r.label@ == label@,
            r.icon is None,
            r.children@.len() == 0,
            !r.expanded,
            r.selectable,
            r.metadata@ == Map::<Seq<char>, Seq<char>>::empty(),
    {
        SidebarItem {
            id: id.to_owned(),
            label: label.to_owned(),
            icon: None,
            children: Vec::new(),
            expanded: false,
            selectable: true,
            metadata: StringTable::new(),
        }
    }

    /// The same item with an icon.
    pub fn with_icon(self, icon: &str) -> (r: Self)
        ensures
            r.icon matches Some(i) && i@ == icon@,
            r.id == self.id && r.label == self.label && r.children == self.children,
            r.expanded == self.expanded && r.selectable == self.selectable && r.metadata == self.metadata,
    {
        SidebarItem { icon: Some(icon.to_owned()), ..self }
    }

    /// The same item with these children.
    pub fn with_children(self, children: Vec<SidebarItem>) -> (r: Self)
        ensures
            r.children == children,
            r.id == self.id && r.label == self.label && r.icon == self.icon,
            r.expanded == self.expanded && r.selectable == self.selectable && r.metadata == self.metadata,
    {
        SidebarItem { children, ..self }
    }

    /// The same item, selectable or not.
    pub fn selectable(self, selectable: bool) -> (r: Self)
        ensures
            r.selectable == selectable,
            r.id == self.id && r.label == self.label && r.icon == self.icon,
            r.expanded == self.expanded && r.children == self.children && r.metadata == self.metadata,
    {
        SidebarItem { selectable, ..self }
    }

    /// The same item, expanded or not.
    pub fn expanded(self, expanded: bool) -> (r: Self)
        ensures
            r.expanded == expanded,
            r.id == self.id && r.label == self.label && r.icon == self.icon,
            r.selectable == self.selectable && r.children == self.children && r.metadata == self.metadata,
    {
        SidebarItem { expanded, ..self }
    }

    /// The same item with a metadata entry set.
    pub fn with_metadata(self, key: &str, value: &str) -> (r: Self)
        ensures
            r.metadata@ == self.metadata@.insert(key@, value@),
            r.id == self.id && r.label == self.label && r.icon == self.icon,
            r.expanded == self.expanded && r.selectable == self.selectable && r.children == self.children,
    {
        let mut item = self;
        item.metadata.insert(key, value);
        item
    }

    /// Whether the item has sub-items.
    pub fn has_children(&self) -> (r: bool)
        ensures
            r == (self.children@.len() > 0),
    {
        self.children.len() > 0
    }
}

/// Configuration of a sidebar.
#[derive(Debug)]
pub struct SidebarProps {
    pub items: Vec<SidebarItem>,
    pub title: String,
    pub collapsible: bool,
    pub width: u16,
    pub min_width: u16,
    pub max_width: u16,
    pub show_search: bool,
    pub show_icons: bool,
}

impl Default for SidebarProps {
    fn default() -> (r: Self)
        ensures
            r.items@.len() == 0,
            r.title@ == "Navigation"@,
            r.collapsible && r.show_search && r.show_icons,
            r.width == 25 && r.min_width == 15 && r.max_width == 50,
    {
        SidebarProps {
            items: Vec::new(),
            title: "Navigation".to_owned(),
            collapsible: true,
            width: 25,
            min_width: 15,
            max_width: 50,
            show_search: true,
            show_icons: true,
        }
    }
}

/// State of a sidebar.
#[derive(Debug, Clone)]
pub struct SidebarComponentState {
    pub common: CommonComponentState,
    pub collapsed: bool,
    pub selected_index: usize,
    pub search_query: String,
    pub search_mode: bool,
    pub scroll_offset: usize,
    /// The ids of expanded items, each once.
    pub expanded_items: Vec<String>,
}

impl Default for SidebarComponentState {
    fn default() -> (r: Self)
        ensures
            !r.collapsed && !r.search_mode,
            r.selected_index == 0 && r.scroll_offset == 0,
            r.search_query@.len() == 0,
            r.expanded_items@.len() == 0,
            !r.common.dirty,
    {
        SidebarComponentState {
            common: CommonComponentState::default(),
            collapsed: false,
            selected_index: 0,
            search_query: String::new(),
            search_mode: false,
            scroll_offset: 0,
            expanded_items: Vec::new(),
        }
    }
}

/// The line shown for an item: its icon (when icons are shown) and label.
pub open spec fn item_line(item: SidebarItem, show_icons: bool) -> Seq<char> {
    (if show_icons && item.icon is Some {
        item.icon->0@ + " "@
    } else {
        Seq::empty()
    }) + item.label@
}

/// What a sidebar shows.
#[derive(Debug, Clone)]
pub struct SidebarView {
    /// A collapsed sidebar shows only a strip titled `≡`.
    pub collapsed: bool,
    pub title: String,
    pub lines: Vec<String>,
    pub selected: usize,
    pub hint: String,
}

/// A navigation sidebar.
pub struct Sidebar {
    id: ComponentId,
    props: SidebarProps,
    state: SidebarComponentState,
}

impl Sidebar {
    pub closed spec fn id_view(&self) -> Seq<char> {
        self.id@
    }

    /// The items, in order.
    pub closed spec fn items_view(&self) -> Seq<SidebarItem> {
        self.props.items@
    }

    pub closed spec fn collapsible_view(&self) -> bool {
        self.props.collapsible
    }

    pub closed spec fn show_search_view(&self) -> bool {
        self.props.show_search
    }

    pub closed spec fn props_view(&self) -> SidebarProps {
        self.props
    }

    pub closed spec fn show_icons_view(&self) -> bool {
        self.props.show_icons
    }

    pub closed spec fn title_view(&self) -> Seq<char> {
        self.props.title@
    }

    pub closed spec fn state_view(&self) -> SidebarComponentState {
        self.state
    }

    /// The selection is below the largest index, which every operation
    /// keeps.
    pub open spec fn wf(&self) -> bool {
        self.state_view().selected_index < usize::MAX
    }

    /// A sidebar with the first item selected.
    pub fn new(id: ComponentId, props: SidebarProps) -> (r: Self)
        ensures
            r.wf(),
            r.id_view() == id@,
            r.items_view() == props.items@,
            r.collapsible_view() == props.collapsible,
            r.show_icons_view() == props.show_icons,
            r.title_view() == props.title@,
            r.show_search_view() == props.show_search,
            r.state_view().selected_index == 0,
            !r.state_view().collapsed && !r.state_view().search_mode,
            !r.state_view().common.dirty,
    {
        Sidebar { id, props, state: SidebarComponentState::default() }
    }

    /// Collapse or expand the sidebar, when it is collapsible.
    pub fn toggle_collapse(&mut self)
        requires
            old(self).wf(),
        ensures
            final(self).wf(),
            final(self).items_view() == old(self).items_view(),
            final(self).props_view() == old(self).props_view(),
            final(self).id_view() == old(self).id_view(),
            old(self).collapsible_view() ==> final(self).state_view().collapsed == !old(self).state_view().collapsed
                && final(self).state_view().common.dirty
                && final(self).state_view().selected_index == old(self).state_view().selected_index
                && final(self).state_view().search_mode == old(self).state_view().search_mode
                && final(self).state_view().search_query == old(self).state_view().search_query,
            !old(self).collapsible_view() ==> final(self).state_view() == old(self).state_view(),
    {
        if self.props.collapsible {
            self.state.collapsed = !self.state.collapsed;
            self.state.common.mark_dirty();
        }
    }

    /// Select the next item, the first after the last.
    pub fn select_next(&mut self)
        requires
            old(self).wf(),
        ensures
            final(self).wf(),
            final(self).items_view() == old(self).items_view(),
            final(self).props_view() == old(self).props_view(),
            final(self).id_view() == old(self).id_view(),
            old(self).items_view().len() > 0 ==> final(self).state_view().selected_index == next_index(
                old(self).state_view().selected_index,
                old(self).items_view().len(),
            ) && final(self).state_view().common.dirty
                && final(self).state_view().collapsed == old(self).state_view().collapsed
                && final(self).state_view().search_mode == old(self).state_view().search_mode
                && final(self).state_view().search_query == old(self).state_view().search_query,
            old(self).items_view().len() == 0 ==> final(self).state_view() == old(self).state_view(),
    {
        if self.props.items.len() > 0 {
            self.state.selected_index = (self.state.selected_index + 1) % self.props.items.len();
            self.state.common.mark_dirty();
        }
    }

    /// Select the previous item, the last before the first.
    pub fn select_previous(&mut self)
        requires
            old(self).wf(),
        ensures
            final(self).wf(),
            final(self).items_view() == old(self).items_view(),
            final(self).props_view() == old(self).props_view(),
            final(self).id_view() == old(self).id_view(),
            old(self).items_view().len() > 0 ==> final(self).state_view().selected_index == previous_index(
                old(self).state_view().selected_index,
                old(self).items_view().len(),
            ) && final(self).state_view().common.dirty
                && final(self).state_view().collapsed == old(self).state_view().collapsed
                && final(self).state_view().search_mode == old(self).state_view().search_mode
                && final(self).state_view().search_query == old(self).state_view().search_query,
            old(self).items_view().len() == 0 ==> final(self).state_view() == old(self).state_view(),
    {
        if self.props.items.len() > 0 {
            if self.state.selected_index == 0 {
                self.state.selected_index = self.props.items.len() - 1;
            } else {
                self.state.selected_index = self.state.selected_index - 1;
            }
            self.state.common.mark_dirty();
        }
    }

    /// The lines shown for the items, in order.
    pub fn build_list_items(&self) -> (r: Vec<String>)
        ensures
            r@.len() == self.items_view().len(),
            forall|i: int| 0 <= i < r@.len() ==> #[trigger] r@[i]@ == item_line(
                self.items_view()[i],
                self.show_icons_view(),
            ),
    {
        let mut out: Vec<String> = Vec::new();
        let mut i: usize = 0;
        while i < self.props.items.len()
            invariant
                i <= self.props.items@.len(),
                out@.len() == i,
                forall|k: int| 0 <= k < i ==> #[trigger] out@[k]@ == item_line(
                    self.props.items@[k],
                    self.props.show_icons,
                ),
            decreases self.props.items@.len() - i,
        {
            let item = &self.props.items[i];
            let mut line = String::new();
            if self.props.show_icons {
                match &item.icon {
                    Some(icon) => {
                        line.append(icon.as_str());
                        line.append(" ");
                    },
                    None => {},
                }
            }
            line.append(item.label.as_str());
            proof {
                assert(line@ =~= item_line(*item, self.props.show_icons));
            }
            out.push(line);
            i += 1;
        }
        out
    }

    /// Handle a key. While searching, characters extend the query,
    /// Backspace shortens it, and Enter or Esc leave the search with the
    /// query cleared. Otherwise up or `k` and down or `j` move the
    /// selection, Enter reports activation, `/` starts a search when search
    /// is shown, and Ctrl+c collapses or expands and reports activation.
    pub fn handle_key(&mut self, key: KeyEvent) -> (r: ComponentResult<Vec<ComponentEvent>>)
        requires
            old(self).wf(),
        ensures
            final(self).wf(),
            final(self).items_view() == old(self).items_view(),
            final(self).props_view() == old(self).props_view(),
            final(self).id_view() == old(self).id_view(),
            final(self).collapsible_view() == old(self).collapsible_view(),
            ({
                let o = old(self).state_view();
                let n = old(self).items_view().len();
                let activated = r matches Ok(events) && events@.len() == 1
                    && (events@[0] matches ComponentEvent::Activated { component_id }
                        && component_id@ == old(self).id_view());
                let quiet = r matches Ok(events) && events@.len() == 0;
                if o.search_mode {
                    &&& quiet
                    &&& final(self).state_view().selected_index == o.selected_index
                    &&& final(self).state_view().collapsed == o.collapsed
                    &&& (key.code matches KeyCode::Char(c) ==> final(self).state_view().search_query@
                        == o.search_query@.push(c) && final(self).state_view().search_mode)
                    &&& (key.code == KeyCode::Backspace ==> final(self).state_view().search_query@ == (
                        if o.search_query@.len() == 0 { o.search_query@ } else { o.search_query@.drop_last() })
                        && final(self).state_view().search_mode)
                    &&& (key.code == KeyCode::Enter || key.code == KeyCode::Esc ==> !final(self).state_view().search_mode
                        && final(self).state_view().search_query@.len() == 0)
                    &&& (!(key.code is Char) && key.code != KeyCode::Backspace && key.code != KeyCode::Enter
                        && key.code != KeyCode::Esc ==> final(self).state_view() == o)
                } else if key.code == KeyCode::Up || key.code == KeyCode::Char('k') {
                    &&& quiet
                    &&& n > 0 ==> final(self).state_view().selected_index == previous_index(o.selected_index, n)
                    &&& n == 0 ==> final(self).state_view() == o
                } else if key.code == KeyCode::Down || key.code == KeyCode::Char('j') {
                    &&& quiet
                    &&& n > 0 ==> final(self).state_view().selected_index == next_index(o.selected_index, n)
                    &&& n == 0 ==> final(self).state_view() == o
                } else if key.code == KeyCode::Enter {
                    &&& activated
                    &&& final(self).state_view() == o
                } else if key.code == KeyCode::Char('/') {
                    &&& quiet
                    &&& old(self).show_search_view() ==> final(self).state_view().search_mode
                        && final(self).state_view().search_query@.len() == 0
                        && final(self).state_view().selected_index == o.selected_index
                    &&& !old(self).show_search_view() ==> final(self).state_view() == o
                } else if key.code == KeyCode::Char('c') && key.modifiers.bits & 2 == 2 {
                    &&& activated
                    &&& old(self).collapsible_view() ==> final(self).state_view().collapsed == !o.collapsed
                    &&& !old(self).collapsible_view() ==> final(self).state_view() == o
                } else {
                    &&& quiet
                    &&& final(self).state_view() == o
                }
            }),
    {
        if self.state.search_mode {
            match key.code {
                KeyCode::Char(c) => {
                    push_char(&mut self.state.search_query, c);
                    self.state.common.mark_dirty();
                },
                KeyCode::Backspace => {
                    let _ = pop_char(&mut self.state.search_query);
                    self.state.common.mark_dirty();
                },
                KeyCode::Enter | KeyCode::Esc => {
                    self.state.search_mode = false;
                    self.state.search_query = String::new();
                    self.state.common.mark_dirty();
                },
                _ => {},
            }
            return Ok(Vec::new());
        }
        match key.code {
            KeyCode::Up | KeyCode::Char('k') => {
                self.select_previous();
                Ok(Vec::new())
            },
            KeyCode::Down | KeyCode::Char('j') => {
                self.select_next();
                Ok(Vec::new())
            },
            KeyCode::Enter => Ok(vec![ComponentEvent::Activated { component_id: self.id.duplicate() }]),
            KeyCode::Char('/') => {
                if self.props.show_search {
                    self.state.search_mode = true;
                    self.state.search_query = String::new();
                    self.state.common.mark_dirty();
                }
                Ok(Vec::new())
            },
            KeyCode::Char('c') => {
                if key.modifiers.contains(KeyModifiers::control()) {
                    self.toggle_collapse();
                    Ok(vec![ComponentEvent::Activated { component_id: self.id.duplicate() }])
                } else {
                    Ok(Vec::new())
                }
            },
            _ => Ok(Vec::new()),
        }
    }

    /// Events from other components change nothing.
    pub fn handle_event(&mut self, event: ComponentEvent) -> (r: ComponentResult<Vec<ComponentEvent>>)
        ensures
            r matches Ok(events) && events@.len() == 0,
            *final(self) == *old(self),
    {
        Ok(Vec::new())
    }

    /// What the sidebar shows: collapsed, only a strip titled `≡`; else
    /// its title, the item lines and the selection; and the key hint.
    pub fn view(&self) -> (r: SidebarView)
        ensures
            r.collapsed == self.state_view().collapsed,
            self.state_view().collapsed ==> r.title@ == "≡"@ && r.lines@.len() == 0,
            !self.state_view().collapsed ==> r.title@ == self.title_view() && r.lines@.len()
                == self.items_view().len() && (forall|i: int| 0 <= i < r.lines@.len() ==> #[trigger] r.lines@[i]@
                == item_line(self.items_view()[i], self.show_icons_view())),
            r.selected == self.state_view().selected_index,
            r.hint@ == (if self.state_view().search_mode {
                "Enter/Esc: exit search, Type to search"@
            } else {
                "j/k: navigate, Enter: select, /: search, Ctrl+C: collapse"@
            }),
    {
        let hint = if self.state.search_mode {
            "Enter/Esc: exit search, Type to search".to_owned()
        } else {
            "j/k: navigate, Enter: select, /: search, Ctrl+C: collapse".to_owned()
        };
        if self.state.collapsed {
            return SidebarView {
                collapsed: true,
                title: "≡".to_owned(),
                lines: Vec::new(),
                selected: self.state.selected_index,
                hint,
            };
        }
        SidebarView {
            collapsed: false,
            title: self.props.title.clone(),
            lines: self.build_list_items(),
            selected: self.state.selected_index,
            hint,
        }
    }

    /// The selection must be an item when there are items.
    pub fn validate(&self) -> (r: ValidationState)
        ensures
            self.state_view().selected_index >= self.items_view().len() && self.items_view().len() > 0 ==> (r matches ValidationState::Invalid(m)
                && m@ == "Selected item index out of bounds"@),
            !(self.state_view().selected_index >= self.items_view().len() && self.items_view().len() > 0)
                ==> r == ValidationState::Valid,
    {
        if self.state.selected_index >= self.props.items.len() && self.props.items.len() > 0 {
            return ValidationState::Invalid("Selected item index out of bounds".to_owned());
        }
        ValidationState::Valid
    }

    /// The state.
    pub fn state(&self) -> (r: &SidebarComponentState)
        ensures
            *r == self.state_view(),
    {
        &self.state
    }
}

} // verus!
