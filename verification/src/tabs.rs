//! A row of tabs: adding, removing and selecting tabs, the keys that do so,
//! and the labels and content the row shows.

use vstd::prelude::*;
use vstd::string::*;
use crate::component::{CommonComponentState, ComponentEvent, ComponentId, ComponentResult, ValidationState};
use crate::keys::{is_ascii_digit, KeyCode, KeyEvent, KeyModifiers};

verus! {

/// One tab.
#[derive(Debug, Clone)]
pub struct TabItem {
    pub id: String,
    pub title: String,
    pub icon: Option<String>,
    pub closable: bool,
    pub modified: bool,
    pub tooltip: Option<String>,
}

impl TabItem {
    /// A closable, unmodified tab without icon or tooltip.
    pub fn new(id: &str, title: &str) -> (r: Self)
        ensures
            r.id@ == id@,
            r.title@ == title@,
            r.icon is None,
            r.closable,
            !r.modified,
            r.tooltip is None,
    {
        TabItem { id: id.to_owned(), title: title.to_owned(), icon: None, closable: true, modified: false, tooltip: None }
    }

    /// The same tab with an icon.
    pub fn with_icon(self, icon: &str) -> (r: Self)
        ensures
            r.icon matches Some(i) && i@ == icon@,
            r.id == self.id && r.title == self.title && r.closable == self.closable,
            r.modified == self.modified && r.tooltip == self.tooltip,
    {
        TabItem { icon: Some(icon.to_owned()), ..self }
    }

    /// The same tab with a tooltip.
    pub fn with_tooltip(self, tooltip: &str) -> (r: Self)
        ensures
            r.tooltip matches Some(t) && t@ == tooltip@,
            r.id == self.id && r.title == self.title && r.closable == self.closable,
            r.modified == self.modified && r.icon == self.icon,
    {
        TabItem { tooltip: Some(tooltip.to_owned()), ..self }
    }

    /// The same tab, closable or not.
    pub fn closable(self, closable: bool) -> (r: Self)
        ensures
            r == (TabItem { closable, ..self }),
    {
        TabItem { closable, ..self }
    }

    /// The same tab, marked modified or not.
    pub fn modified(self, modified: bool) -> (r: Self)
        ensures
            r == (TabItem { modified, ..self }),
    {
        TabItem { modified, ..self }
    }
}

/// Configuration of a row of tabs.
#[derive(Debug, Clone)]
pub struct TabsProps {
    pub tabs: Vec<TabItem>,
    pub show_close_buttons: bool,
    pub scrollable: bool,
    pub max_tab_width: Option<u16>,
    pub show_add_button: bool,
}

impl Default for TabsProps {
    fn default() -> (r: Self)
        ensures
            r.tabs@.len() == 0,
            r.show_close_buttons && r.scrollable,
            r.max_tab_width == Some(20u16),
            !r.show_add_button,
    {
        TabsProps {
            tabs: Vec::new(),
            show_close_buttons: true,
            scrollable: true,
            max_tab_width: Some(20),
            show_add_button: false,
        }
    }
}

/// State of a row of tabs.
#[derive(Debug, Clone)]
pub struct TabsComponentState {
    pub common: CommonComponentState,
    pub selected_index: usize,
    pub scroll_offset: usize,
    pub hover_index: Option<usize>,
}

impl Default for TabsComponentState {
    fn default() -> (r: Self)
        ensures
            r.selected_index == 0 && r.scroll_offset == 0 && r.hover_index is None,
            !r.common.dirty,
    {
        TabsComponentState {
            common: CommonComponentState::default(),
            selected_index: 0,
            scroll_offset: 0,
            hover_index: None,
        }
    }
}

/// The label of a tab: its icon, title, the modified marker and, when
/// closing is shown and allowed, the close marker.
pub open spec fn tab_label(tab: TabItem, show_close_buttons: bool) -> Seq<char> {
    (match tab.icon {
        Some(i) => i@ + " "@,
        None => Seq::empty(),
    }) + tab.title@ + (if tab.modified { " ●"@ } else { Seq::empty() }) + (if show_close_buttons && tab.closable {
        " ×"@
    } else {
        Seq::empty()
    })
}

/// The selection after moving to the next tab.
pub open spec fn next_index(i: usize, n: nat) -> usize {
    ((i + 1) % (n as int)) as usize
}

/// The selection after moving to the previous tab.
pub open spec fn previous_index(i: usize, n: nat) -> usize {
    if i == 0 {
        (n - 1) as usize
    } else {
        (i - 1) as usize
    }
}

/// The number a digit key stands for.
pub open spec fn digit_value(c: char) -> nat {
    (c as u32 - '0' as u32) as nat
}

/// What a row of tabs shows.
#[derive(Debug, Clone)]
pub struct TabsView {
    /// The title of an empty row, `No Tabs`, shown instead of labels.
    pub empty_title: Option<String>,
    pub labels: Vec<String>,
    pub selected: usize,
    /// The content line of the selected tab.
    pub content: Option<String>,
    pub hint: String,
}

/// A row of tabs.
pub struct Tabs {
    id: ComponentId,
    props: TabsProps,
    state: TabsComponentState,
}

impl Tabs {
    pub closed spec fn id_view(&self) -> Seq<char> {
        self.id@
    }

    pub closed spec fn props_view(&self) -> TabsProps {
        self.props
    }

    /// The tabs, in order.
    pub closed spec fn tabs_view(&self) -> Seq<TabItem> {
        self.props.tabs@
    }

    pub closed spec fn state_view(&self) -> TabsComponentState {
        self.state
    }

    /// The selection is below the largest index, which every operation
    /// keeps.
    pub open spec fn wf(&self) -> bool {
        self.state_view().selected_index < usize::MAX
    }

    /// A row with the configured tabs, the first selected.
    pub fn new(id: ComponentId, props: TabsProps) -> (r: Self)
        ensures
            r.wf(),
            r.id_view() == id@,
            r.props_view() == props,
            r.tabs_view() == props.tabs@,
            r.state_view().selected_index == 0,
            r.state_view().scroll_offset == 0,
            !r.state_view().common.dirty,
    {
        Tabs { id, props, state: TabsComponentState::default() }
    }

    /// Add a tab at the end.
    pub fn add_tab(&mut self, tab: TabItem)
        requires
            old(self).wf(),
        ensures
            final(self).wf(),
            final(self).tabs_view() == old(self).tabs_view().push(tab),
            final(self).state_view().selected_index == old(self).state_view().selected_index,
            final(self).state_view().scroll_offset == old(self).state_view().scroll_offset,
            final(self).state_view().common.dirty,
            final(self).id_view() == old(self).id_view(),
    {
        self.props.tabs.push(tab);
        self.state.common.mark_dirty();
    }

    /// Remove the tab at `index`, if there is one, and give it back. A
    /// selection past the end moves to the last tab.
    pub fn remove_tab(&mut self, index: usize) -> (r: Option<TabItem>)
        requires
            old(self).wf(),
        ensures
            final(self).wf(),
            final(self).id_view() == old(self).id_view(),
            index >= old(self).tabs_view().len() ==> r is None && *final(self) == *old(self),
            index < old(self).tabs_view().len() ==> {
                let rest = old(self).tabs_view().remove(index as int);
                let sel = old(self).state_view().selected_index;
                &&& r == Some(old(self).tabs_view()[index as int])
                &&& final(self).tabs_view() == rest
                &&& final(self).state_view().selected_index == (if sel >= rest.len() && rest.len() > 0 {
                    (rest.len() - 1) as usize
                } else {
                    sel
                })
                &&& final(self).state_view().scroll_offset == old(self).state_view().scroll_offset
                &&& final(self).state_view().common.dirty
            },
    {
        if index < self.props.tabs.len() {
            let tab = self.props.tabs.remove(index);
            if self.state.selected_index >= self.props.tabs.len() && self.props.tabs.len() > 0 {
                self.state.selected_index = self.props.tabs.len() - 1;
            }
            self.state.common.mark_dirty();
            Some(tab)
        } else {
            None
        }
    }

    fn adjust_scroll_for_selection(&mut self)
        ensures
            final(self).state_view().scroll_offset == (if old(self).props_view().scrollable
                && old(self).state_view().selected_index < old(self).state_view().scroll_offset {
                old(self).state_view().selected_index
            } else {
                old(self).state_view().scroll_offset
            }),
            final(self).state_view().selected_index == old(self).state_view().selected_index,
            final(self).state_view().common == old(self).state_view().common,
            final(self).props == old(self).props,
            final(self).id == old(self).id,
    {
        if !self.props.scrollable {
            return;
        }
        if self.state.selected_index < self.state.scroll_offset {
            self.state.scroll_offset = self.state.selected_index;
        }
    }

    /// The scroll offset after selecting `i`: it moves back to a selection
    /// before it.
    pub open spec fn scrolled_to(&self, i: usize) -> usize {
        if self.props_view().scrollable && i < self.state_view().scroll_offset {
            i
        } else {
            self.state_view().scroll_offset
        }
    }

    /// Select the tab at `index`, if there is one.
    pub fn select_tab(&mut self, index: usize)
        requires
            old(self).wf(),
        ensures
            final(self).wf(),
            final(self).tabs_view() == old(self).tabs_view(),
            final(self).props_view() == old(self).props_view(),
            final(self).id_view() == old(self).id_view(),
            index < old(self).tabs_view().len() ==> final(self).state_view().selected_index == index
                && final(self).state_view().scroll_offset == old(self).scrolled_to(index)
                && final(self).state_view().common.dirty,
            index >= old(self).tabs_view().len() ==> final(self).state_view() == old(self).state_view(),
    {
        if index < self.props.tabs.len() {
            self.state.selected_index = index;
            self.adjust_scroll_for_selection();
            self.state.common.mark_dirty();
        }
    }

    /// Select the next tab, the first after the last.
    pub fn select_next_tab(&mut self)
        requires
            old(self).wf(),
        ensures
            final(self).wf(),
            final(self).tabs_view() == old(self).tabs_view(),
            final(self).props_view() == old(self).props_view(),
            final(self).id_view() == old(self).id_view(),
            old(self).tabs_view().len() > 0 ==> {
                let i = next_index(old(self).state_view().selected_index, old(self).tabs_view().len());
                &&& final(self).state_view().selected_index == i
                &&& final(self).state_view().scroll_offset == old(self).scrolled_to(i)
                &&& final(self).state_view().common.dirty
            },
            old(self).tabs_view().len() == 0 ==> final(self).state_view() == old(self).state_view(),
    {
        if self.props.tabs.len() > 0 {
            self.state.selected_index = (self.state.selected_index + 1) % self.props.tabs.len();
            self.adjust_scroll_for_selection();
            self.state.common.mark_dirty();
        }
    }

    /// Select the previous tab, the last before the first.
    pub fn select_previous_tab(&mut self)
        requires
            old(self).wf(),
        ensures
            final(self).wf(),
            final(self).tabs_view() == old(self).tabs_view(),
            final(self).props_view() == old(self).props_view(),
            final(self).id_view() == old(self).id_view(),
            old(self).tabs_view().len() > 0 ==> {
                let i = previous_index(old(self).state_view().selected_index, old(self).tabs_view().len());
                &&& final(self).state_view().selected_index == i
                &&& final(self).state_view().scroll_offset == old(self).scrolled_to(i)
                &&& final(self).state_view().common.dirty
            },
            old(self).tabs_view().len() == 0 ==> final(self).state_view() == old(self).state_view(),
    {
        if self.props.tabs.len() > 0 {
            if self.state.selected_index == 0 {
                self.state.selected_index = self.props.tabs.len() - 1;
            } else {
                self.state.selected_index = self.state.selected_index - 1;
            }
            self.adjust_scroll_for_selection();
            self.state.common.mark_dirty();
        }
    }

    /// The labels of the tabs, in order.
    pub fn build_tab_titles(&self) -> (r: Vec<String>)
        ensures
            r@.len() == self.tabs_view().len(),
            forall|i: int| 0 <= i < r@.len() ==> #[trigger] r@[i]@ == tab_label(
                self.tabs_view()[i],
                self.props_view().show_close_buttons,
            ),
    {
        let mut out: Vec<String> = Vec::new();
        let mut i: usize = 0;
        while i < self.props.tabs.len()
            invariant
                i <= self.props.tabs@.len(),
                out@.len() == i,
                forall|k: int| 0 <= k < i ==> #[trigger] out@[k]@ == tab_label(
                    self.props.tabs@[k],
                    self.props.show_close_buttons,
                ),
            decreases self.props.tabs@.len() - i,
        {
            let tab = &self.props.tabs[i];
            let mut label = String::new();
            match &tab.icon {
                Some(icon) => {
                    label.append(icon.as_str());
                    label.append(" ");
                },
                None => {},
            }
            label.append(tab.title.as_str());
            if tab.modified {
                label.append(" ●");
            }
            if self.props.show_close_buttons && tab.closable {
                label.append(" ×");
            }
            proof {
                assert(label@ =~= tab_label(*tab, self.props.show_close_buttons));
            }
            out.push(label);
            i += 1;
        }
        out
    }

    /// Handle a key. Left or `h` and right or `l` move the selection and
    /// report activation; Ctrl+w closes the selected tab when it may close;
    /// Ctrl+t reports activation when the add button is shown; a digit from
    /// 1 selects that tab.
    pub fn handle_key(&mut self, key: KeyEvent) -> (r: ComponentResult<Vec<ComponentEvent>>)
        requires
            old(self).wf(),
        ensures
            final(self).wf(),
            final(self).id_view() == old(self).id_view(),
            ({
                let o = old(self).state_view();
                let tabs = old(self).tabs_view();
                let n = tabs.len();
                let ctrl = key.modifiers.bits & 2 == 2;
                let activated = r matches Ok(events) && events@.len() == 1
                    && (events@[0] matches ComponentEvent::Activated { component_id }
                        && component_id@ == old(self).id_view());
                let quiet = r matches Ok(events) && events@.len() == 0;
                if key.code == KeyCode::Left || key.code == KeyCode::Char('h') {
                    &&& activated
                    &&& final(self).tabs_view() == tabs
                    &&& n > 0 ==> final(self).state_view().selected_index == previous_index(o.selected_index, n)
                    &&& n == 0 ==> final(self).state_view() == o
                } else if key.code == KeyCode::Right || key.code == KeyCode::Char('l') {
                    &&& activated
                    &&& final(self).tabs_view() == tabs
                    &&& n > 0 ==> final(self).state_view().selected_index == next_index(o.selected_index, n)
                    &&& n == 0 ==> final(self).state_view() == o
                } else if key.code == KeyCode::Char('w') && ctrl {
                    if o.selected_index < n && tabs[o.selected_index as int].closable {
                        &&& activated
                        &&& final(self).tabs_view() == tabs.remove(o.selected_index as int)
                    } else {
                        &&& quiet
                        &&& *final(self) == *old(self)
                    }
                } else if key.code == KeyCode::Char('t') && ctrl {
                    &&& *final(self) == *old(self)
                    &&& old(self).props_view().show_add_button ==> activated
                    &&& !old(self).props_view().show_add_button ==> quiet
                } else if key.code matches KeyCode::Char(c) && '0' <= c <= '9' {
                    let d = digit_value(key.code->Char_0);
                    if 0 < d <= n {
                        &&& activated
                        &&& final(self).tabs_view() == tabs
                        &&& final(self).state_view().selected_index == d - 1
                    } else {
                        &&& quiet
                        &&& *final(self) == *old(self)
                    }
                } else {
                    &&& quiet
                    &&& *final(self) == *old(self)
                }
            }),
    {
        let ctrl = key.modifiers.contains(KeyModifiers::control());
        match key.code {
            KeyCode::Left | KeyCode::Char('h') => {
                self.select_previous_tab();
                Ok(vec![ComponentEvent::Activated { component_id: self.id.duplicate() }])
            },
            KeyCode::Right | KeyCode::Char('l') => {
                self.select_next_tab();
                Ok(vec![ComponentEvent::Activated { component_id: self.id.duplicate() }])
            },
            KeyCode::Char(c) => {
                if c == 'w' && ctrl {
                    if self.state.selected_index < self.props.tabs.len()
                        && self.props.tabs[self.state.selected_index].closable {
                        let _removed = self.remove_tab(self.state.selected_index);
                        return Ok(vec![ComponentEvent::Activated { component_id: self.id.duplicate() }]);
                    }
                    return Ok(Vec::new());
                }
                if c == 't' && ctrl {
                    if self.props.show_add_button {
                        return Ok(vec![ComponentEvent::Activated { component_id: self.id.duplicate() }]);
                    }
                    return Ok(Vec::new());
                }
                if is_ascii_digit(c) {
                    let tab_num = (c as u32 - '0' as u32) as usize;
                    if tab_num > 0 && tab_num <= self.props.tabs.len() {
                        self.select_tab(tab_num - 1);
                        return Ok(vec![ComponentEvent::Activated { component_id: self.id.duplicate() }]);
                    }
                }
                Ok(Vec::new())
            },
            _ => Ok(Vec::new()),
        }
    }

    /// Events from other components change nothing.
    pub fn handle_event(&mut self, event: ComponentEvent) -> (r: ComponentResult<Vec<ComponentEvent>>)
        ensures
            r matches Ok(events) && events@.len() == 0,
            *final(self) == *old(self),
    {
        Ok(Vec::new())
    }

    /// What the row shows: `No Tabs` when empty; else the labels, the
    /// selection and the content line of the selected tab; and the key hint.
    pub fn view(&self) -> (r: TabsView)
        ensures
            self.tabs_view().len() == 0 <==> (r.empty_title matches Some(t) && t@ == "No Tabs"@),
            self.tabs_view().len() == 0 ==> r.labels@.len() == 0 && r.content is None,
            self.tabs_view().len() > 0 ==> {
                &&& r.labels@.len() == self.tabs_view().len()
                &&& forall|i: int| 0 <= i < r.labels@.len() ==> #[trigger] r.labels@[i]@ == tab_label(
                    self.tabs_view()[i],
                    self.props_view().show_close_buttons,
                )
                &&& r.selected == self.state_view().selected_index
                &&& self.state_view().selected_index < self.tabs_view().len() ==> (r.content matches Some(c)
                    && c@ == "Content for tab: "@ + self.tabs_view()[self.state_view().selected_index as int].title@)
                &&& self.state_view().selected_index >= self.tabs_view().len() ==> r.content is None
            },
            r.hint@ == "← → or h/l: switch tabs, Ctrl+W: close, Ctrl+T: new, 1-9: select"@,
    {
        let hint = "← → or h/l: switch tabs, Ctrl+W: close, Ctrl+T: new, 1-9: select".to_owned();
        if self.props.tabs.len() == 0 {
            return TabsView {
                empty_title: Some("No Tabs".to_owned()),
                labels: Vec::new(),
                selected: self.state.selected_index,
                content: None,
                hint,
            };
        }
        let labels = self.build_tab_titles();
        let content = if self.state.selected_index < self.props.tabs.len() {
            let mut c = "Content for tab: ".to_owned();
            c.append(self.props.tabs[self.state.selected_index].title.as_str());
            Some(c)
        } else {
            None
        };
        TabsView { empty_title: None, labels, selected: self.state.selected_index, content, hint }
    }

    /// The selection must be a tab when there are tabs.
    pub fn validate(&self) -> (r: ValidationState)
        ensures
            self.state_view().selected_index >= self.tabs_view().len() && self.tabs_view().len() > 0 ==> (r matches ValidationState::Invalid(m)
                && m@ == "Selected tab index out of bounds"@),
            !(self.state_view().selected_index >= self.tabs_view().len() && self.tabs_view().len() > 0)
                ==> r == ValidationState::Valid,
    {
        if self.state.selected_index >= self.props.tabs.len() && self.props.tabs.len() > 0 {
            return ValidationState::Invalid("Selected tab index out of bounds".to_owned());
        }
        ValidationState::Valid
    }

    /// The state.
    pub fn state(&self) -> (r: &TabsComponentState)
        ensures
            *r == self.state_view(),
    {
        &self.state
    }

    /// The configuration.
    pub fn props(&self) -> (r: &TabsProps)
        ensures
            *r == self.props_view(),
    {
        &self.props
    }
}

/// Moving to the next tab and back to the previous one returns to the tab
/// where one started.
pub proof fn lemma_next_then_previous(i: usize, n: nat)
    requires
        0 < n,
        i < n,
        n <= usize::MAX,
    ensures
        previous_index(next_index(i, n), n) == i,
{
    if i + 1 < n {
        vstd::arithmetic::div_mod::lemma_small_mod((i + 1) as nat, n);
    } else {
        vstd::arithmetic::div_mod::lemma_mod_self_0(n as int);
    }
}

/// Moving to the previous tab and then to the next one returns to the tab
/// where one started.
pub proof fn lemma_previous_then_next(i: usize, n: nat)
    requires
        0 < n,
        i < n,
        n <= usize::MAX,
    ensures
        next_index(previous_index(i, n), n) == i,
{
    if i == 0 {
        vstd::arithmetic::div_mod::lemma_mod_self_0(n as int);
    } else {
        vstd::arithmetic::div_mod::lemma_small_mod(i as nat, n);
    }
}

} // verus!
