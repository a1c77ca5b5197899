//! List components: a table of rows with named cells, a list of tasks and a
//! tree of nodes, each with a cursor the arrow keys move, and the plain task
//! list and table of the command line.

use vstd::prelude::*;
use vstd::string::*;
use crate::assoc::StringTable;
use crate::component::{CommonComponentState, ComponentEvent, ComponentId, ComponentResult, ValidationState};
use crate::keys::{KeyCode, KeyEvent};

verus! {

/// Alignment of a table column.
#[derive(Debug, Clone, Copy, PartialEq, Eq, Structural)]
pub enum TableAlignment {
    Left,
    Center,
    Right,
}

impl Default for TableAlignment {
    fn default() -> (r: Self)
        ensures
            r == TableAlignment::Left,
    {
        TableAlignment::Left
    }
}

/// Direction of a sort.
#[derive(Debug, Clone, Copy, PartialEq, Eq, Structural)]
pub enum SortDirection {
    Ascending,
    Descending,
}

impl Default for SortDirection {
    fn default() -> (r: Self)
        ensures
            r == SortDirection::Ascending,
    {
        SortDirection::Ascending
    }
}

/// A column of a table: the key of its cells and its title.
#[derive(Debug, Clone)]
pub struct TableColumn {
    pub key: String,
    pub title: String,
    pub sortable: bool,
    pub filterable: bool,
    pub alignment: TableAlignment,
}

impl TableColumn {
    /// A sortable, filterable, left-aligned column.
    pub fn new(key: String, title: String) -> (r: Self)
        ensures
            r.key == key && r.title == title,
            r.sortable && r.filterable,
            r.alignment == TableAlignment::Left,
    {
        TableColumn { key, title, sortable: true, filterable: true, alignment: TableAlignment::Left }
    }
}

/// A row of a table: its cells by column key.
#[derive(Debug)]
pub struct TableRow {
    pub id: String,
    pub cells: StringTable,
    pub selectable: bool,
}

impl TableRow {
    /// A selectable row without cells.
    pub fn new(id: String) -> (r: Self)
        ensures
            r.id == id,
            r.cells@ == Map::<Seq<char>, Seq<char>>::empty(),
            r.selectable,
    {
        TableRow { id, cells: StringTable::new(), selectable: true }
    }
}

/// Pagination of a table.
#[derive(Debug, Clone, Copy, PartialEq, Eq, Structural)]
pub struct TablePagination {
    pub page_size: usize,
    pub current_page: usize,
    pub total_items: usize,
    pub show_page_info: bool,
}

impl TablePagination {
    /// The first page of pages of `page_size` rows.
    pub fn new(page_size: usize) -> (r: Self)
        ensures
            r == (TablePagination { page_size, current_page: 0, total_items: 0, show_page_info: true }),
    {
        TablePagination { page_size, current_page: 0, total_items: 0, show_page_info: true }
    }
}

/// Configuration of a table.
#[derive(Debug)]
pub struct TableProps {
    pub columns: Vec<TableColumn>,
    pub rows: Vec<TableRow>,
    pub title: Option<String>,
    pub show_header: bool,
    pub show_borders: bool,
    pub multi_select: bool,
    pub pagination: Option<TablePagination>,
    pub sort_column: Option<String>,
    pub sort_direction: SortDirection,
    pub loading: bool,
    pub empty_message: String,
}

impl Default for TableProps {
    fn default() -> (r: Self)
        ensures
            r.columns@.len() == 0 && r.rows@.len() == 0,
            r.title is None && r.pagination is None && r.sort_column is None,
            r.show_header && r.show_borders && !r.multi_select && !r.loading,
            r.sort_direction == SortDirection::Ascending,
            r.empty_message@ == "No data available"@,
    {
        TableProps {
            columns: Vec::new(),
            rows: Vec::new(),
            title: None,
            show_header: true,
            show_borders: true,
            multi_select: false,
            pagination: None,
            sort_column: None,
            sort_direction: SortDirection::Ascending,
            loading: false,
            empty_message: "No data available".to_owned(),
        }
    }
}

/// State of a table.
#[derive(Debug, Clone)]
pub struct TableComponentState {
    pub common: CommonComponentState,
    pub selected_rows: Vec<String>,
    pub current_row: usize,
    pub scroll_offset: usize,
    pub filtered_rows: Vec<usize>,
}

impl Default for TableComponentState {
    fn default() -> (r: Self)
        ensures
            r.selected_rows@.len() == 0 && r.filtered_rows@.len() == 0,
            r.current_row == 0 && r.scroll_offset == 0,
            !r.common.dirty,
    {
        TableComponentState {
            common: CommonComponentState::default(),
            selected_rows: Vec::new(),
            current_row: 0,
            scroll_offset: 0,
            filtered_rows: Vec::new(),
        }
    }
}

/// The cursor after an arrow key over `n` entries: up moves back unless at
/// the first, down moves on unless at the last.
pub open spec fn cursor_after(code: KeyCode, cursor: usize, n: nat) -> usize {
    match code {
        KeyCode::Up => if cursor > 0 { (cursor - 1) as usize } else { cursor },
        KeyCode::Down => if cursor + 1 < n { (cursor + 1) as usize } else { cursor },
        _ => cursor,
    }
}

/// The text of a cell: the row's value for the column's key, or nothing.
pub open spec fn cell_text(row: TableRow, column: TableColumn) -> Seq<char> {
    if row.cells@.contains_key(column.key@) {
        row.cells@[column.key@]
    } else {
        Seq::empty()
    }
}

/// What a table shows.
#[derive(Debug, Clone)]
pub struct TableView {
    pub title: String,
    /// The cell texts, row by row, column by column.
    pub cells: Vec<Vec<String>>,
    /// The width of each column, in percent.
    pub column_percent: u16,
    pub current_row: usize,
}

/// A table.
pub struct Table {
    id: ComponentId,
    props: TableProps,
    state: TableComponentState,
}

impl Table {
    pub closed spec fn id_view(&self) -> Seq<char> {
        self.id@
    }

    pub closed spec fn columns_view(&self) -> Seq<TableColumn> {
        self.props.columns@
    }

    pub closed spec fn rows_view(&self) -> Seq<TableRow> {
        self.props.rows@
    }

    pub closed spec fn title_view(&self) -> Option<String> {
        self.props.title
    }

    pub closed spec fn state_view(&self) -> TableComponentState {
        self.state
    }

    /// A table with the cursor on the first row and nothing selected.
    pub fn new(id: ComponentId, props: TableProps) -> (r: Self)
        ensures
            r.id_view() == id@,
            r.columns_view() == props.columns@,
            r.rows_view() == props.rows@,
            r.title_view() == props.title,
            r.state_view().current_row == 0,
            r.state_view().selected_rows@.len() == 0,
    {
        Table { id, props, state: TableComponentState::default() }
    }

    /// Add a row at the end.
    pub fn add_row(&mut self, row: TableRow)
        ensures
            final(self).rows_view() == old(self).rows_view().push(row),
            final(self).columns_view() == old(self).columns_view(),
            final(self).title_view() == old(self).title_view(),
            final(self).state_view() == old(self).state_view(),
            final(self).id_view() == old(self).id_view(),
    {
        self.props.rows.push(row);
    }

    /// The ids of the selected rows.
    pub fn selected_rows(&self) -> (r: &[String])
        ensures
            r@ == self.state_view().selected_rows@,
    {
        self.state.selected_rows.as_slice()
    }

    /// Up and down move the cursor within the rows and mark the table
    /// modified; other keys change nothing.
    pub fn handle_key(&mut self, key: KeyEvent) -> (r: ComponentResult<Vec<ComponentEvent>>)
        ensures
            r matches Ok(events) && events@.len() == 0,
            final(self).rows_view() == old(self).rows_view(),
            final(self).columns_view() == old(self).columns_view(),
            final(self).title_view() == old(self).title_view(),
            final(self).id_view() == old(self).id_view(),
            final(self).state_view().current_row == cursor_after(
                key.code,
                old(self).state_view().current_row,
                old(self).rows_view().len(),
            ),
            final(self).state_view().selected_rows == old(self).state_view().selected_rows,
            (key.code == KeyCode::Up || key.code == KeyCode::Down) ==> final(self).state_view().common.dirty,
            !(key.code == KeyCode::Up || key.code == KeyCode::Down) ==> final(self).state_view() == old(
                self,
            ).state_view(),
    {
        let n = self.props.rows.len();
        match key.code {
            KeyCode::Up => {
                if self.state.current_row > 0 {
                    self.state.current_row = self.state.current_row - 1;
                }
                self.state.common.mark_dirty();
            },
            KeyCode::Down => {
                if self.state.current_row < usize::MAX && self.state.current_row + 1 < n {
                    self.state.current_row = self.state.current_row + 1;
                }
                self.state.common.mark_dirty();
            },
            _ => {},
        }
        Ok(Vec::new())
    }

    /// Events from other components change nothing.
    pub fn handle_event(&mut self, event: ComponentEvent) -> (r: ComponentResult<Vec<ComponentEvent>>)
        ensures
            r matches Ok(events) && events@.len() == 0,
            *final(self) == *old(self),
    {
        Ok(Vec::new())
    }

    /// What the table shows, when it has rows: its title (`Table` unless
    /// configured), the text of each cell, the width of the columns and the
    /// cursor.
    pub fn view(&self) -> (r: Option<TableView>)
        ensures
            self.rows_view().len() == 0 ==> r is None,
            self.rows_view().len() > 0 ==> (r matches Some(v) && {
                &&& v.title@ == (match self.title_view() {
                    Some(t) => t@,
                    None => "Table"@,
                })
                &&& v.column_percent == 100int / (if self.columns_view().len() > 1 {
                    self.columns_view().len() as int
                } else {
                    1int
                })
                &&& v.current_row == self.state_view().current_row
                &&& v.cells@.len() == self.rows_view().len()
                &&& forall|i: int| #![trigger v.cells@[i]] 0 <= i < v.cells@.len() ==> v.cells@[i]@.len()
                    == self.columns_view().len() && forall|j: int| 0 <= j < self.columns_view().len()
                    ==> #[trigger] v.cells@[i]@[j]@ == cell_text(self.rows_view()[i], self.columns_view()[j])
            }),
    {
        if self.props.rows.len() == 0 {
            return None;
        }
        let title = match &self.props.title {
            Some(t) => t.clone(),
            None => "Table".to_owned(),
        };
        let mut cells: Vec<Vec<String>> = Vec::new();
        let mut i: usize = 0;
        while i < self.props.rows.len()
            invariant
                i <= self.props.rows@.len(),
                cells@.len() == i,
                forall|a: int| #![trigger cells@[a]] 0 <= a < i ==> cells@[a]@.len() == self.props.columns@.len()
                    && forall|b: int| 0 <= b < self.props.columns@.len() ==> #[trigger] cells@[a]@[b]@ == cell_text(
                    self.props.rows@[a],
                    self.props.columns@[b],
                ),
            decreases self.props.rows@.len() - i,
        {
            let row = &self.props.rows[i];
            let mut line: Vec<String> = Vec::new();
            let mut j: usize = 0;
            while j < self.props.columns.len()
                invariant
                    j <= self.props.columns@.len(),
                    line@.len() == j,
                    *row == self.props.rows@[i as int],
                    forall|b: int| 0 <= b < j ==> #[trigger] line@[b]@ == cell_text(*row, self.props.columns@[b]),
                decreases self.props.columns@.len() - j,
            {
                let text = match row.cells.get(self.props.columns[j].key.as_str()) {
                    Some(v) => v.to_owned(),
                    None => String::new(),
                };
                line.push(text);
                j += 1;
            }
            cells.push(line);
            i += 1;
        }
        let n = self.props.columns.len();
        let column_percent: u16 = if n > 1 { (100 / n) as u16 } else { 100 };
        Some(TableView { title, cells, column_percent, current_row: self.state.current_row })
    }

    /// A table is always valid.
    pub fn validate(&self) -> (r: ValidationState)
        ensures
            r == ValidationState::Valid,
    {
        ValidationState::Valid
    }

    /// The state.
    pub fn state(&self) -> (r: &TableComponentState)
        ensures
            *r == self.state_view(),
    {
        &self.state
    }
}

/// Priority of a task, lowest first.
#[derive(Debug, Clone, Copy, PartialEq, Eq, PartialOrd, Ord, Structural)]
pub enum TaskPriority {
    Lowest,
    Low,
    Medium,
    High,
    Highest,
}

impl Default for TaskPriority {
    fn default() -> (r: Self)
        ensures
            r == TaskPriority::Medium,
    {
        TaskPriority::Medium
    }
}

/// Status of a task.
#[derive(Debug, Clone, Copy, PartialEq, Eq, Structural)]
pub enum TaskStatus {
    Todo,
    InProgress,
    InReview,
    Done,
    Blocked,
    Cancelled,
}

impl Default for TaskStatus {
    fn default() -> (r: Self)
        ensures
            r == TaskStatus::Todo,
    {
        TaskStatus::Todo
    }
}

/// Where a task comes from.
#[derive(Debug, Clone, Copy, PartialEq, Eq, Structural)]
pub enum TaskSource {
    Jira,
    Monday,
    GitHub,
    Local,
    Custom,
}

impl Default for TaskSource {
    fn default() -> (r: Self)
        ensures
            r == TaskSource::Local,
    {
        TaskSource::Local
    }
}

/// A task.
#[derive(Debug)]
pub struct TaskItem {
    pub id: String,
    pub title: String,
    pub description: Option<String>,
    pub status: TaskStatus,
    pub priority: TaskPriority,
    pub source: TaskSource,
    pub assignee: Option<String>,
    pub tags: Vec<String>,
    pub metadata: StringTable,
}

impl TaskItem {
    /// A local task to do, of medium priority, with nothing else set.
    pub fn new(id: String, title: String) -> (r: Self)
        ensures
            r.id == id && r.title == title,
            r.description is None && r.assignee is None,
            r.status == TaskStatus::Todo,
            r.priority == TaskPriority::Medium,
            r.source == TaskSource::Local,
            r.tags@.len() == 0,
            r.metadata@ == Map::<Seq<char>, Seq<char>>::empty(),
    {
        TaskItem {
            id,
            title,
            description: None,
            status: TaskStatus::Todo,
            priority: TaskPriority::Medium,
            source: TaskSource::Local,
            assignee: None,
            tags: Vec::new(),
            metadata: StringTable::new(),
        }
    }
}

/// Configuration of a task list.
#[derive(Debug)]
pub struct TaskListProps {
    pub tasks: Vec<TaskItem>,
    pub title: Option<String>,
    pub show_borders: bool,
    pub show_status: bool,
    pub show_priority: bool,
    pub show_assignee: bool,
    pub multi_select: bool,
    pub empty_message: String,
}

impl Default for TaskListProps {
    fn default() -> (r: Self)
        ensures
            r.tasks@.len() == 0 && r.title is None,
            r.show_borders && r.show_status && r.show_priority && r.show_assignee && !r.multi_select,
            r.empty_message@ == "No tasks"@,
    {
        TaskListProps {
            tasks: Vec::new(),
            title: None,
            show_borders: true,
            show_status: true,
            show_priority: true,
            show_assignee: true,
            multi_select: false,
            empty_message: "No tasks".to_owned(),
        }
    }
}

/// State of a task list.
#[derive(Debug, Clone)]
pub struct TaskListComponentState {
    pub common: CommonComponentState,
    pub selected_tasks: Vec<String>,
    pub current_task: usize,
    pub scroll_offset: usize,
    pub filter_status: Option<TaskStatus>,
    pub filter_priority: Option<TaskPriority>,
    pub search_query: String,
}

impl Default for TaskListComponentState {
    fn default() -> (r: Self)
        ensures
            r.selected_tasks@.len() == 0,
            r.current_task == 0 && r.scroll_offset == 0,
            r.filter_status is None && r.filter_priority is None,
            r.search_query@.len() == 0,
            !r.common.dirty,
    {
        TaskListComponentState {
            common: CommonComponentState::default(),
            selected_tasks: Vec::new(),
            current_task: 0,
            scroll_offset: 0,
            filter_status: None,
            filter_priority: None,
            search_query: String::new(),
        }
    }
}

/// What a task list shows.
#[derive(Debug, Clone)]
pub struct TaskListView {
    pub title: String,
    pub lines: Vec<String>,
    pub current_task: usize,
}

/// A list of tasks.
pub struct TaskList {
    id: ComponentId,
    props: TaskListProps,
    state: TaskListComponentState,
}

impl TaskList {
    pub closed spec fn id_view(&self) -> Seq<char> {
        self.id@
    }

    pub closed spec fn tasks_view(&self) -> Seq<TaskItem> {
        self.props.tasks@
    }

    pub closed spec fn title_view(&self) -> Option<String> {
        self.props.title
    }

    pub closed spec fn state_view(&self) -> TaskListComponentState {
        self.state
    }

    /// A task list with the cursor on the first task.
    pub fn new(id: ComponentId, props: TaskListProps) -> (r: Self)
        ensures
            r.id_view() == id@,
            r.tasks_view() == props.tasks@,
            r.title_view() == props.title,
            r.state_view().current_task == 0,
            r.state_view().selected_tasks@.len() == 0,
    {
        TaskList { id, props, state: TaskListComponentState::default() }
    }

    /// Add a task at the end.
    pub fn add_task(&mut self, task: TaskItem)
        ensures
            final(self).tasks_view() == old(self).tasks_view().push(task),
            final(self).title_view() == old(self).title_view(),
            final(self).state_view() == old(self).state_view(),
            final(self).id_view() == old(self).id_view(),
    {
        self.props.tasks.push(task);
    }

    /// The ids of the selected tasks.
    pub fn selected_tasks(&self) -> (r: &[String])
        ensures
            r@ == self.state_view().selected_tasks@,
    {
        self.state.selected_tasks.as_slice()
    }

    /// Up and down move the cursor within the tasks and mark the list
    /// modified; other keys change nothing.
    pub fn handle_key(&mut self, key: KeyEvent) -> (r: ComponentResult<Vec<ComponentEvent>>)
        ensures
            r matches Ok(events) && events@.len() == 0,
            final(self).tasks_view() == old(self).tasks_view(),
            final(self).title_view() == old(self).title_view(),
            final(self).id_view() == old(self).id_view(),
            final(self).state_view().current_task == cursor_after(
                key.code,
                old(self).state_view().current_task,
                old(self).tasks_view().len(),
            ),
            final(self).state_view().selected_tasks == old(self).state_view().selected_tasks,
            (key.code == KeyCode::Up || key.code == KeyCode::Down) ==> final(self).state_view().common.dirty,
            !(key.code == KeyCode::Up || key.code == KeyCode::Down) ==> final(self).state_view() == old(
                self,
            ).state_view(),
    {
        let n = self.props.tasks.len();
        match key.code {
            KeyCode::Up => {
                if self.state.current_task > 0 {
                    self.state.current_task = self.state.current_task - 1;
                }
                self.state.common.mark_dirty();
            },
            KeyCode::Down => {
                if self.state.current_task < usize::MAX && self.state.current_task + 1 < n {
                    self.state.current_task = self.state.current_task + 1;
                }
                self.state.common.mark_dirty();
            },
            _ => {},
        }
        Ok(Vec::new())
    }

    /// Events from other components change nothing.
    pub fn handle_event(&mut self, event: ComponentEvent) -> (r: ComponentResult<Vec<ComponentEvent>>)
        ensures
            r matches Ok(events) && events@.len() == 0,
            *final(self) == *old(self),
    {
        Ok(Vec::new())
    }

    /// What the list shows: its title (`Tasks` unless configured), the
    /// title of each task and the cursor.
    pub fn view(&self) -> (r: TaskListView)
        ensures
            r.title@ == (match self.title_view() {
                Some(t) => t@,
                None => "Tasks"@,
            }),
            r.lines@.len() == self.tasks_view().len(),
            forall|i: int| 0 <= i < r.lines@.len() ==> #[trigger] r.lines@[i]@ == self.tasks_view()[i].title@,
            r.current_task == self.state_view().current_task,
    {
        let title = match &self.props.title {
            Some(t) => t.clone(),
            None => "Tasks".to_owned(),
        };
        let mut lines: Vec<String> = Vec::new();
        let mut i: usize = 0;
        while i < self.props.tasks.len()
            invariant
                i <= self.props.tasks@.len(),
                lines@.len() == i,
                forall|k: int| 0 <= k < i ==> #[trigger] lines@[k]@ == self.props.tasks@[k].title@,
            decreases self.props.tasks@.len() - i,
        {
            lines.push(self.props.tasks[i].title.clone());
            i += 1;
        }
        TaskListView { title, lines, current_task: self.state.current_task }
    }

    /// A task list is always valid.
    pub fn validate(&self) -> (r: ValidationState)
        ensures
            r == ValidationState::Valid,
    {
        ValidationState::Valid
    }

    /// The state.
    pub fn state(&self) -> (r: &TaskListComponentState)
        ensures
            *r == self.state_view(),
    {
        &self.state
    }
}

/// A node of a tree, with its children and metadata.
#[derive(Debug)]
pub struct TreeNode {
    pub id: String,
    pub label: String,
    pub icon: Option<String>,
    pub expanded: bool,
    pub selectable: bool,
    pub children: Vec<TreeNode>,
    pub metadata: StringTable,
}

impl TreeNode {
    /// A collapsed, selectable node without icon, children or metadata.
    pub fn new(id: String, label: String) -> (r: Self)
        ensures
            r.id == id && r.label == label,
            r.icon is None && !r.expanded && r.selectable,
            r.children@.len() == 0,
            r.metadata@ == Map::<Seq<char>, Seq<char>>::empty(),
    {
        TreeNode {
            id,
            label,
            icon: None,
            expanded: false,
            selectable: true,
            children: Vec::new(),
            metadata: StringTable::new(),
        }
    }

    /// Whether the node has children.
    pub fn has_children(&self) -> (r: bool)
        ensures
            r == (self.children@.len() > 0),
    {
        self.children.len() > 0
    }

    /// Expand a collapsed node or collapse an expanded one.
    pub fn toggle_expanded(&mut self)
        ensures
            final(self).expanded == !old(self).expanded,
            final(self).id == old(self).id && final(self).label == old(self).label,
            final(self).icon == old(self).icon && final(self).selectable == old(self).selectable,
            final(self).children == old(self).children && final(self).metadata == old(self).metadata,
    {
        self.expanded = !self.expanded;
    }
}

/// The symbols a tree is drawn with.
#[derive(Debug, Clone)]
pub struct TreeSymbols {
    pub branch: String,
    pub leaf: String,
    pub expanded: String,
    pub collapsed: String,
    pub vertical: String,
    pub horizontal: String,
    pub corner: String,
    pub tee: String,
}

impl Default for TreeSymbols {
    fn default() -> (r: Self)
        ensures
            r.branch@ == "├─"@ && r.leaf@ == "└─"@,
            r.expanded@ == "▼"@ && r.collapsed@ == "▶"@,
            r.vertical@ == "│"@ && r.horizontal@ == "─"@,
            r.corner@ == "└"@ && r.tee@ == "├"@,
    {
        TreeSymbols {
            branch: "├─".to_owned(),
            leaf: "└─".to_owned(),
            expanded: "▼".to_owned(),
            collapsed: "▶".to_owned(),
            vertical: "│".to_owned(),
            horizontal: "─".to_owned(),
            corner: "└".to_owned(),
            tee: "├".to_owned(),
        }
    }
}

/// Configuration of a tree.
#[derive(Debug)]
pub struct TreeProps {
    pub root: TreeNode,
    pub title: Option<String>,
    pub show_borders: bool,
    pub show_icons: bool,
    pub multi_select: bool,
    pub search_enabled: bool,
    pub tree_symbols: TreeSymbols,
    pub empty_message: String,
}

impl Default for TreeProps {
    fn default() -> (r: Self)
        ensures
            r.root.id@ == "root"@ && r.root.label@ == "Root"@ && r.root.children@.len() == 0,
            r.title is None,
            r.show_borders && r.show_icons && !r.multi_select && r.search_enabled,
            r.empty_message@ == "No items"@,
    {
        TreeProps {
            root: TreeNode::new("root".to_owned(), "Root".to_owned()),
            title: None,
            show_borders: true,
            show_icons: true,
            multi_select: false,
            search_enabled: true,
            tree_symbols: TreeSymbols::default(),
            empty_message: "No items".to_owned(),
        }
    }
}

/// State of a tree.
#[derive(Debug, Clone)]
pub struct TreeComponentState {
    pub common: CommonComponentState,
    pub selected_nodes: Vec<String>,
    pub current_item: usize,
    pub scroll_offset: usize,
    pub search_mode: bool,
    pub search_query: String,
    pub flat_items: Vec<String>,
}

impl Default for TreeComponentState {
    fn default() -> (r: Self)
        ensures
            r.selected_nodes@.len() == 0 && r.flat_items@.len() == 0,
            r.current_item == 0 && r.scroll_offset == 0,
            !r.search_mode && r.search_query@.len() == 0,
            !r.common.dirty,
    {
        TreeComponentState {
            common: CommonComponentState::default(),
            selected_nodes: Vec::new(),
            current_item: 0,
            scroll_offset: 0,
            search_mode: false,
            search_query: String::new(),
            flat_items: Vec::new(),
        }
    }
}

/// A tree of nodes.
pub struct Tree {
    id: ComponentId,
    props: TreeProps,
    state: TreeComponentState,
}

impl Tree {
    pub closed spec fn id_view(&self) -> Seq<char> {
        self.id@
    }

    pub closed spec fn title_view(&self) -> Option<String> {
        self.props.title
    }

    pub closed spec fn state_view(&self) -> TreeComponentState {
        self.state
    }

    /// A tree with the cursor on the first item.
    pub fn new(id: ComponentId, props: TreeProps) -> (r: Self)
        ensures
            r.id_view() == id@,
            r.title_view() == props.title,
            r.state_view().current_item == 0,
            r.state_view().selected_nodes@.len() == 0,
    {
        Tree { id, props, state: TreeComponentState::default() }
    }

    /// The ids of the selected nodes.
    pub fn selected_nodes(&self) -> (r: &[String])
        ensures
            r@ == self.state_view().selected_nodes@,
    {
        self.state.selected_nodes.as_slice()
    }

    /// Up moves the cursor back unless at the first item, down moves it on
    /// without bound; both mark the tree modified.
    pub fn handle_key(&mut self, key: KeyEvent) -> (r: ComponentResult<Vec<ComponentEvent>>)
        requires
            key.code == KeyCode::Down ==> old(self).state_view().current_item < usize::MAX,
        ensures
            r matches Ok(events) && events@.len() == 0,
            final(self).title_view() == old(self).title_view(),
            final(self).id_view() == old(self).id_view(),
            final(self).state_view().selected_nodes == old(self).state_view().selected_nodes,
            key.code == KeyCode::Up ==> final(self).state_view().current_item == (if old(
                self,
            ).state_view().current_item > 0 {
                old(self).state_view().current_item - 1
            } else {
                0
            }) && final(self).state_view().common.dirty,
            key.code == KeyCode::Down ==> final(self).state_view().current_item == old(self).state_view().current_item
                + 1 && final(self).state_view().common.dirty,
            !(key.code == KeyCode::Up || key.code == KeyCode::Down) ==> final(self).state_view() == old(
                self,
            ).state_view(),
    {
        match key.code {
            KeyCode::Up => {
                if self.state.current_item > 0 {
                    self.state.current_item = self.state.current_item - 1;
                }
                self.state.common.mark_dirty();
            },
            KeyCode::Down => {
                self.state.current_item = self.state.current_item + 1;
                self.state.common.mark_dirty();
            },
            _ => {},
        }
        Ok(Vec::new())
    }

    /// Events from other components change nothing.
    pub fn handle_event(&mut self, event: ComponentEvent) -> (r: ComponentResult<Vec<ComponentEvent>>)
        ensures
            r matches Ok(events) && events@.len() == 0,
            *final(self) == *old(self),
    {
        Ok(Vec::new())
    }

    /// The title the tree shows: `Tree` unless configured.
    pub fn view_title(&self) -> (r: String)
        ensures
            r@ == (match self.title_view() {
                Some(t) => t@,
                None => "Tree"@,
            }),
    {
        match &self.props.title {
            Some(t) => t.clone(),
            None => "Tree".to_owned(),
        }
    }

    /// A tree is always valid.
    pub fn validate(&self) -> (r: ValidationState)
        ensures
            r == ValidationState::Valid,
    {
        ValidationState::Valid
    }

    /// The state.
    pub fn state(&self) -> (r: &TreeComponentState)
        ensures
            *r == self.state_view(),
    {
        &self.state
    }
}

/// A plain list of task lines.
#[derive(Debug, Clone)]
pub struct SimpleTaskList {
    pub items: Vec<String>,
    /// The selected line, if any.
    pub selected: Option<usize>,
}

impl SimpleTaskList {
    /// A list of these lines with nothing selected.
    pub fn new(items: Vec<String>) -> (r: Self)
        ensures
            r.items == items,
            r.selected is None,
    {
        SimpleTaskList { items, selected: None }
    }

    /// The lines the list shows, in order.
    pub fn render(&self) -> (r: Vec<String>)
        ensures
            r@ == self.items@,
    {
        let mut out: Vec<String> = Vec::new();
        let mut i: usize = 0;
        while i < self.items.len()
            invariant
                i <= self.items@.len(),
                out@ == self.items@.take(i as int),
            decreases self.items@.len() - i,
        {
            out.push(self.items[i].clone());
            assert(out@ =~= self.items@.take(i + 1));
            i += 1;
        }
        assert(self.items@.take(i as int) =~= self.items@);
        out
    }
}

/// A plain table of text: headers and rows.
#[derive(Debug, Clone)]
pub struct SimpleTable {
    pub headers: Vec<String>,
    pub rows: Vec<Vec<String>>,
}

impl SimpleTable {
    /// A table of these headers and rows.
    pub fn new(headers: Vec<String>, rows: Vec<Vec<String>>) -> (r: Self)
        ensures
            r.headers == headers,
            r.rows == rows,
    {
        SimpleTable { headers, rows }
    }
}

} // verus!
