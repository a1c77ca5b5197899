use semantic_release_tui::cli::{
    CliApplication, CliCommand, CliError, CliReply, CliRequest, CreateReleaseArgs, FormatError,
    GenerateNotesArgs, ListTasksArgs, NotesArgs, NotesCommand, OutputFormat, ReleaseArgs, ReleaseCommand,
    StatusArgs, SyncTasksArgs, TasksArgs, TasksCommand,
};
use semantic_release_tui::component::{ComponentEvent, ComponentId, ValidationState};
use semantic_release_tui::container::DiContainerConfig;
use semantic_release_tui::keys::{KeyCode, KeyEvent, KeyModifiers};
use semantic_release_tui::lists::{
    SimpleTable, SimpleTaskList, Table, TableColumn, TableProps, TableRow, TaskItem, TaskList, TaskListProps,
    TaskPriority, TaskStatus, Tree, TreeProps,
};
use semantic_release_tui::rendering::{
    component_severity, loading_indicator_text, memory_recommendation, RecommendationSeverity, RenderMetrics,
    SmartRendererConfig,
};
use semantic_release_tui::sidebar::{Sidebar, SidebarItem, SidebarProps};
use semantic_release_tui::split_pane::{SplitOrientation, SplitPane, SplitPaneProps};
use semantic_release_tui::tabs::{TabItem, Tabs, TabsProps};

fn key(code: KeyCode) -> KeyEvent {
    KeyEvent::new(code, KeyModifiers::empty())
}

fn ctrl(c: char) -> KeyEvent {
    KeyEvent::new(KeyCode::Char(c), KeyModifiers::control())
}

#[test]
fn split_pane_resizes_within_bounds() {
    let mut pane = SplitPane::new(ComponentId::new("split"), SplitPaneProps::default());
    assert_eq!(pane.state().first_size, 50);
    pane.resize_panes(5);
    assert_eq!((pane.state().first_size, pane.state().second_size), (55, 45));
    pane.resize_panes(100);
    assert_eq!((pane.state().first_size, pane.state().second_size), (90, 10));
    pane.resize_panes(-100);
    assert_eq!((pane.state().first_size, pane.state().second_size), (10, 90));
    assert_eq!(pane.validate(), ValidationState::Valid);
}

#[test]
fn split_pane_keys() {
    let mut pane = SplitPane::new(ComponentId::new("split"), SplitPaneProps::default());
    let events = pane.handle_key(key(KeyCode::Tab)).unwrap();
    assert_eq!(pane.state().active_pane, 1);
    assert!(matches!(&events[0], ComponentEvent::FocusGained { .. }));
    pane.handle_key(key(KeyCode::Left)).unwrap();
    assert_eq!(pane.state().first_size, 45);
    pane.handle_key(key(KeyCode::Up)).unwrap();
    assert_eq!(pane.state().first_size, 45);
    pane.handle_key(ctrl('r')).unwrap();
    assert_eq!((pane.state().first_size, pane.state().second_size), (50, 50));
    pane.set_active_pane(7);
    assert_eq!(pane.state().active_pane, 1);
}

#[test]
fn split_pane_view_and_validation() {
    let mut props = SplitPaneProps::default();
    props.orientation = SplitOrientation::Vertical;
    props.title_first = Some("Left".to_string());
    props.first_size = 70;
    let mut pane = SplitPane::new(ComponentId::new("split"), props);
    assert_eq!(
        pane.validate(),
        ValidationState::Invalid("Pane sizes must sum to 100%".to_string())
    );
    pane.handle_event(ComponentEvent::FocusGained { component_id: ComponentId::new("x") }).unwrap();
    let view = pane.view();
    assert_eq!(view.first_title, "Left");
    assert_eq!(view.second_title, "Pane 2");
    assert_eq!(view.hint, Some("↑ ↓ to resize, Ctrl+R to reset".to_string()));
    assert!(view.first_active && !view.second_active);
}

#[test]
fn tabs_selection_and_removal() {
    let mut props = TabsProps::default();
    props.tabs.push(TabItem::new("a", "Alpha"));
    props.tabs.push(TabItem::new("b", "Beta").modified(true));
    props.tabs.push(TabItem::new("c", "Gamma").closable(false).with_icon("*"));
    let mut tabs = Tabs::new(ComponentId::new("tabs"), props);
    tabs.select_previous_tab();
    assert_eq!(tabs.state().selected_index, 2);
    tabs.select_next_tab();
    assert_eq!(tabs.state().selected_index, 0);
    tabs.handle_key(key(KeyCode::Char('2'))).unwrap();
    assert_eq!(tabs.state().selected_index, 1);
    let events = tabs.handle_key(ctrl('w')).unwrap();
    assert_eq!(events.len(), 1);
    assert_eq!(tabs.props().tabs.len(), 2);
    assert_eq!(tabs.view().labels, vec!["Alpha ×".to_string(), "* Gamma".to_string()]);
    assert_eq!(tabs.handle_key(key(KeyCode::Char('9'))).unwrap().len(), 0);
    let removed = tabs.remove_tab(5);
    assert!(removed.is_none());
}

#[test]
fn tabs_empty_view_and_validation() {
    let tabs = Tabs::new(ComponentId::new("tabs"), TabsProps::default());
    let view = tabs.view();
    assert_eq!(view.empty_title, Some("No Tabs".to_string()));
    assert_eq!(tabs.validate(), ValidationState::Valid);
    let mut one = TabsProps::default();
    one.tabs.push(TabItem::new("a", "Alpha"));
    let tabs = Tabs::new(ComponentId::new("tabs"), one);
    assert_eq!(tabs.view().content, Some("Content for tab: Alpha".to_string()));
}

#[test]
fn sidebar_navigation_and_search() {
    let mut props = SidebarProps::default();
    props.items.push(SidebarItem::new("home", "Home").with_icon("🏠"));
    props.items.push(SidebarItem::new("tasks", "Tasks"));
    let mut sidebar = Sidebar::new(ComponentId::new("side"), props);
    sidebar.handle_key(key(KeyCode::Char('k'))).unwrap();
    assert_eq!(sidebar.state().selected_index, 1);
    sidebar.handle_key(key(KeyCode::Down)).unwrap();
    assert_eq!(sidebar.state().selected_index, 0);
    sidebar.handle_key(key(KeyCode::Char('/'))).unwrap();
    assert!(sidebar.state().search_mode);
    sidebar.handle_key(key(KeyCode::Char('t'))).unwrap();
    sidebar.handle_key(key(KeyCode::Char('a'))).unwrap();
    sidebar.handle_key(key(KeyCode::Backspace)).unwrap();
    assert_eq!(sidebar.state().search_query, "t");
    sidebar.handle_key(key(KeyCode::Esc)).unwrap();
    assert!(!sidebar.state().search_mode);
    assert_eq!(sidebar.state().search_query, "");
    let view = sidebar.view();
    assert_eq!(view.lines, vec!["🏠 Home".to_string(), "Tasks".to_string()]);
    let events = sidebar.handle_key(ctrl('c')).unwrap();
    assert_eq!(events.len(), 1);
    assert!(sidebar.state().collapsed);
    assert_eq!(sidebar.view().title, "≡");
}

#[test]
fn sidebar_items() {
    let item = SidebarItem::new("a", "A").with_metadata("k", "v").expanded(true);
    assert!(item.expanded);
    assert_eq!(item.metadata.get("k"), Some("v"));
    assert!(!item.has_children());
    let parent = SidebarItem::new("p", "P").with_children(vec![item]);
    assert!(parent.has_children());
}

#[test]
fn test_table_creation() {
    let props = TableProps::default();
    let table = Table::new(ComponentId::new("test_table"), props);

    assert_eq!(table.state().current_row, 0);
    assert!(table.state().selected_rows.is_empty());
}

#[test]
fn table_view_reads_cells_by_column() {
    let mut props = TableProps::default();
    props.columns.push(TableColumn::new("name".to_string(), "Name".to_string()));
    props.columns.push(TableColumn::new("size".to_string(), "Size".to_string()));
    let mut table = Table::new(ComponentId::new("t"), props);
    assert!(table.view().is_none());
    let mut row = TableRow::new("r1".to_string());
    row.cells.insert("name", "x");
    table.add_row(row);
    table.add_row(TableRow::new("r2".to_string()));
    let view = table.view().unwrap();
    assert_eq!(view.title, "Table");
    assert_eq!(view.column_percent, 50);
    assert_eq!(view.cells, vec![vec!["x".to_string(), String::new()], vec![String::new(), String::new()]]);
    table.handle_key(key(KeyCode::Down)).unwrap();
    table.handle_key(key(KeyCode::Down)).unwrap();
    assert_eq!(table.state().current_row, 1);
    table.handle_key(key(KeyCode::Up)).unwrap();
    table.handle_key(key(KeyCode::Up)).unwrap();
    assert_eq!(table.state().current_row, 0);
}

#[test]
fn task_list_and_tree_cursors() {
    let mut list = TaskList::new(ComponentId::new("tasks"), TaskListProps::default());
    list.add_task(TaskItem::new("T-1".to_string(), "First".to_string()));
    let task = TaskItem::new("T-2".to_string(), "Second".to_string());
    assert_eq!(task.status, TaskStatus::Todo);
    assert_eq!(task.priority, TaskPriority::Medium);
    list.add_task(task);
    list.handle_key(key(KeyCode::Down)).unwrap();
    list.handle_key(key(KeyCode::Down)).unwrap();
    assert_eq!(list.state().current_task, 1);
    let view = list.view();
    assert_eq!(view.title, "Tasks");
    assert_eq!(view.lines, vec!["First".to_string(), "Second".to_string()]);
    assert!(list.selected_tasks().is_empty());

    let mut tree = Tree::new(ComponentId::new("tree"), TreeProps::default());
    tree.handle_key(key(KeyCode::Down)).unwrap();
    tree.handle_key(key(KeyCode::Down)).unwrap();
    assert_eq!(tree.state().current_item, 2);
    tree.handle_key(key(KeyCode::Up)).unwrap();
    assert_eq!(tree.state().current_item, 1);
    assert_eq!(tree.view_title(), "Tree");
}

#[test]
fn simple_lists() {
    let list = SimpleTaskList::new(vec!["a".to_string(), "b".to_string()]);
    assert_eq!(list.render(), vec!["a".to_string(), "b".to_string()]);
    let table = SimpleTable::new(vec!["h".to_string()], vec![vec!["c".to_string()]]);
    assert_eq!(table.rows.len(), 1);
}

#[test]
fn cli_requests_follow_the_arguments() {
    let app = CliApplication::new();
    let create = CliCommand::Release(ReleaseArgs {
        command: ReleaseCommand::Create(CreateReleaseArgs {
            repository_path: ".".to_string(),
            version: Some("1.2.0".to_string()),
            notes: None,
            dry_run: true,
            no_push: true,
        }),
    });
    assert_eq!(
        app.request_for(&create),
        CliRequest::CreateRelease {
            repository_path: ".".to_string(),
            target_version: Some("1.2.0".to_string()),
            release_notes: None,
            dry_run: true,
            auto_push: false,
        }
    );
    let sync = CliCommand::Tasks(TasksArgs {
        command: TasksCommand::Sync(SyncTasksArgs { systems: vec!["jira".to_string()] }),
    });
    assert_eq!(app.request_for(&sync), CliRequest::SyncTasks { systems: vec!["jira".to_string()] });
    let list = CliCommand::Tasks(TasksArgs { command: TasksCommand::List(ListTasksArgs { format: OutputFormat::Table }) });
    assert_eq!(app.request_for(&list), CliRequest::ListTasks);
    let notes = CliCommand::Notes(NotesArgs {
        command: NotesCommand::Generate(GenerateNotesArgs { repository_path: "repo".to_string() }),
    });
    assert_eq!(app.request_for(&notes), CliRequest::GenerateNotes { repository_path: "repo".to_string() });
    let status = CliCommand::Status(StatusArgs { repository_path: "r".to_string(), format: OutputFormat::Json });
    assert_eq!(app.request_for(&status), CliRequest::ReleaseStatus { repository_path: "r".to_string() });
}

#[test]
fn cli_reports_replies() {
    let app = CliApplication::new();
    let req = CliRequest::CreateRelease {
        repository_path: ".".to_string(),
        target_version: None,
        release_notes: None,
        dry_run: false,
        auto_push: true,
    };
    assert_eq!(app.report(&req, Ok(CliReply::Done)).unwrap(), vec!["Release created successfully!".to_string()]);
    assert_eq!(
        app.report(&req, Err("boom".to_string())),
        Err(CliError::CommandFailed("boom".to_string()))
    );
    let tasks = vec![("T-1".to_string(), "Fix".to_string()), ("T-2".to_string(), "Ship".to_string())];
    assert_eq!(
        app.report(&CliRequest::ListTasks, Ok(CliReply::Tasks(Some(tasks)))).unwrap(),
        vec!["Found 2 tasks".to_string(), "- T-1: Fix".to_string(), "- T-2: Ship".to_string()]
    );
    assert_eq!(
        app.report(&CliRequest::ListTasks, Ok(CliReply::Tasks(None))).unwrap(),
        vec!["Failed to process task list".to_string()]
    );
    let status = CliRequest::ReleaseStatus { repository_path: ".".to_string() };
    assert_eq!(
        app.report(&status, Ok(CliReply::Status(Some("ready".to_string())))).unwrap(),
        vec!["Release Status: ready".to_string()]
    );
    assert_eq!(
        app.report(&status, Ok(CliReply::Status(None))).unwrap(),
        vec!["Failed to get release status".to_string()]
    );
    assert_eq!(CliError::QueryFailed("q".to_string()).to_string(), "Query failed: q");
    assert_eq!(FormatError::UnsupportedFormat.to_string(), "Unsupported format for data type");
}

#[test]
fn rendering_support() {
    assert_eq!(loading_indicator_text(0, None), "⠋ Loading...");
    assert_eq!(loading_indicator_text(1250, Some("Syncing")), "⠹ Syncing");
    assert!(memory_recommendation(true, 10_000_000).is_none());
    let rec = memory_recommendation(true, 12_000_000).unwrap();
    assert_eq!(rec.message, "High cache memory usage: 12000000 bytes");
    assert!(memory_recommendation(false, 12_000_000).is_none());
    assert_eq!(component_severity(51), RecommendationSeverity::High);
    assert_eq!(component_severity(50), RecommendationSeverity::Medium);
    assert_eq!(SmartRendererConfig::default().max_cache_size, 100);
    assert_eq!(RenderMetrics::default().total_renders, 0);
    let config = DiContainerConfig::default();
    assert!(config.use_mock_ai && config.use_mock_tasks && config.jira_url.is_none());
}
