//! The command line: its commands and their arguments, the request each
//! command makes of the application layer, and what is printed for each
//! reply. The front end parses the arguments, sends the request and prints
//! the lines.

use vstd::prelude::*;
use vstd::string::*;
use crate::text::{decimal, decimal_text};

verus! {

/// Output formats of the command line.
#[derive(Debug, Clone, Copy, PartialEq, Eq, Structural)]
pub enum OutputFormat {
    /// Human-readable table.
    Table,
    Json,
    Yaml,
    /// Plain text.
    Text,
}

/// Faults of output formatting.
#[derive(Debug, Clone, PartialEq, Eq)]
pub enum FormatError {
    SerializationFailed(String),
    UnsupportedFormat,
}

impl FormatError {
    /// The message of the fault.
    pub fn to_string(&self) -> (r: String)
        ensures
            r@ == (match self {
                FormatError::SerializationFailed(m) => "Serialization failed: "@ + m@,
                FormatError::UnsupportedFormat => "Unsupported format for data type"@,
            }),
    {
        match self {
            FormatError::SerializationFailed(m) => {
                let mut s = "Serialization failed: ".to_owned();
                s.append(m.as_str());
                s
            },
            FormatError::UnsupportedFormat => "Unsupported format for data type".to_owned(),
        }
    }
}

/// Arguments of `release create`.
#[derive(Debug, Clone)]
pub struct CreateReleaseArgs {
    pub repository_path: String,
    pub version: Option<String>,
    pub notes: Option<String>,
    pub dry_run: bool,
    pub no_push: bool,
}

/// Release commands.
#[derive(Debug, Clone)]
pub enum ReleaseCommand {
    Create(CreateReleaseArgs),
}

/// Arguments of `release`.
#[derive(Debug, Clone)]
pub struct ReleaseArgs {
    pub command: ReleaseCommand,
}

/// Arguments of `tasks sync`.
#[derive(Debug, Clone)]
pub struct SyncTasksArgs {
    pub systems: Vec<String>,
}

/// Arguments of `tasks list`.
#[derive(Debug, Clone)]
pub struct ListTasksArgs {
    pub format: OutputFormat,
}

/// Task commands.
#[derive(Debug, Clone)]
pub enum TasksCommand {
    Sync(SyncTasksArgs),
    List(ListTasksArgs),
}

/// Arguments of `tasks`.
#[derive(Debug, Clone)]
pub struct TasksArgs {
    pub command: TasksCommand,
}

/// Arguments of `notes generate`.
#[derive(Debug, Clone)]
pub struct GenerateNotesArgs {
    pub repository_path: String,
}

/// Release notes commands.
#[derive(Debug, Clone)]
pub enum NotesCommand {
    Generate(GenerateNotesArgs),
}

/// Arguments of `notes`.
#[derive(Debug, Clone)]
pub struct NotesArgs {
    pub command: NotesCommand,
}

/// Arguments of `status`.
#[derive(Debug, Clone)]
pub struct StatusArgs {
    pub repository_path: String,
    pub format: OutputFormat,
}

/// The commands of the command line.
#[derive(Debug, Clone)]
pub enum CliCommand {
    Release(ReleaseArgs),
    Tasks(TasksArgs),
    Notes(NotesArgs),
    Status(StatusArgs),
}

/// Faults of the command line.
#[derive(Debug, Clone, PartialEq, Eq)]
pub enum CliError {
    CommandFailed(String),
    QueryFailed(String),
    OutputError(String),
}

impl CliError {
    /// The message of the fault.
    pub fn to_string(&self) -> (r: String)
        ensures
            r@ == (match self {
                CliError::CommandFailed(m) => "Command failed: "@ + m@,
                CliError::QueryFailed(m) => "Query failed: "@ + m@,
                CliError::OutputError(m) => "Output formatting failed: "@ + m@,
            }),
    {
        let (prefix, m) = match self {
            CliError::CommandFailed(m) => ("Command failed: ", m),
            CliError::QueryFailed(m) => ("Query failed: ", m),
            CliError::OutputError(m) => ("Output formatting failed: ", m),
        };
        let mut s = prefix.to_owned();
        s.append(m.as_str());
        s
    }
}

/// What a command asks of the application layer.
#[derive(Debug, Clone, PartialEq, Eq)]
pub enum CliRequest {
    /// Create a release of a repository.
    CreateRelease {
        repository_path: String,
        target_version: Option<String>,
        release_notes: Option<String>,
        dry_run: bool,
        auto_push: bool,
    },
    /// Synchronize tasks with these systems.
    SyncTasks { systems: Vec<String> },
    /// List the tasks, with no filter, paging or order.
    ListTasks,
    /// Generate release notes for a repository.
    GenerateNotes { repository_path: String },
    /// The release status of a repository.
    ReleaseStatus { repository_path: String },
}

/// What the application layer answered a request with.
#[derive(Debug, Clone)]
pub enum CliReply {
    /// A command succeeded.
    Done,
    /// The tasks listed, as (id, title) pairs; `None` when the answer was
    /// not a list of tasks.
    Tasks(Option<Vec<(String, String)>>),
    /// The release status; `None` when the answer was not a text.
    Status(Option<String>),
}

/// Whether `r` is the request a command makes: a release takes the version
/// and notes given, the dry run flag, and pushes unless told not to.
pub open spec fn is_request_for(r: CliRequest, cmd: CliCommand) -> bool {
    match cmd {
        CliCommand::Release(args) => match args.command {
            ReleaseCommand::Create(a) => r == CliRequest::CreateRelease {
                repository_path: a.repository_path,
                target_version: a.version,
                release_notes: a.notes,
                dry_run: a.dry_run,
                auto_push: !a.no_push,
            },
        },
        CliCommand::Tasks(args) => match args.command {
            TasksCommand::Sync(a) => r matches CliRequest::SyncTasks { systems } && systems@ == a.systems@,
            TasksCommand::List(_) => r == CliRequest::ListTasks,
        },
        CliCommand::Notes(args) => match args.command {
            NotesCommand::Generate(a) => r == CliRequest::GenerateNotes { repository_path: a.repository_path },
        },
        CliCommand::Status(args) => r == CliRequest::ReleaseStatus { repository_path: args.repository_path },
    }
}

/// The lines printed for a list of tasks: the count, then each task as
/// `- id: title`.
pub open spec fn task_lines(tasks: Seq<(String, String)>) -> Seq<Seq<char>> {
    seq!["Found "@ + decimal(tasks.len()) + " tasks"@] + Seq::new(
        tasks.len(),
        |i: int| "- "@ + tasks[i].0@ + ": "@ + tasks[i].1@,
    )
}

/// The line printed when a command of this request succeeds.
pub open spec fn success_line(req: CliRequest) -> Seq<char> {
    match req {
        CliRequest::CreateRelease { .. } => "Release created successfully!"@,
        CliRequest::SyncTasks { .. } => "Tasks synchronized successfully!"@,
        CliRequest::GenerateNotes { .. } => "Release notes generated successfully!"@,
        _ => Seq::empty(),
    }
}

/// The views of a sequence of strings.
pub open spec fn lines_view(v: Seq<String>) -> Seq<Seq<char>> {
    v.map_values(|s: String| s@)
}

/// The command line application. It holds no state of its own: the
/// application layer that answers its requests lives in the front end.
#[derive(Debug, Clone, Copy)]
pub struct CliApplication {}

impl CliApplication {
    /// A command line application.
    pub fn new() -> (r: Self) {
        CliApplication {}
    }

    /// The request a command makes.
    pub fn request_for(&self, cmd: &CliCommand) -> (r: CliRequest)
        ensures
            is_request_for(r, *cmd),
    {
        match cmd {
            CliCommand::Release(args) => match &args.command {
                ReleaseCommand::Create(a) => {
                    let target_version = match &a.version {
                        Some(v) => Some(v.clone()),
                        None => None,
                    };
                    let release_notes = match &a.notes {
                        Some(n) => Some(n.clone()),
                        None => None,
                    };
                    CliRequest::CreateRelease {
                        repository_path: a.repository_path.clone(),
                        target_version,
                        release_notes,
                        dry_run: a.dry_run,
                        auto_push: !a.no_push,
                    }
                },
            },
            CliCommand::Tasks(args) => match &args.command {
                TasksCommand::Sync(a) => {
                    let mut systems: Vec<String> = Vec::new();
                    let mut i: usize = 0;
                    while i < a.systems.len()
                        invariant
                            i <= a.systems@.len(),
                            systems@ == a.systems@.take(i as int),
                        decreases a.systems@.len() - i,
                    {
                        systems.push(a.systems[i].clone());
                        assert(systems@ =~= a.systems@.take(i + 1));
                        i += 1;
                    }
                    assert(a.systems@.take(i as int) =~= a.systems@);
                    CliRequest::SyncTasks { systems }
                },
                TasksCommand::List(_) => CliRequest::ListTasks,
            },
            CliCommand::Notes(args) => match &args.command {
                NotesCommand::Generate(a) => CliRequest::GenerateNotes { repository_path: a.repository_path.clone() },
            },
            CliCommand::Status(args) => CliRequest::ReleaseStatus { repository_path: args.repository_path.clone() },
        }
    }

    /// What is printed for the reply to a request, or the fault it gives:
    /// a failed command or query is a failed command with the message of
    /// the failure. A success prints its line; a task list prints the
    /// count and the tasks, or that the list could not be processed; a
    /// status prints `Release Status: ` and the status, or that it could
    /// not be had.
    pub fn report(&self, request: &CliRequest, reply: Result<CliReply, String>) -> (r: Result<Vec<String>, CliError>)
        ensures
            match reply {
                Err(e) => r == Err::<Vec<String>, CliError>(CliError::CommandFailed(e)),
                Ok(CliReply::Tasks(Some(tasks))) => (r matches Ok(lines) && lines_view(lines@) == task_lines(
                    tasks@,
                )),
                Ok(CliReply::Tasks(None)) => (r matches Ok(lines) && lines_view(lines@) == seq![
                    "Failed to process task list"@,
                ]),
                Ok(CliReply::Status(Some(s))) => (r matches Ok(lines) && lines_view(lines@) == seq![
                    "Release Status: "@ + s@,
                ]),
                Ok(CliReply::Status(None)) => (r matches Ok(lines) && lines_view(lines@) == seq![
                    "Failed to get release status"@,
                ]),
                Ok(CliReply::Done) => (r matches Ok(lines) && lines_view(lines@) == (if success_line(
                    *request,
                ).len() > 0 {
                    seq![success_line(*request)]
                } else {
                    Seq::empty()
                })),
            },
    {
        match reply {
            Err(e) => Err(CliError::CommandFailed(e)),
            Ok(CliReply::Tasks(Some(tasks))) => {
                let mut lines: Vec<String> = Vec::new();
                let mut head = "Found ".to_owned();
                let count = decimal_text(tasks.len() as u64);
                head.append(count.as_str());
                head.append(" tasks");
                lines.push(head);
                let mut i: usize = 0;
                while i < tasks.len()
                    invariant
                        i <= tasks@.len(),
                        lines@.len() == i + 1,
                        lines_view(lines@) == task_lines(tasks@).take(i + 1),
                    decreases tasks@.len() - i,
                {
                    let mut line = "- ".to_owned();
                    line.append(tasks[i].0.as_str());
                    line.append(": ");
                    line.append(tasks[i].1.as_str());
                    let ghost before = lines@;
                    lines.push(line);
                    assert(lines_view(lines@) =~= lines_view(before).push(line@));
                    assert(task_lines(tasks@).take(i + 2) =~= task_lines(tasks@).take(i + 1).push(
                        task_lines(tasks@)[i + 1],
                    ));
                    i += 1;
                }
                assert(task_lines(tasks@).take(i + 1) =~= task_lines(tasks@));
                Ok(lines)
            },
            Ok(CliReply::Tasks(None)) => {
                let v = vec!["Failed to process task list".to_owned()];
                assert(lines_view(v@) =~= seq!["Failed to process task list"@]);
                Ok(v)
            },
            Ok(CliReply::Status(Some(s))) => {
                let mut line = "Release Status: ".to_owned();
                line.append(s.as_str());
                let v = vec![line];
                assert(lines_view(v@) =~= seq!["Release Status: "@ + s@]);
                Ok(v)
            },
            Ok(CliReply::Status(None)) => {
                let v = vec!["Failed to get release status".to_owned()];
                assert(lines_view(v@) =~= seq!["Failed to get release status"@]);
                Ok(v)
            },
            Ok(CliReply::Done) => {
                let line = match request {
                    CliRequest::CreateRelease { .. } => "Release created successfully!",
                    CliRequest::SyncTasks { .. } => "Tasks synchronized successfully!",
                    CliRequest::GenerateNotes { .. } => "Release notes generated successfully!",
                    _ => "",
                };
                proof {
                    reveal_strlit("Release created successfully!");
                    reveal_strlit("Tasks synchronized successfully!");
                    reveal_strlit("Release notes generated successfully!");
                    reveal_strlit("");
                }
                if line.unicode_len() > 0 {
                    let v = vec![line.to_owned()];
                    assert(lines_view(v@) =~= seq![success_line(*request)]);
                    Ok(v)
                } else {
                    let v: Vec<String> = Vec::new();
                    assert(lines_view(v@) =~= Seq::<Seq<char>>::empty());
                    Ok(v)
                }
            },
        }
    }
}

} // verus!
