//! What the lifecycle asks of the outside world, and what it is told back.
//!
//! The machines of this library touch neither disk nor network. Each of them
//! hands out one `Action` at a time; whoever drives the machine performs the
//! action and reports what came of it as an `Event`.

use vstd::prelude::*;
use crate::state::{Record, StateView};
use crate::text::{copy_texts, texts};

verus! {

/// One thing to do outside.
#[derive(Clone, Debug, PartialEq, Eq)]
pub enum Action {
    /// Create a directory and every missing directory above it.
    MakeDirs { path: String },
    /// Run a program to its end and collect what it wrote to standard error.
    Run { program: String, args: Vec<String> },
    /// Remove a file or a symlink.
    RemoveFile { path: String },
    /// Tell whether anything exists at a path.
    Probe { path: String },
    /// Tell whether a path is a symlink.
    ProbeLink { path: String },
    /// Set the permission bits of a file.
    SetMode { path: String, mode: u32 },
    /// Write a record to a file, as pretty JSON without its unset fields.
    WriteRecord { path: String, record: Record },
    /// Create a new, empty archive.
    CreateArchive { path: String },
    /// Read a file, and keep what it holds until it is written to the
    /// archive.
    ReadFile { path: String },
    /// Begin an entry of the archive under a name.
    StartEntry { entry: String },
    /// Write what was read last to the entry that was begun last.
    WriteEntry,
    /// Finish the archive.
    FinishArchive,
    /// Make a symlink at `target` that points at `source`.
    Symlink { source: String, target: String },
}

/// `Action` as a mathematical value.
pub enum ActionView {
    MakeDirs { path: Seq<char> },
    Run { program: Seq<char>, args: Seq<Seq<char>> },
    RemoveFile { path: Seq<char> },
    Probe { path: Seq<char> },
    ProbeLink { path: Seq<char> },
    SetMode { path: Seq<char>, mode: u32 },
    WriteRecord { path: Seq<char>, record: StateView },
    CreateArchive { path: Seq<char> },
    ReadFile { path: Seq<char> },
    StartEntry { entry: Seq<char> },
    WriteEntry,
    FinishArchive,
    Symlink { source: Seq<char>, target: Seq<char> },
}

impl View for Action {
    type V = ActionView;

    open spec fn view(&self) -> ActionView {
        match self {
            Action::MakeDirs { path } => ActionView::MakeDirs { path: path@ },
            Action::Run { program, args } => ActionView::Run {
                program: program@,
                args: texts(args@),
            },
            Action::RemoveFile { path } => ActionView::RemoveFile { path: path@ },
            Action::Probe { path } => ActionView::Probe { path: path@ },
            Action::ProbeLink { path } => ActionView::ProbeLink { path: path@ },
            Action::SetMode { path, mode } => ActionView::SetMode { path: path@, mode: *mode },
            Action::WriteRecord { path, record } => ActionView::WriteRecord {
                path: path@,
                record: record@,
            },
            Action::CreateArchive { path } => ActionView::CreateArchive { path: path@ },
            Action::ReadFile { path } => ActionView::ReadFile { path: path@ },
            Action::StartEntry { entry } => ActionView::StartEntry { entry: entry@ },
            Action::WriteEntry => ActionView::WriteEntry,
            Action::FinishArchive => ActionView::FinishArchive,
            Action::Symlink { source, target } => ActionView::Symlink {
                source: source@,
                target: target@,
            },
        }
    }
}

/// An action that may be absent, as a mathematical value.
pub open spec fn opt_action(a: Option<Action>) -> Option<ActionView> {
    match a {
        Some(x) => Some(x@),
        None => None,
    }
}

/// What came of an action.
#[derive(Clone, Debug, PartialEq, Eq)]
pub enum Event {
    /// It was done.
    Completed,
    /// It could not be done.
    Failed { detail: String },
    /// The answer to a question asked of the file system.
    Found { present: bool },
    /// A program ran to its end.
    Exited { success: bool, stderr: String },
}

/// `Event` as a mathematical value.
pub enum EventView {
    Completed,
    Failed { detail: Seq<char> },
    Found { present: bool },
    Exited { success: bool, stderr: Seq<char> },
}

impl View for Event {
    type V = EventView;

    open spec fn view(&self) -> EventView {
        match self {
            Event::Completed => EventView::Completed,
            Event::Failed { detail } => EventView::Failed { detail: detail@ },
            Event::Found { present } => EventView::Found { present: *present },
            Event::Exited { success, stderr } => EventView::Exited {
                success: *success,
                stderr: stderr@,
            },
        }
    }
}

impl EventView {
    /// The event says yes: the action was done, the thing asked for is
    /// there, the program ended well.
    pub open spec fn affirms(self) -> bool {
        match self {
            EventView::Completed => true,
            EventView::Failed { .. } => false,
            EventView::Found { present } => present,
            EventView::Exited { success, .. } => success,
        }
    }

    /// What the event tells about a failure: the reason given, or what the
    /// program wrote to standard error.
    pub open spec fn detail(self) -> Seq<char> {
        match self {
            EventView::Failed { detail } => detail,
            EventView::Exited { stderr, .. } => stderr,
            _ => Seq::empty(),
        }
    }
}

impl Event {
    /// Whether the event says yes.
    pub fn affirms(&self) -> (r: bool)
        ensures
            r == self@.affirms(),
    {
        match self {
            Event::Completed => true,
            Event::Failed { .. } => false,
            Event::Found { present } => *present,
            Event::Exited { success, .. } => *success,
        }
    }

    /// What the event tells about a failure.
    pub fn detail(&self) -> (r: String)
        ensures
            r@ == self@.detail(),
    {
        match self {
            Event::Failed { detail } => detail.clone(),
            Event::Exited { stderr, .. } => stderr.clone(),
            _ => String::new(),
        }
    }
}

impl Action {
    /// A copy.
    pub fn duplicate(&self) -> (r: Action)
        ensures
            r@ == self@,
    {
        match self {
            Action::MakeDirs { path } => Action::MakeDirs { path: path.clone() },
            Action::Run { program, args } => Action::Run {
                program: program.clone(),
                args: copy_texts(args),
            },
            Action::RemoveFile { path } => Action::RemoveFile { path: path.clone() },
            Action::Probe { path } => Action::Probe { path: path.clone() },
            Action::ProbeLink { path } => Action::ProbeLink { path: path.clone() },
            Action::SetMode { path, mode } => Action::SetMode { path: path.clone(), mode: *mode },
            Action::WriteRecord { path, record } => Action::WriteRecord {
                path: path.clone(),
                record: record.duplicate(),
            },
            Action::CreateArchive { path } => Action::CreateArchive { path: path.clone() },
            Action::ReadFile { path } => Action::ReadFile { path: path.clone() },
            Action::StartEntry { entry } => Action::StartEntry { entry: entry.clone() },
            Action::WriteEntry => Action::WriteEntry,
            Action::FinishArchive => Action::FinishArchive,
            Action::Symlink { source, target } => Action::Symlink {
                source: source.clone(),
                target: target.clone(),
            },
        }
    }
}

} // verus!
