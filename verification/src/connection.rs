//! Opening the database.
//!
//! A database in a file is opened in up to three steps: the directory of the file is made, the
//! connections are opened, and the tables are brought up to date. A database in memory needs no
//! directory.
use vstd::prelude::*;
use vstd::string::StringExecFns;

use crate::error::{database_error, seen, StoreError, StoreErrorView};
use crate::text::join;

verus! {

/// How long a statement waits for another one to release the database.
pub const BUSY_TIMEOUT_SECONDS: u64 = 5;

/// Where SQLite keeps changes that were not carried over to the database yet.
#[derive(Debug, Clone, Copy, PartialEq, Eq, Structural)]
pub enum JournalMode {
    /// The choice of SQLite.
    Usual,
    /// A write-ahead log.
    Wal,
}

/// How often SQLite waits for the disk.
#[derive(Debug, Clone, Copy, PartialEq, Eq, Structural)]
pub enum Synchronous {
    /// The choice of SQLite.
    Usual,
    /// At the most critical moments.
    Normal,
}

/// How connections to the database are opened.
#[derive(Debug, Clone, Copy, PartialEq, Eq, Structural)]
pub struct ConnectOptions {
    /// Whether the database is kept in memory, and not in a file.
    pub in_memory: bool,
    /// Whether a missing file is made.
    pub create_if_missing: bool,
    /// Whether foreign keys are enforced. Removing a session removes its events only then.
    pub foreign_keys: bool,
    pub busy_timeout_seconds: u64,
    pub journal_mode: JournalMode,
    pub synchronous: Synchronous,
    pub max_connections: u32,
}

/// How connections to a database in a file are opened.
pub open spec fn file_options() -> ConnectOptions {
    ConnectOptions {
        in_memory: false,
        create_if_missing: true,
        foreign_keys: true,
        busy_timeout_seconds: 5,
        journal_mode: JournalMode::Wal,
        synchronous: Synchronous::Normal,
        max_connections: 5,
    }
}

/// How the connection to a database in memory is opened. Separate connections would have separate
/// databases, so there is one.
pub open spec fn memory_options() -> ConnectOptions {
    ConnectOptions {
        in_memory: true,
        create_if_missing: false,
        foreign_keys: true,
        busy_timeout_seconds: 5,
        journal_mode: JournalMode::Usual,
        synchronous: Synchronous::Usual,
        max_connections: 1,
    }
}

/// What is to be done next to open the database.
#[derive(Debug)]
pub enum OpenAction {
    /// Make the directory of the file, with the directories it lies in.
    CreateDirectory,
    /// Open the connections.
    Connect(ConnectOptions),
    /// Bring the tables up to date.
    Migrate,
}

/// An opening in progress.
pub struct OpenStore {
    directory: String,
    options: ConnectOptions,
    action: OpenAction,
}

/// An [`OpenStore`] with its text as a sequence of characters.
pub struct OpenStoreView {
    /// The directory of the file, as it is shown in messages.
    pub directory: Seq<char>,
    pub options: ConnectOptions,
    pub action: OpenAction,
}

impl View for OpenStore {
    type V = OpenStoreView;

    closed spec fn view(&self) -> OpenStoreView {
        OpenStoreView {
            directory: self.directory@,
            options: self.options,
            action: self.action,
        }
    }
}

/// Where an opening stands after a step.
pub enum OpenStep {
    /// There is more to do.
    Continue(OpenStore),
    /// The caller is told this.
    Finished(Result<(), StoreError>),
}

/// An [`OpenStep`] with its texts as sequences of characters.
pub enum OpenStepView {
    Continue(OpenStoreView),
    Finished(Result<(), StoreErrorView>),
}

impl View for OpenStep {
    type V = OpenStepView;

    open spec fn view(&self) -> OpenStepView {
        match *self {
            OpenStep::Continue(opening) => OpenStepView::Continue(opening@),
            OpenStep::Finished(outcome) => OpenStepView::Finished(seen(outcome)),
        }
    }
}

/// The view of whether a step was done, or of the words in which it failed.
pub open spec fn step_answer(answer: Result<(), String>) -> Result<(), Seq<char>> {
    match answer {
        Ok(()) => Ok(()),
        Err(error) => Err(error@),
    }
}

impl OpenStoreView {
    /// The opening of a database in a file, given the directory that its path names.
    pub open spec fn of_file(parent: Option<Seq<char>>) -> OpenStoreView {
        match parent {
            Some(directory) => OpenStoreView {
                directory,
                options: file_options(),
                action: if directory.len() > 0 {
                    OpenAction::CreateDirectory
                } else {
                    OpenAction::Connect(file_options())
                },
            },
            None => OpenStoreView {
                directory: Seq::empty(),
                options: file_options(),
                action: OpenAction::Connect(file_options()),
            },
        }
    }

    /// The opening of a database in memory.
    pub open spec fn of_memory() -> OpenStoreView {
        OpenStoreView {
            directory: Seq::empty(),
            options: memory_options(),
            action: OpenAction::Connect(memory_options()),
        }
    }

    /// The error for a step that failed.
    pub open spec fn failure(self, error: Seq<char>) -> StoreErrorView {
        StoreErrorView::Database(
            match self.action {
                OpenAction::CreateDirectory => "could not create database directory `"@
                    + self.directory + "`: "@ + error,
                OpenAction::Connect(_) => error,
                OpenAction::Migrate => "could not migrate SQLite database: "@ + error,
            },
        )
    }

    /// Where the opening stands after a step.
    pub open spec fn next(self, answer: Result<(), Seq<char>>) -> OpenStepView {
        match answer {
            Err(error) => OpenStepView::Finished(Err(self.failure(error))),
            Ok(()) => match self.action {
                OpenAction::CreateDirectory => OpenStepView::Continue(
                    OpenStoreView { action: OpenAction::Connect(self.options), ..self },
                ),
                OpenAction::Connect(_) => OpenStepView::Continue(
                    OpenStoreView { action: OpenAction::Migrate, ..self },
                ),
                OpenAction::Migrate => OpenStepView::Finished(Ok(())),
            },
        }
    }
}

/// The name of a directory that may be missing.
pub open spec fn directory_name(parent: Option<&str>) -> Option<Seq<char>> {
    match parent {
        Some(directory) => Some(directory@),
        None => None,
    }
}

/// Starts to open a database in a file. `parent` is the directory that the path of the file names,
/// as it is shown in messages.
pub fn open(parent: Option<&str>) -> (opening: OpenStore)
    ensures
        opening@ == OpenStoreView::of_file(directory_name(parent)),
{
    let options: ConnectOptions = ConnectOptions {
        in_memory: false,
        create_if_missing: true,
        foreign_keys: true,
        busy_timeout_seconds: BUSY_TIMEOUT_SECONDS,
        journal_mode: JournalMode::Wal,
        synchronous: Synchronous::Normal,
        max_connections: 5,
    };
    match parent {
        Some(directory) => {
            if directory.is_empty() {
                OpenStore {
                    directory: String::from(directory),
                    options,
                    action: OpenAction::Connect(options),
                }
            } else {
                OpenStore {
                    directory: String::from(directory),
                    options,
                    action: OpenAction::CreateDirectory,
                }
            }
        },
        None => connect(options),
    }
}

/// Starts to open a database in memory, primarily for tests and ephemeral runs.
pub fn in_memory() -> (opening: OpenStore)
    ensures
        opening@ == OpenStoreView::of_memory(),
{
    connect(
        ConnectOptions {
            in_memory: true,
            create_if_missing: false,
            foreign_keys: true,
            busy_timeout_seconds: BUSY_TIMEOUT_SECONDS,
            journal_mode: JournalMode::Usual,
            synchronous: Synchronous::Usual,
            max_connections: 1,
        },
    )
}

/// Starts to open a database that needs no directory.
fn connect(options: ConnectOptions) -> (opening: OpenStore)
    ensures
        opening@ == (OpenStoreView {
            directory: Seq::empty(),
            options,
            action: OpenAction::Connect(options),
        }),
{
    OpenStore { directory: String::new(), options, action: OpenAction::Connect(options) }
}

impl OpenStore {
    /// What is to be done next.
    pub fn action(&self) -> (action: &OpenAction)
        ensures
            *action == self@.action,
    {
        &self.action
    }

    /// Where the opening stands after that was done, or was tried and failed.
    pub fn advance(self, answer: Result<(), String>) -> (step: OpenStep)
        ensures
            step@ == self@.next(step_answer(answer)),
    {
        match answer {
            Err(error) => {
                let failure: StoreError = match self.action {
                    OpenAction::CreateDirectory => {
                        let mut message: String = join(
                            "could not create database directory `",
                            self.directory.as_str(),
                        );
                        message.append("`: ");
                        message.append(error.as_str());
                        StoreError::Database(message)
                    },
                    OpenAction::Connect(_) => database_error(error),
                    OpenAction::Migrate => StoreError::Database(
                        join("could not migrate SQLite database: ", error.as_str()),
                    ),
                };
                OpenStep::Finished(Err(failure))
            },
            Ok(()) => match self.action {
                OpenAction::CreateDirectory => OpenStep::Continue(
                    OpenStore {
                        directory: self.directory,
                        options: self.options,
                        action: OpenAction::Connect(self.options),
                    },
                ),
                OpenAction::Connect(_) => OpenStep::Continue(
                    OpenStore {
                        directory: self.directory,
                        options: self.options,
                        action: OpenAction::Migrate,
                    },
                ),
                OpenAction::Migrate => OpenStep::Finished(Ok(())),
            },
        }
    }
}

/// Every connection enforces foreign keys, so that removing a session removes its events, and a
/// database in memory has a single connection, so that all statements see the same tables.
pub proof fn law_connections_are_consistent(parent: Option<Seq<char>>, opening: OpenStoreView)
    requires
        opening == OpenStoreView::of_file(parent) || opening == OpenStoreView::of_memory(),
    ensures
        opening.options.foreign_keys,
        opening.options.in_memory ==> opening.options.max_connections == 1,
        opening.action matches OpenAction::Connect(options) ==> options == opening.options,
        opening.next(Ok(())) matches OpenStepView::Continue(next) ==> next.options
            == opening.options && (next.action matches OpenAction::Connect(options) ==> options
            == opening.options),
{
}

/// A database is open once each step was done: its directory made where its path names one, its
/// connections opened and its tables brought up to date. The first step that fails is the last.
pub proof fn law_opening_takes_each_step(
    parent: Option<Seq<char>>,
    opening: OpenStoreView,
    error: Seq<char>,
)
    ensures
        opening.next(Err(error)) == OpenStepView::Finished(Err(opening.failure(error))),
        OpenStoreView::of_memory().next(Ok(())) matches OpenStepView::Continue(connected)
            && connected.action is Migrate && connected.next(Ok(())) == OpenStepView::Finished(
            Ok(()),
        ),
        ({
            let opening = OpenStoreView::of_file(parent);
            &&& opening.action is CreateDirectory <==> parent is Some && parent->Some_0.len() > 0
            &&& opening.next(Ok(())) matches OpenStepView::Continue(second) && {
                if opening.action is CreateDirectory {
                    &&& second.action == OpenAction::Connect(file_options())
                    &&& second.next(Ok(())) matches OpenStepView::Continue(third)
                        && third.action is Migrate && third.next(Ok(()))
                        == OpenStepView::Finished(Ok(()))
                } else {
                    &&& opening.action == OpenAction::Connect(file_options())
                    &&& second.action is Migrate
                    &&& second.next(Ok(())) == OpenStepView::Finished(Ok(()))
                }
            }
        }),
{
}

} // verus!
