//! The state of the migration form and its transitions.
//!
//! The form holds a directory, the one setting and the state of the last
//! run. Each message yields the next state and the one task that the
//! caller is to carry out; what the task brings back comes in as the next
//! message. Nothing here draws, asks or waits.

use vstd::prelude::*;

verus! {

/// Model of [`Message`].
pub enum MessageModel {
    SelectFolder,
    FolderSelected(Option<Seq<char>>),
    DirectoryChanged(Seq<char>),
    SkipBackupToggled(bool),
    StartMigration,
    MigrationCompleted(Result<usize, Seq<char>>),
}

/// Model of [`MigrationState`].
pub enum MigrationStateModel {
    Idle,
    InProgress,
    Completed(usize),
    Error(Seq<char>),
}

/// Model of [`QuizMigratorApp`].
pub struct QuizMigratorAppModel {
    pub selected_directory: Seq<char>,
    pub skip_backup: bool,
    pub migration_state: MigrationStateModel,
}

/// Model of [`Task`].
pub enum TaskModel {
    Nothing,
    PickFolder,
    Migrate { directory: Seq<char>, skip_backup: bool },
}

/// What happened on the form, or what a task brought back.
#[derive(Debug, PartialEq, Eq)]
pub enum Message {
    /// The user asks for the folder dialog.
    SelectFolder,
    /// The folder dialog closed, with the chosen folder or without one.
    FolderSelected(Option<String>),
    /// The user edited the directory.
    DirectoryChanged(String),
    /// The user switched the backup setting.
    SkipBackupToggled(bool),
    /// The user asks for the migration to start.
    StartMigration,
    /// The migration ended, with the number of migrated files or an error.
    MigrationCompleted(Result<usize, String>),
}

/// The state of the last run.
#[derive(Debug, Clone, PartialEq, Eq)]
pub enum MigrationState {
    Idle,
    InProgress,
    Completed(usize),
    Error(String),
}

/// What the caller is to carry out after a message.
#[derive(Debug, Clone, PartialEq, Eq)]
pub enum Task {
    /// Nothing is to be done.
    Nothing,
    /// Show the folder dialog and report `FolderSelected`.
    PickFolder,
    /// Migrate the directory and report `MigrationCompleted`.
    Migrate { directory: String, skip_backup: bool },
}

/// The migration form.
pub struct QuizMigratorApp {
    selected_directory: String,
    skip_backup: bool,
    migration_state: MigrationState,
}

impl DeepView for Message {
    type V = MessageModel;

    open spec fn deep_view(&self) -> MessageModel {
        match self {
            Message::SelectFolder => MessageModel::SelectFolder,
            Message::FolderSelected(path) => MessageModel::FolderSelected(path.deep_view()),
            Message::DirectoryChanged(path) => MessageModel::DirectoryChanged(path@),
            Message::SkipBackupToggled(value) => MessageModel::SkipBackupToggled(*value),
            Message::StartMigration => MessageModel::StartMigration,
            Message::MigrationCompleted(result) => MessageModel::MigrationCompleted(
                match result {
                    Ok(count) => Ok(*count),
                    Err(error) => Err(error@),
                },
            ),
        }
    }
}

impl DeepView for MigrationState {
    type V = MigrationStateModel;

    open spec fn deep_view(&self) -> MigrationStateModel {
        match self {
            MigrationState::Idle => MigrationStateModel::Idle,
            MigrationState::InProgress => MigrationStateModel::InProgress,
            MigrationState::Completed(count) => MigrationStateModel::Completed(*count),
            MigrationState::Error(error) => MigrationStateModel::Error(error@),
        }
    }
}

impl DeepView for Task {
    type V = TaskModel;

    open spec fn deep_view(&self) -> TaskModel {
        match self {
            Task::Nothing => TaskModel::Nothing,
            Task::PickFolder => TaskModel::PickFolder,
            Task::Migrate { directory, skip_backup } => TaskModel::Migrate {
                directory: directory@,
                skip_backup: *skip_backup,
            },
        }
    }
}

impl DeepView for QuizMigratorApp {
    type V = QuizMigratorAppModel;

    closed spec fn deep_view(&self) -> QuizMigratorAppModel {
        QuizMigratorAppModel {
            selected_directory: self.selected_directory@,
            skip_backup: self.skip_backup,
            migration_state: self.migration_state.deep_view(),
        }
    }
}

impl QuizMigratorAppModel {
    /// The form after a message.
    ///
    /// A chosen folder or an edit replaces the directory, and a closed
    /// dialog without a folder changes nothing. A migration starts only
    /// with a directory that is not empty, and then the run is in
    /// progress; its end is recorded as completed or as an error.
    pub open spec fn next(self, message: MessageModel) -> QuizMigratorAppModel {
        match message {
            MessageModel::SelectFolder => self,
            MessageModel::FolderSelected(Some(path)) => QuizMigratorAppModel {
                selected_directory: path,
                ..self
            },
            MessageModel::FolderSelected(None) => self,
            MessageModel::DirectoryChanged(path) => QuizMigratorAppModel {
                selected_directory: path,
                ..self
            },
            MessageModel::SkipBackupToggled(value) => QuizMigratorAppModel {
                skip_backup: value,
                ..self
            },
            MessageModel::StartMigration => if self.selected_directory.len() > 0 {
                QuizMigratorAppModel { migration_state: MigrationStateModel::InProgress, ..self }
            } else {
                self
            },
            MessageModel::MigrationCompleted(Ok(count)) => QuizMigratorAppModel {
                migration_state: MigrationStateModel::Completed(count),
                ..self
            },
            MessageModel::MigrationCompleted(Err(error)) => QuizMigratorAppModel {
                migration_state: MigrationStateModel::Error(error),
                ..self
            },
        }
    }

    /// The task that a message asks of the caller: the folder dialog, the
    /// migration of a directory that is not empty, or nothing.
    pub open spec fn task(self, message: MessageModel) -> TaskModel {
        match message {
            MessageModel::SelectFolder => TaskModel::PickFolder,
            MessageModel::StartMigration => if self.selected_directory.len() > 0 {
                TaskModel::Migrate {
                    directory: self.selected_directory,
                    skip_backup: self.skip_backup,
                }
            } else {
                TaskModel::Nothing
            },
            _ => TaskModel::Nothing,
        }
    }
}

impl QuizMigratorApp {
    /// The form at its start: the given directory, backups on, no run yet.
    pub fn new(current_directory: String) -> (app: QuizMigratorApp)
        ensures
            app.deep_view() == (QuizMigratorAppModel {
                selected_directory: current_directory@,
                skip_backup: false,
                migration_state: MigrationStateModel::Idle,
            }),
    {
        QuizMigratorApp {
            selected_directory: current_directory,
            skip_backup: false,
            migration_state: MigrationState::Idle,
        }
    }

    /// The title of the window.
    pub fn title(&self) -> (r: String)
        ensures
            r@ == "Quizzle Migrator"@,
    {
        "Quizzle Migrator".to_owned()
    }

    /// The directory that the form shows.
    pub fn selected_directory(&self) -> (r: &str)
        ensures
            r@ == self.deep_view().selected_directory,
    {
        self.selected_directory.as_str()
    }

    /// Whether backups are switched off.
    pub fn skip_backup(&self) -> (r: bool)
        ensures
            r == self.deep_view().skip_backup,
    {
        self.skip_backup
    }

    /// The state of the last run.
    pub fn migration_state(&self) -> (r: &MigrationState)
        ensures
            r.deep_view() == self.deep_view().migration_state,
    {
        &self.migration_state
    }

    /// Whether the form offers to start a migration: always, but while one
    /// is in progress.
    pub fn can_start(&self) -> (r: bool)
        ensures
            r == !(self.deep_view().migration_state is InProgress),
    {
        match self.migration_state {
            MigrationState::InProgress => false,
            _ => true,
        }
    }

    /// Takes a message: the form moves to its next state, and the result is
    /// the task for the caller.
    pub fn update(&mut self, message: Message) -> (task: Task)
        ensures
            final(self).deep_view() == old(self).deep_view().next(message.deep_view()),
            task.deep_view() == old(self).deep_view().task(message.deep_view()),
    {
        match message {
            Message::SelectFolder => Task::PickFolder,
            Message::FolderSelected(path) => {
                if let Some(path) = path {
                    self.selected_directory = path;
                }
                Task::Nothing
            },
            Message::DirectoryChanged(path) => {
                self.selected_directory = path;
                Task::Nothing
            },
            Message::SkipBackupToggled(value) => {
                self.skip_backup = value;
                Task::Nothing
            },
            Message::StartMigration => {
                if !self.selected_directory.as_str().is_empty() {
                    self.migration_state = MigrationState::InProgress;
                    Task::Migrate {
                        directory: self.selected_directory.clone(),
                        skip_backup: self.skip_backup,
                    }
                } else {
                    Task::Nothing
                }
            },
            Message::MigrationCompleted(result) => {
                match result {
                    Ok(count) => {
                        self.migration_state = MigrationState::Completed(count);
                    },
                    Err(error) => {
                        self.migration_state = MigrationState::Error(error);
                    },
                }
                Task::Nothing
            },
        }
    }
}

} // verus!
