use quizzle_migrator::gui::{Message, MigrationState, QuizMigratorApp, Task};

#[test]
fn form_starts_idle_with_backups_on() {
    let app = QuizMigratorApp::new("/home/quiz".to_string());
    assert_eq!(app.selected_directory(), "/home/quiz");
    assert!(!app.skip_backup());
    assert_eq!(app.migration_state(), &MigrationState::Idle);
    assert!(app.can_start());
    assert_eq!(app.title(), "Quizzle Migrator");
}

#[test]
fn select_folder_asks_for_the_dialog() {
    let mut app = QuizMigratorApp::new("a".to_string());
    assert_eq!(app.update(Message::SelectFolder), Task::PickFolder);
    assert_eq!(app.selected_directory(), "a");
    assert_eq!(app.migration_state(), &MigrationState::Idle);
}

#[test]
fn chosen_folder_replaces_the_directory() {
    let mut app = QuizMigratorApp::new("a".to_string());
    assert_eq!(app.update(Message::FolderSelected(Some("b".to_string()))), Task::Nothing);
    assert_eq!(app.selected_directory(), "b");
}

#[test]
fn closed_dialog_keeps_the_directory() {
    let mut app = QuizMigratorApp::new("a".to_string());
    assert_eq!(app.update(Message::FolderSelected(None)), Task::Nothing);
    assert_eq!(app.selected_directory(), "a");
}

#[test]
fn edit_replaces_the_directory() {
    let mut app = QuizMigratorApp::new("a".to_string());
    assert_eq!(app.update(Message::DirectoryChanged(String::new())), Task::Nothing);
    assert_eq!(app.selected_directory(), "");
    assert_eq!(app.update(Message::DirectoryChanged("c/d".to_string())), Task::Nothing);
    assert_eq!(app.selected_directory(), "c/d");
}

#[test]
fn backup_setting_follows_the_toggle() {
    let mut app = QuizMigratorApp::new("a".to_string());
    assert_eq!(app.update(Message::SkipBackupToggled(true)), Task::Nothing);
    assert!(app.skip_backup());
    assert_eq!(app.update(Message::SkipBackupToggled(false)), Task::Nothing);
    assert!(!app.skip_backup());
}

#[test]
fn start_migrates_the_directory_with_the_setting() {
    let mut app = QuizMigratorApp::new("quizzes".to_string());
    app.update(Message::SkipBackupToggled(true));
    assert_eq!(
        app.update(Message::StartMigration),
        Task::Migrate { directory: "quizzes".to_string(), skip_backup: true }
    );
    assert_eq!(app.migration_state(), &MigrationState::InProgress);
    assert!(!app.can_start());
}

#[test]
fn start_without_a_directory_does_nothing() {
    let mut app = QuizMigratorApp::new(String::new());
    assert_eq!(app.update(Message::StartMigration), Task::Nothing);
    assert_eq!(app.migration_state(), &MigrationState::Idle);
    assert!(app.can_start());
}

#[test]
fn end_of_a_run_is_recorded() {
    let mut app = QuizMigratorApp::new("quizzes".to_string());
    app.update(Message::StartMigration);
    assert_eq!(app.update(Message::MigrationCompleted(Ok(3))), Task::Nothing);
    assert_eq!(app.migration_state(), &MigrationState::Completed(3));
    assert!(app.can_start());
    app.update(Message::StartMigration);
    assert_eq!(
        app.update(Message::MigrationCompleted(Err("no such directory".to_string()))),
        Task::Nothing
    );
    assert_eq!(app.migration_state(), &MigrationState::Error("no such directory".to_string()));
    assert!(app.can_start());
    assert_eq!(app.selected_directory(), "quizzes");
}
