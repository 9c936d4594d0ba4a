use fp_vault::cli::answers_no;
use fp_vault::cli::answers_yes;
use fp_vault::cli::description_from_input;
use fp_vault::cli::Action;
use fp_vault::cli::Event;
use fp_vault::cli::Failure;
use fp_vault::cli::Notice;
use fp_vault::cli::Prompt;
use fp_vault::cli::TaskKind;
use fp_vault::cli::Turn;
use fp_vault::cli::CLI;
use fp_vault::encryption::open_database;
use fp_vault::encryption::seal_database_with;
use fp_vault::encryption::VaultError;
use fp_vault::models::Account;
use fp_vault::models::Database;
use fp_vault::password::is_password_valid;

const KEY: &str = "Tr0ub4dor&3xtra!!";
const SALT: &str = "c29tZXNhbHRzb21lc2FsdA";
const NONCE: [u8; 12] = [9; 12];

fn line(cli: CLI, text: &str) -> (CLI, Turn) {
    cli.step(Event::Line(text.to_string()))
}

fn secret(cli: CLI, text: &str) -> (CLI, Turn) {
    cli.step(Event::Secret(text.to_string()))
}

fn stored(db: &Database) -> Vec<u8> {
    seal_database_with(db, KEY, SALT, &NONCE).unwrap()
}

fn two_accounts() -> Database {
    let mut db = Database::new();
    db.add_account(Account::with_id(
        "0000000a".to_string(),
        "alice".to_string(),
        Some("mail".to_string()),
        "alice-pw".to_string(),
    ));
    db.add_account(Account::with_id(
        "0000000b".to_string(),
        "bob".to_string(),
        None,
        "bob-pw".to_string(),
    ));
    db
}

/// A session that has opened `db` from `vault.fp` and stands at the database menu.
fn opened(db: &Database) -> CLI {
    let (cli, _) = CLI::new().step(Event::Started);
    let (cli, _) = line(cli, "2");
    let (cli, turn) = line(cli, "vault.fp");
    assert_eq!(turn.action, Action::CheckPath("vault.fp".to_string()));
    let (cli, turn) = cli.step(Event::Exists(true));
    assert_eq!(turn.action, Action::ReadSecret(Prompt::Passkey));
    let (cli, turn) = secret(cli, KEY);
    assert_eq!(turn.action, Action::ReadFile("vault.fp".to_string()));
    let (cli, turn) = cli.step(Event::FileRead(Some(stored(db))));
    assert_eq!(
        turn.notices,
        vec![
            Notice::DatabaseLoaded,
            Notice::ClearScreen,
            Notice::DatabaseMenu("vault.fp".to_string())
        ]
    );
    assert_eq!(turn.action, Action::ReadLine(Prompt::DatabaseChoice));
    cli
}

/// From the database menu to the menu of the account with the id `id`.
fn at_account(cli: CLI, id: &str) -> CLI {
    let (cli, turn) = line(cli, "2");
    assert_eq!(turn.action, Action::ReadLine(Prompt::AccountId));
    let (cli, turn) = line(cli, id);
    assert_eq!(turn.action, Action::ReadLine(Prompt::AccountChoice));
    cli
}

#[test]
fn new_session_has_no_database() {
    let cli = CLI::new();
    assert!(cli.database().is_none());
    assert!(cli.path().is_none());
}

#[test]
fn dialog_starts_with_the_main_menu() {
    let (cli, turn) = CLI::new().step(Event::Started);
    assert_eq!(turn.notices, vec![Notice::ClearScreen, Notice::MainMenu]);
    assert_eq!(turn.action, Action::ReadLine(Prompt::MainChoice));
    let (cli, turn) = line(cli, "7");
    assert_eq!(turn.notices, vec![Notice::InvalidChoice, Notice::MainMenu]);
    assert_eq!(turn.action, Action::ReadLine(Prompt::MainChoice));
    let (_, turn) = line(cli, "3");
    assert_eq!(turn.action, Action::Exit);
}

#[test]
fn unexpected_event_ends_the_dialog() {
    let (_, turn) = CLI::new().step(Event::Line("1".to_string()));
    assert_eq!(turn.action, Action::Fail(Failure::UnexpectedEvent));
    let (cli, _) = CLI::new().step(Event::Started);
    let (cli, turn) = cli.step(Event::Written(true));
    assert_eq!(turn.action, Action::Fail(Failure::UnexpectedEvent));
    let (_, turn) = cli.step(Event::Started);
    assert_eq!(turn.action, Action::Fail(Failure::UnexpectedEvent));
}

#[test]
fn creating_a_database_asks_for_a_valid_confirmed_passkey() {
    let (cli, _) = CLI::new().step(Event::Started);
    let (cli, turn) = line(cli, "1");
    assert_eq!(turn.notices, vec![Notice::ClearScreen, Notice::CreateTitle]);
    assert_eq!(turn.action, Action::ReadLine(Prompt::DatabaseName));
    let (cli, turn) = line(cli, "vault");
    assert_eq!(turn.action, Action::ResolveNewPath("vault".to_string()));
    let (cli, turn) = cli.step(Event::NewPath { path: "vault.fp".to_string(), exists: false });
    assert_eq!(turn.action, Action::ReadSecret(Prompt::NewPasskey));
    let (cli, turn) = secret(cli, "");
    assert_eq!(turn.notices, vec![Notice::PasskeyEmpty]);
    assert_eq!(turn.action, Action::ReadSecret(Prompt::NewPasskey));
    let (cli, turn) = secret(cli, "too-short");
    assert_eq!(turn.notices, vec![Notice::PasskeyInvalid]);
    assert_eq!(turn.action, Action::ReadSecret(Prompt::NewPasskey));
    let (cli, turn) = secret(cli, KEY);
    assert_eq!(turn.action, Action::ReadSecret(Prompt::ConfirmPasskey));
    let (cli, turn) = secret(cli, "");
    assert_eq!(turn.notices, vec![Notice::ConfirmationEmpty]);
    assert_eq!(turn.action, Action::ReadSecret(Prompt::NewPasskey));
    let (cli, _) = secret(cli, KEY);
    let (cli, turn) = secret(cli, "Tr0ub4dor&3xtra!?");
    assert_eq!(turn.notices, vec![Notice::PasskeysDiffer]);
    assert_eq!(turn.action, Action::ReadSecret(Prompt::NewPasskey));
    let (cli, _) = secret(cli, KEY);
    let (cli, turn) = secret(cli, KEY);
    let text = match turn.action {
        Action::WriteFile { path, text } => {
            assert_eq!(path, "vault.fp");
            text
        }
        other => panic!("{:?}", other),
    };
    assert_eq!(open_database(&text, KEY), Ok(Database::new()));
    assert!(cli.database().is_none());
    let (cli, turn) = cli.step(Event::Written(true));
    assert_eq!(
        turn.notices,
        vec![
            Notice::DatabaseCreated,
            Notice::ClearScreen,
            Notice::DatabaseMenu("vault.fp".to_string())
        ]
    );
    assert_eq!(turn.action, Action::ReadLine(Prompt::DatabaseChoice));
    assert_eq!(cli.database(), Some(&Database::new()));
    assert_eq!(cli.path(), Some(&"vault.fp".to_string()));
}

#[test]
fn creating_over_an_existing_file_is_refused() {
    let (cli, _) = CLI::new().step(Event::Started);
    let (cli, _) = line(cli, "1");
    let (cli, _) = line(cli, "vault");
    let (cli, turn) = cli.step(Event::NewPath { path: "vault.fp".to_string(), exists: true });
    assert_eq!(turn.notices, vec![Notice::DatabaseExists, Notice::MainMenu]);
    assert_eq!(turn.action, Action::ReadLine(Prompt::MainChoice));
    assert!(cli.database().is_none());
}

#[test]
fn failed_write_of_a_new_database_ends_the_dialog() {
    let (cli, _) = CLI::new().step(Event::Started);
    let (cli, _) = line(cli, "1");
    let (cli, _) = line(cli, "vault");
    let (cli, _) = cli.step(Event::NewPath { path: "vault.fp".to_string(), exists: false });
    let (cli, _) = secret(cli, KEY);
    let (cli, _) = secret(cli, KEY);
    let (cli, turn) = cli.step(Event::Written(false));
    assert_eq!(turn.action, Action::Fail(Failure::Write));
    assert!(cli.database().is_none());
}

#[test]
fn opening_loads_what_the_file_holds() {
    let db = two_accounts();
    let cli = opened(&db);
    assert_eq!(cli.database(), Some(&db));
    assert_eq!(cli.path(), Some(&"vault.fp".to_string()));
}

#[test]
fn opening_fails_without_file_passkey_or_with_the_wrong_one() {
    let (cli, _) = CLI::new().step(Event::Started);
    let (cli, _) = line(cli, "2");
    let (cli, _) = line(cli, "vault.fp");
    let (cli, turn) = cli.step(Event::Exists(false));
    assert_eq!(turn.notices, vec![Notice::FileNotFound]);
    assert_eq!(turn.action, Action::ReadLine(Prompt::Continue));
    let (cli, turn) = line(cli, "");
    assert_eq!(turn.notices, vec![Notice::MainMenu]);

    let (cli, _) = line(cli, "2");
    let (cli, _) = line(cli, "vault.fp");
    let (cli, _) = cli.step(Event::Exists(true));
    let (cli, turn) = secret(cli, "");
    assert_eq!(turn.notices, vec![Notice::PasskeyEmpty]);
    assert_eq!(turn.action, Action::ReadLine(Prompt::Continue));
    let (cli, _) = line(cli, "");

    let (cli, _) = line(cli, "2");
    let (cli, _) = line(cli, "vault.fp");
    let (cli, _) = cli.step(Event::Exists(true));
    let (cli, _) = secret(cli, "wrong-passphrase");
    let (cli, turn) = cli.step(Event::FileRead(Some(stored(&two_accounts()))));
    assert_eq!(turn.notices, vec![Notice::OpenFailed(VaultError::DecryptionError)]);
    assert_eq!(turn.action, Action::ReadLine(Prompt::Continue));
    assert!(cli.database().is_none());
    let (cli, _) = line(cli, "");

    let (cli, _) = line(cli, "2");
    let (cli, _) = line(cli, "vault.fp");
    let (cli, _) = cli.step(Event::Exists(true));
    let (cli, _) = secret(cli, KEY);
    let (cli, turn) = cli.step(Event::FileRead(None));
    assert_eq!(turn.notices, vec![Notice::OpenFailed(VaultError::IOError)]);
    let (cli, _) = line(cli, "");

    let (cli, _) = line(cli, "2");
    let (cli, _) = line(cli, "vault.fp");
    let (cli, _) = cli.step(Event::Exists(true));
    let (cli, _) = secret(cli, KEY);
    let (cli, turn) = cli.step(Event::FileRead(Some(b"garbage".to_vec())));
    assert_eq!(turn.notices, vec![Notice::OpenFailed(VaultError::FormatError)]);
    assert!(cli.database().is_none());
}

#[test]
fn listing_shows_every_account_in_order() {
    let cli = opened(&two_accounts());
    let (cli, turn) = line(cli, "1");
    assert_eq!(
        turn.notices,
        vec![
            Notice::ClearScreen,
            Notice::ListTitle,
            Notice::TableHeader,
            Notice::TableRow {
                id: "0000000a".to_string(),
                username_or_email: "alice".to_string(),
                description: "mail".to_string()
            },
            Notice::TableRow {
                id: "0000000b".to_string(),
                username_or_email: "bob".to_string(),
                description: String::new()
            },
        ]
    );
    assert_eq!(turn.action, Action::ReadLine(Prompt::Continue));
    let (_, turn) = line(cli, "");
    assert_eq!(
        turn.notices,
        vec![Notice::ClearScreen, Notice::DatabaseMenu("vault.fp".to_string())]
    );
}

#[test]
fn listing_an_empty_database_says_so() {
    let cli = opened(&Database::new());
    let (cli, turn) = line(cli, "1");
    assert_eq!(turn.notices, vec![Notice::ClearScreen, Notice::ListTitle, Notice::NoAccounts]);
    let (cli, _) = line(cli, "");
    let (cli, turn) = line(cli, "2");
    assert_eq!(turn.notices, vec![Notice::ClearScreen, Notice::ViewTitle, Notice::NoAccounts]);
    assert_eq!(turn.action, Action::ReadLine(Prompt::Continue));
    let (cli, _) = line(cli, "");
    let (cli, turn) = line(cli, "4");
    assert_eq!(turn.notices, vec![Notice::ClearScreen, Notice::DeleteTitle, Notice::NoAccounts]);
    let (cli, _) = line(cli, "");
    let (cli, turn) = line(cli, "9");
    assert_eq!(
        turn.notices,
        vec![
            Notice::InvalidChoice,
            Notice::ClearScreen,
            Notice::DatabaseMenu("vault.fp".to_string())
        ]
    );
    let (_, turn) = line(cli, "5");
    assert_eq!(turn.notices, vec![Notice::MainMenu]);
    assert_eq!(turn.action, Action::ReadLine(Prompt::MainChoice));
}

#[test]
fn viewing_an_account_shows_its_details() {
    let cli = opened(&two_accounts());
    let (cli, turn) = line(cli, "2");
    assert_eq!(turn.notices.len(), 6);
    assert_eq!(turn.notices[5], Notice::BlankLine);
    let (cli, turn) = line(cli, "0000000a");
    assert_eq!(
        turn.notices,
        vec![
            Notice::ClearScreen,
            Notice::AccountDetails {
                id: "0000000a".to_string(),
                username_or_email: "alice".to_string(),
                description: "mail".to_string()
            },
            Notice::AccountMenu,
        ]
    );
    let (cli, turn) = line(cli, "x");
    assert_eq!(turn.notices[0], Notice::InvalidChoice);
    assert_eq!(turn.action, Action::ReadLine(Prompt::AccountChoice));
    let (_, turn) = line(cli, "4");
    assert_eq!(turn.action, Action::ReadLine(Prompt::DatabaseChoice));
}

#[test]
fn viewing_an_unknown_account_says_so() {
    let cli = opened(&two_accounts());
    let (cli, _) = line(cli, "2");
    let (_, turn) = line(cli, "ffffffff");
    assert_eq!(turn.notices, vec![Notice::AccountNotFound]);
    assert_eq!(turn.action, Action::ReadLine(Prompt::Continue));
}

#[test]
fn adding_an_account_checks_the_passkey_and_saves() {
    let db = two_accounts();
    let cli = opened(&db);
    let (cli, turn) = line(cli, "3");
    assert_eq!(turn.notices, vec![Notice::ClearScreen, Notice::AddTitle]);
    let (cli, turn) = line(cli, "carol");
    assert_eq!(turn.action, Action::ReadLine(Prompt::Description));
    let (cli, turn) = line(cli, "");
    assert_eq!(turn.action, Action::ReadLine(Prompt::PasswordChoice));
    let (cli, turn) = line(cli, "1");
    assert_eq!(turn.action, Action::ReadSecret(Prompt::Password));
    let (cli, turn) = secret(cli, "weak");
    assert_eq!(turn.notices, vec![Notice::PasswordRule]);
    assert_eq!(turn.action, Action::ReadSecret(Prompt::Password));
    let (cli, turn) = secret(cli, "C4rol's-passw0rd");
    assert_eq!(turn.action, Action::ReadSecret(Prompt::PasskeyToSave));
    let (cli, turn) = secret(cli, KEY);
    assert_eq!(turn.action, Action::ReadFile("vault.fp".to_string()));
    assert_eq!(cli.database(), Some(&db));
    let (cli, turn) = cli.step(Event::FileRead(Some(stored(&db))));
    let text = match turn.action {
        Action::WriteFile { path, text } => {
            assert_eq!(path, "vault.fp");
            text
        }
        other => panic!("{:?}", other),
    };
    let saved = open_database(&text, KEY).unwrap();
    assert_eq!(Some(&saved), cli.database());
    assert_eq!(saved.len(), 3);
    let added = &saved.get_accounts()[2];
    assert_eq!(added.get_username_or_email(), "carol");
    assert_eq!(added.get_description(), &None);
    assert_eq!(added.get_password(), "C4rol's-passw0rd");
    assert_eq!(saved.get_accounts()[0], db.get_accounts()[0]);
    assert_eq!(saved.get_accounts()[1], db.get_accounts()[1]);
    let (_, turn) = cli.step(Event::Written(true));
    assert_eq!(turn.notices, vec![Notice::AccountAdded, Notice::ChangesSaved]);
    assert_eq!(turn.action, Action::ReadLine(Prompt::Continue));
}

#[test]
fn adding_needs_a_username() {
    let cli = opened(&two_accounts());
    let (cli, _) = line(cli, "3");
    let (_, turn) = line(cli, "");
    assert_eq!(turn.notices, vec![Notice::UsernameEmpty]);
    assert_eq!(turn.action, Action::ReadLine(Prompt::Continue));
}

#[test]
fn adding_with_a_generated_password_shows_it() {
    let cli = opened(&two_accounts());
    let (cli, _) = line(cli, "3");
    let (cli, _) = line(cli, "carol");
    let (cli, _) = line(cli, "site");
    let (cli, turn) = line(cli, "2");
    assert_eq!(turn.notices.len(), 1);
    let shown = match &turn.notices[0] {
        Notice::GeneratedPassword(password) => password.clone(),
        other => panic!("{:?}", other),
    };
    assert!(is_password_valid(&shown));
    assert_eq!(turn.action, Action::ReadSecret(Prompt::PasskeyToSave));
    let (cli, _) = secret(cli, KEY);
    let (cli, turn) = cli.step(Event::FileRead(Some(stored(&two_accounts()))));
    assert!(matches!(turn.action, Action::WriteFile { .. }));
    let added = &cli.database().unwrap().get_accounts()[2];
    assert_eq!(added.get_password(), shown);
    assert_eq!(added.get_description(), &Some("site".to_string()));
}

#[test]
fn adding_with_another_choice_uses_a_generated_password() {
    let cli = opened(&two_accounts());
    let (cli, _) = line(cli, "3");
    let (cli, _) = line(cli, "carol");
    let (cli, _) = line(cli, "");
    let (_, turn) = line(cli, "x");
    assert_eq!(turn.notices.len(), 2);
    assert_eq!(turn.notices[0], Notice::UsingGeneratedPassword);
    assert!(matches!(turn.notices[1], Notice::GeneratedPassword(_)));
    assert_eq!(turn.action, Action::ReadSecret(Prompt::PasskeyToSave));
}

#[test]
fn adding_under_a_wrong_passkey_changes_nothing() {
    let db = two_accounts();
    let cli = opened(&db);
    let (cli, _) = line(cli, "3");
    let (cli, _) = line(cli, "carol");
    let (cli, _) = line(cli, "");
    let (cli, _) = line(cli, "2");
    let (cli, _) = secret(cli, "wrong-passphrase");
    let (cli, turn) = cli.step(Event::FileRead(Some(stored(&db))));
    assert_eq!(turn.notices, vec![Notice::PasskeyRefused(TaskKind::Add)]);
    assert_eq!(turn.action, Action::ReadLine(Prompt::Continue));
    assert_eq!(cli.database(), Some(&db));
    let (_, turn) = line(cli, "");
    assert_eq!(turn.action, Action::ReadLine(Prompt::DatabaseChoice));
}

#[test]
fn empty_passkey_is_refused_before_the_file_is_read() {
    let db = two_accounts();
    let cli = at_account(opened(&db), "0000000a");
    let (cli, turn) = line(cli, "1");
    assert_eq!(turn.notices, vec![Notice::ClearScreen, Notice::EditTitle]);
    let (cli, turn) = secret(cli, "");
    assert_eq!(turn.notices, vec![Notice::PasskeyEmpty]);
    assert_eq!(turn.action, Action::ReadLine(Prompt::Continue));
    let (_, turn) = line(cli, "");
    assert_eq!(turn.action, Action::ReadLine(Prompt::AccountChoice));
}

#[test]
fn deleting_asks_for_passkey_and_confirmation() {
    let db = two_accounts();
    let cli = opened(&db);
    let (cli, turn) = line(cli, "4");
    assert_eq!(turn.action, Action::ReadLine(Prompt::AccountIdToDelete));
    let (cli, turn) = line(cli, "0000000a");
    assert_eq!(turn.action, Action::ReadSecret(Prompt::Passkey));
    let (cli, _) = secret(cli, KEY);
    let (cli, turn) = cli.step(Event::FileRead(Some(stored(&db))));
    assert_eq!(turn.action, Action::ReadLine(Prompt::ConfirmDelete));
    assert_eq!(cli.database(), Some(&db));
    let (cli, turn) = line(cli, "Y");
    assert_eq!(turn.notices, vec![Notice::AccountDeleted]);
    let text = match turn.action {
        Action::WriteFile { path, text } => {
            assert_eq!(path, "vault.fp");
            text
        }
        other => panic!("{:?}", other),
    };
    let saved = open_database(&text, KEY).unwrap();
    assert_eq!(saved.len(), 1);
    assert_eq!(saved.get_accounts()[0], db.get_accounts()[1]);
    assert_eq!(cli.database(), Some(&saved));
    let (cli, turn) = cli.step(Event::Written(true));
    assert_eq!(turn.notices, vec![Notice::ChangesSaved]);
    let (_, turn) = line(cli, "");
    assert_eq!(turn.action, Action::ReadLine(Prompt::DatabaseChoice));
}

#[test]
fn deleting_can_be_cancelled_or_refused() {
    let db = two_accounts();
    let cli = opened(&db);
    let (cli, _) = line(cli, "4");
    let (cli, turn) = line(cli, "ffffffff");
    assert_eq!(turn.notices, vec![Notice::AccountNotFound]);
    let (cli, _) = line(cli, "");

    let (cli, _) = line(cli, "4");
    let (cli, _) = line(cli, "0000000b");
    let (cli, _) = secret(cli, "wrong-passphrase");
    let (cli, turn) = cli.step(Event::FileRead(Some(stored(&db))));
    assert_eq!(turn.notices, vec![Notice::PasskeyRefused(TaskKind::Delete)]);
    let (cli, _) = line(cli, "");

    let (cli, _) = line(cli, "4");
    let (cli, _) = line(cli, "0000000b");
    let (cli, _) = secret(cli, KEY);
    let (cli, _) = cli.step(Event::FileRead(Some(stored(&db))));
    let (cli, turn) = line(cli, "yes");
    assert_eq!(turn.notices, vec![Notice::DeletionCancelled]);
    assert_eq!(turn.action, Action::ReadLine(Prompt::Continue));
    assert_eq!(cli.database(), Some(&db));
}

#[test]
fn failed_write_after_a_change_ends_the_dialog() {
    let db = two_accounts();
    let cli = opened(&db);
    let (cli, _) = line(cli, "4");
    let (cli, _) = line(cli, "0000000b");
    let (cli, _) = secret(cli, KEY);
    let (cli, _) = cli.step(Event::FileRead(Some(stored(&db))));
    let (cli, _) = line(cli, "y");
    let (_, turn) = cli.step(Event::Written(false));
    assert_eq!(turn.action, Action::Fail(Failure::Write));
}

#[test]
fn editing_changes_each_field_on_its_own() {
    let db = two_accounts();
    let cli = at_account(opened(&db), "0000000a");
    let (cli, _) = line(cli, "1");
    let (cli, _) = secret(cli, KEY);
    let (cli, turn) = cli.step(Event::FileRead(Some(stored(&db))));
    assert_eq!(turn.notices, vec![Notice::CurrentUsername("alice".to_string())]);
    assert_eq!(turn.action, Action::ReadLine(Prompt::NewUsername));
    let (cli, turn) = line(cli, "");
    assert_eq!(turn.notices, vec![Notice::CurrentDescription("mail".to_string())]);
    assert_eq!(turn.action, Action::ReadLine(Prompt::NewDescription));
    let (cli, turn) = line(cli, "work mail");
    assert_eq!(turn.notices, vec![Notice::EditPasswordQuestion]);
    assert_eq!(turn.action, Action::ReadLine(Prompt::EditPassword));
    assert_eq!(cli.database(), Some(&db));
    let (cli, turn) = line(cli, "n");
    assert_eq!(turn.notices, vec![Notice::AccountUpdated]);
    let text = match turn.action {
        Action::WriteFile { path, text } => {
            assert_eq!(path, "vault.fp");
            text
        }
        other => panic!("{:?}", other),
    };
    let saved = open_database(&text, KEY).unwrap();
    assert_eq!(cli.database(), Some(&saved));
    assert_eq!(
        saved.get_accounts()[0],
        Account::with_id(
            "0000000a".to_string(),
            "alice".to_string(),
            Some("work mail".to_string()),
            "alice-pw".to_string()
        )
    );
    assert_eq!(saved.get_accounts()[1], db.get_accounts()[1]);
    let (cli, turn) = cli.step(Event::Written(true));
    assert_eq!(turn.notices, vec![Notice::ChangesSaved]);
    let (_, turn) = line(cli, "");
    assert_eq!(turn.action, Action::ReadLine(Prompt::AccountChoice));
}

#[test]
fn editing_can_clear_the_description_and_set_a_password() {
    let db = two_accounts();
    let cli = at_account(opened(&db), "0000000a");
    let (cli, _) = line(cli, "1");
    let (cli, _) = secret(cli, KEY);
    let (cli, _) = cli.step(Event::FileRead(Some(stored(&db))));
    let (cli, _) = line(cli, "alice@example.com");
    let (cli, turn) = line(cli, "");
    assert_eq!(turn.action, Action::ReadLine(Prompt::KeepDescription));
    let (cli, turn) = line(cli, "N");
    assert_eq!(turn.action, Action::ReadLine(Prompt::EditPassword));
    let (cli, turn) = line(cli, "y");
    assert_eq!(turn.action, Action::ReadLine(Prompt::PasswordAction));
    let (cli, turn) = line(cli, "1");
    assert_eq!(turn.action, Action::ReadSecret(Prompt::NewPassword));
    let (cli, turn) = secret(cli, "short");
    assert_eq!(turn.notices, vec![Notice::PasswordRule]);
    let (cli, turn) = secret(cli, "An0ther-passw0rd!");
    assert_eq!(turn.notices, vec![Notice::PasswordUpdated, Notice::AccountUpdated]);
    assert!(matches!(turn.action, Action::WriteFile { .. }));
    assert_eq!(
        cli.database().unwrap().get_accounts()[0],
        Account::with_id(
            "0000000a".to_string(),
            "alice@example.com".to_string(),
            None,
            "An0ther-passw0rd!".to_string()
        )
    );
}

#[test]
fn editing_keeps_the_description_on_any_answer_but_no() {
    let db = two_accounts();
    let cli = at_account(opened(&db), "0000000a");
    let (cli, _) = line(cli, "1");
    let (cli, _) = secret(cli, KEY);
    let (cli, _) = cli.step(Event::FileRead(Some(stored(&db))));
    let (cli, _) = line(cli, "");
    let (cli, _) = line(cli, "");
    let (cli, _) = line(cli, "y");
    let (cli, turn) = line(cli, "");
    assert!(matches!(turn.action, Action::WriteFile { .. }));
    assert_eq!(cli.database(), Some(&db));
}

#[test]
fn editing_an_account_without_description_does_not_ask_to_keep_it() {
    let db = two_accounts();
    let cli = at_account(opened(&db), "0000000b");
    let (cli, _) = line(cli, "1");
    let (cli, _) = secret(cli, KEY);
    let (cli, _) = cli.step(Event::FileRead(Some(stored(&db))));
    let (cli, turn) = line(cli, "");
    assert_eq!(turn.notices, vec![Notice::CurrentDescription(String::new())]);
    let (cli, turn) = line(cli, "");
    assert_eq!(turn.action, Action::ReadLine(Prompt::EditPassword));
    let (cli, _) = line(cli, "y");
    let (cli, turn) = line(cli, "2");
    assert_eq!(turn.notices.len(), 3);
    let shown = match &turn.notices[0] {
        Notice::GeneratedPassword(password) => password.clone(),
        other => panic!("{:?}", other),
    };
    assert_eq!(turn.notices[1], Notice::PasswordUpdated);
    assert_eq!(turn.notices[2], Notice::AccountUpdated);
    assert_eq!(cli.database().unwrap().get_accounts()[1].get_password(), shown);
    assert_eq!(cli.database().unwrap().get_accounts()[1].get_description(), &None);
}

#[test]
fn editing_with_another_password_choice_leaves_the_password() {
    let db = two_accounts();
    let cli = at_account(opened(&db), "0000000b");
    let (cli, _) = line(cli, "1");
    let (cli, _) = secret(cli, KEY);
    let (cli, _) = cli.step(Event::FileRead(Some(stored(&db))));
    let (cli, _) = line(cli, "");
    let (cli, _) = line(cli, "");
    let (cli, _) = line(cli, "Y");
    let (cli, turn) = line(cli, "3");
    assert_eq!(turn.notices, vec![Notice::PasswordChoiceInvalid, Notice::AccountUpdated]);
    assert_eq!(cli.database(), Some(&db));
}

#[test]
fn copying_hands_the_password_to_the_clipboard() {
    let db = two_accounts();
    let cli = at_account(opened(&db), "0000000b");
    let (cli, turn) = line(cli, "2");
    assert_eq!(turn.notices, vec![Notice::ClearScreen, Notice::CopyTitle]);
    let (cli, _) = secret(cli, KEY);
    let (cli, turn) = cli.step(Event::FileRead(Some(stored(&db))));
    assert_eq!(turn.action, Action::Copy("bob-pw".to_string()));
    let (cli, turn) = cli.step(Event::Copied(true));
    assert_eq!(turn.notices, vec![Notice::PasswordCopied]);
    assert_eq!(cli.database(), Some(&db));
    let (_, turn) = line(cli, "");
    assert_eq!(turn.action, Action::ReadLine(Prompt::AccountChoice));
}

#[test]
fn copying_under_a_wrong_passkey_is_refused() {
    let db = two_accounts();
    let cli = at_account(opened(&db), "0000000b");
    let (cli, _) = line(cli, "2");
    let (cli, _) = secret(cli, "wrong-passphrase");
    let (cli, turn) = cli.step(Event::FileRead(Some(stored(&db))));
    assert_eq!(turn.notices, vec![Notice::PasskeyRefused(TaskKind::Copy)]);
    assert_eq!(turn.action, Action::ReadLine(Prompt::Continue));
    let (cli, _) = line(cli, "");
    let (cli, _) = line(cli, "2");
    let (cli, _) = secret(cli, KEY);
    let (cli, _) = cli.step(Event::FileRead(Some(stored(&db))));
    let (_, turn) = cli.step(Event::Copied(false));
    assert_eq!(turn.action, Action::Fail(Failure::Clipboard));
}

#[test]
fn generating_sets_the_password_only_when_confirmed() {
    let db = two_accounts();
    let cli = at_account(opened(&db), "0000000a");
    let (cli, _) = line(cli, "3");
    let (cli, _) = secret(cli, KEY);
    let (cli, turn) = cli.step(Event::FileRead(Some(stored(&db))));
    assert_eq!(turn.action, Action::ReadLine(Prompt::SetGenerated));
    assert!(matches!(turn.notices[0], Notice::GeneratedPassword(_)));
    let (cli, turn) = line(cli, "n");
    assert_eq!(turn.notices, vec![Notice::PasswordNotUpdated]);
    assert_eq!(cli.database(), Some(&db));
    let (cli, _) = line(cli, "");

    let (cli, _) = line(cli, "3");
    let (cli, _) = secret(cli, KEY);
    let (cli, turn) = cli.step(Event::FileRead(Some(stored(&db))));
    let shown = match &turn.notices[0] {
        Notice::GeneratedPassword(password) => password.clone(),
        other => panic!("{:?}", other),
    };
    let (cli, turn) = line(cli, "y");
    assert_eq!(turn.notices, vec![Notice::PasswordUpdated]);
    let text = match turn.action {
        Action::WriteFile { text, .. } => text,
        other => panic!("{:?}", other),
    };
    let saved = open_database(&text, KEY).unwrap();
    assert_eq!(saved.get_accounts()[0].get_password(), shown);
    assert_eq!(saved.get_accounts()[0].get_username_or_email(), "alice");
    assert_eq!(cli.database(), Some(&saved));
}

#[test]
fn yes_and_no_are_single_letters() {
    assert!(answers_yes("y"));
    assert!(answers_yes("Y"));
    assert!(!answers_yes("yes"));
    assert!(!answers_yes(""));
    assert!(!answers_yes("n"));
    assert!(answers_no("n"));
    assert!(answers_no("N"));
    assert!(!answers_no("no"));
    assert!(!answers_no("y"));
}

#[test]
fn empty_input_is_no_description() {
    assert_eq!(description_from_input(String::new()), None);
    assert_eq!(description_from_input(" ".to_string()), Some(" ".to_string()));
    assert_eq!(description_from_input("note".to_string()), Some("note".to_string()));
}
