//! The dialog of the interactive shell, without its input and output.
//!
//! The shell owns a [`CLI`] and runs a loop: it hands the dialog an [`Event`], shows
//! the [`Notice`]s of the [`Turn`] that comes back, carries out its [`Action`] and
//! reports the outcome as the next event, beginning with [`Event::Started`]. The
//! dialog decides; the shell reads, writes and prints.
use vstd::prelude::*;
use crate::encryption::can_seal;
use crate::encryption::open_database;
use crate::encryption::opened_store;
use crate::encryption::seal_database;
use crate::encryption::seal_refusal;
use crate::encryption::VaultError;
use crate::models::edit_by_id;
use crate::models::has_id;
use crate::models::is_account_id;
use crate::models::remove_by_id;
use crate::models::AccountEdit;
use crate::models::AccountView;
use crate::models::Database;
use crate::models::DescriptionChange;
use crate::password::generate_random_password;
use crate::password::is_password_valid;
use crate::password::password_valid;

verus! {

/// What the shell reports back after it did what the dialog asked for.
#[derive(Debug, PartialEq, Eq)]
pub enum Event {
    /// The program started.
    Started,
    /// A line was read, without the white space around it.
    Line(String),
    /// A secret was read, without echo.
    Secret(String),
    /// The path of the file for a new database, and whether that file exists.
    NewPath { path: String, exists: bool },
    /// Whether a file exists at the path.
    Exists(bool),
    /// The content of the file, or `None` where it could not be read.
    FileRead(Option<Vec<u8>>),
    /// Whether the file was written.
    Written(bool),
    /// Whether the text reached the clipboard.
    Copied(bool),
}

/// What the user is asked for.
#[derive(Debug, Clone, Copy, PartialEq, Eq)]
pub enum Prompt {
    MainChoice,
    DatabaseName,
    NewPasskey,
    ConfirmPasskey,
    DatabasePath,
    Passkey,
    PasskeyToSave,
    Continue,
    DatabaseChoice,
    AccountId,
    AccountChoice,
    NewUsername,
    NewDescription,
    KeepDescription,
    EditPassword,
    PasswordAction,
    NewPassword,
    SetGenerated,
    Username,
    Description,
    PasswordChoice,
    Password,
    AccountIdToDelete,
    ConfirmDelete,
}

/// What the user is told.
#[derive(Debug, PartialEq, Eq)]
pub enum Notice {
    ClearScreen,
    MainMenu,
    InvalidChoice,
    CreateTitle,
    DatabaseExists,
    PasskeyEmpty,
    ConfirmationEmpty,
    PasskeysDiffer,
    PasskeyInvalid,
    DatabaseCreated,
    OpenTitle,
    FileNotFound,
    DatabaseLoaded,
    OpenFailed(VaultError),
    DatabaseMenu(String),
    ListTitle,
    NoAccounts,
    NoDatabase,
    TableHeader,
    TableRow { id: String, username_or_email: String, description: String },
    BlankLine,
    ViewTitle,
    AccountNotFound,
    AccountDetails { id: String, username_or_email: String, description: String },
    AccountMenu,
    EditTitle,
    CopyTitle,
    GenerateTitle,
    AddTitle,
    DeleteTitle,
    PasskeyRefused(TaskKind),
    CurrentUsername(String),
    CurrentDescription(String),
    EditPasswordQuestion,
    PasswordRule,
    PasswordUpdated,
    GeneratedPassword(String),
    PasswordChoiceInvalid,
    AccountUpdated,
    ChangesSaved,
    PasswordCopied,
    PasswordNotUpdated,
    UsernameEmpty,
    UsingGeneratedPassword,
    AccountAdded,
    AccountNotAdded,
    AccountDeleted,
    DeletionCancelled,
}

/// Why the dialog ended in failure.
#[derive(Debug, Clone, Copy, PartialEq, Eq)]
pub enum Failure {
    /// The store could not be sealed.
    Seal(VaultError),
    /// The file could not be written.
    Write,
    /// The clipboard could not be reached.
    Clipboard,
    /// The shell reported something that the dialog had not asked for.
    UnexpectedEvent,
}

/// What the shell is to do next.
#[derive(Debug, PartialEq, Eq)]
pub enum Action {
    /// Show the prompt and read a line; report `Event::Line`.
    ReadLine(Prompt),
    /// Show the prompt and read a secret; report `Event::Secret`.
    ReadSecret(Prompt),
    /// Make the path of the file for a database of this name; report
    /// `Event::NewPath`.
    ResolveNewPath(String),
    /// Look whether a file exists at the path; report `Event::Exists`.
    CheckPath(String),
    /// Read the file; report `Event::FileRead`.
    ReadFile(String),
    /// Write the text to the file; report `Event::Written`.
    WriteFile { path: String, text: Vec<u8> },
    /// Put the text on the clipboard; report `Event::Copied`.
    Copy(String),
    /// End the program.
    Exit,
    /// End the program with an error.
    Fail(Failure),
}

/// What one step of the dialog hands to the shell: what to show, then what to do.
#[derive(Debug, PartialEq, Eq)]
pub struct Turn {
    pub notices: Vec<Notice>,
    pub action: Action,
}

/// A menu to which the dialog returns.
#[derive(Debug, PartialEq, Eq)]
pub enum Menu {
    Main,
    Database,
    Account(String),
}

/// An account that is about to be added.
#[derive(Debug, PartialEq, Eq)]
pub struct Draft {
    pub username_or_email: String,
    pub description: Option<String>,
    pub password: String,
}

/// The kinds of task that the passkey is asked for.
#[derive(Debug, Clone, Copy, PartialEq, Eq)]
pub enum TaskKind {
    Edit,
    Copy,
    Generate,
    Add,
    Delete,
}

/// What the passkey is asked for.
#[derive(Debug, PartialEq, Eq)]
pub enum Task {
    Edit(String),
    Copy(String),
    Generate(String),
    Add(Draft),
    Delete(String),
}

/// Where the dialog stands: what it waits for, and what it has gathered so far.
#[derive(Debug, PartialEq, Eq)]
pub enum Stage {
    Start,
    MainChoice,
    CreateName,
    CreatePath,
    CreatePasskey { path: String },
    CreateConfirm { path: String, passkey: String },
    CreateSave { path: String },
    OpenPath,
    OpenCheck { path: String },
    OpenPasskey { path: String },
    OpenRead { path: String, passkey: String },
    Pause { then: Menu },
    DatabaseChoice,
    ViewId,
    AccountChoice { id: String },
    Passkey { task: Task },
    Verify { task: Task, passkey: String },
    EditUsername { id: String, passkey: String },
    EditDescription { id: String, passkey: String, edit: AccountEdit },
    EditKeep { id: String, passkey: String, edit: AccountEdit },
    EditPassword { id: String, passkey: String, edit: AccountEdit },
    EditPasswordAction { id: String, passkey: String, edit: AccountEdit },
    EditPasswordEnter { id: String, passkey: String, edit: AccountEdit },
    Saving { then: Menu, added: bool },
    Copying { id: String },
    GenerateConfirm { id: String, passkey: String, password: String },
    AddUsername,
    AddDescription { username_or_email: String },
    AddPasswordChoice { username_or_email: String, description: Option<String> },
    AddPasswordEnter { username_or_email: String, description: Option<String> },
    DeleteId,
    DeleteConfirm { id: String, passkey: String },
    Finished,
}

/// The accounts that the dialog adds: the username is not empty and the password meets
/// the password rule.
pub open spec fn account_allowed(account: AccountView) -> bool {
    account.username_or_email.len() > 0 && password_valid(account.password)
}

/// The drafts from which the dialog adds an account.
pub open spec fn draft_allowed(draft: Draft) -> bool {
    draft.username_or_email@.len() > 0 && password_valid(draft.password@)
}

/// The edits that the dialog makes: a password that it sets meets the password rule.
pub open spec fn edit_allowed(edit: AccountEdit) -> bool {
    edit.password matches Some(password) ==> password_valid(password@)
}

/// How the dialog changes the accounts of a database: it appends an allowed account
/// under an id that was free, removes an account, or makes an allowed edit.
pub open spec fn mutation(before: Seq<AccountView>, after: Seq<AccountView>) -> bool {
    ||| exists|account: AccountView|
        after == #[trigger] before.push(account) && account_allowed(account) && !has_id(
            before,
            account.id,
        )
    ||| exists|id: Seq<char>| after == #[trigger] remove_by_id(before, id)
    ||| exists|id: Seq<char>, edit: AccountEdit|
        after == #[trigger] edit_by_id(before, id, edit) && edit_allowed(edit)
}

impl Stage {
    /// What the dialog has made sure of when it stands in a stage: a passkey for a
    /// new database meets the password rule before it is confirmed, an account to
    /// add has a username and, once it has a password, one that meets the rule, a
    /// generated password meets the rule, and an edit sets no password before the
    /// user has typed or chosen one.
    pub open spec fn settled(self) -> bool {
        match self {
            Stage::CreateConfirm { passkey, .. } => password_valid(passkey@),
            Stage::AddDescription { username_or_email } => username_or_email@.len() > 0,
            Stage::AddPasswordChoice { username_or_email, .. } => username_or_email@.len() > 0,
            Stage::AddPasswordEnter { username_or_email, .. } => username_or_email@.len() > 0,
            Stage::Passkey { task: Task::Add(draft) } => draft_allowed(draft),
            Stage::Verify { task: Task::Add(draft), .. } => draft_allowed(draft),
            Stage::GenerateConfirm { password, .. } => password_valid(password@),
            Stage::EditDescription { edit, .. } => edit.password is None,
            Stage::EditKeep { edit, .. } => edit.password is None,
            Stage::EditPassword { edit, .. } => edit.password is None,
            Stage::EditPasswordAction { edit, .. } => edit.password is None,
            Stage::EditPasswordEnter { edit, .. } => edit.password is None,
            _ => true,
        }
    }

    /// The passkey under which the stored file has opened in this dialog, in the
    /// stages that are reached only that way.
    pub open spec fn unlocked(self) -> Option<Seq<char>> {
        match self {
            Stage::EditUsername { passkey, .. } => Some(passkey@),
            Stage::EditDescription { passkey, .. } => Some(passkey@),
            Stage::EditKeep { passkey, .. } => Some(passkey@),
            Stage::EditPassword { passkey, .. } => Some(passkey@),
            Stage::EditPasswordAction { passkey, .. } => Some(passkey@),
            Stage::EditPasswordEnter { passkey, .. } => Some(passkey@),
            Stage::GenerateConfirm { passkey, .. } => Some(passkey@),
            Stage::DeleteConfirm { passkey, .. } => Some(passkey@),
            _ => None,
        }
    }

    /// The passkey that was typed, in the stages that wait for the stored file to
    /// try it on.
    pub open spec fn awaited(self) -> Option<Seq<char>> {
        match self {
            Stage::OpenRead { passkey, .. } => Some(passkey@),
            Stage::Verify { passkey, .. } => Some(passkey@),
            _ => None,
        }
    }
}

/// The kinds of event that the shell reports.
#[derive(Debug, Clone, Copy, PartialEq, Eq, Structural)]
pub enum EventKind {
    Started,
    Line,
    Secret,
    NewPath,
    Exists,
    FileRead,
    Written,
    Copied,
    /// No event: the dialog has ended.
    Nothing,
}

/// The kind of an event.
pub open spec fn kind_of(event: Event) -> EventKind {
    match event {
        Event::Started => EventKind::Started,
        Event::Line(_) => EventKind::Line,
        Event::Secret(_) => EventKind::Secret,
        Event::NewPath { .. } => EventKind::NewPath,
        Event::Exists(_) => EventKind::Exists,
        Event::FileRead(_) => EventKind::FileRead,
        Event::Written(_) => EventKind::Written,
        Event::Copied(_) => EventKind::Copied,
    }
}

/// The kind of event that an action makes the shell report.
pub open spec fn asked_by(action: Action) -> EventKind {
    match action {
        Action::ReadLine(_) => EventKind::Line,
        Action::ReadSecret(_) => EventKind::Secret,
        Action::ResolveNewPath(_) => EventKind::NewPath,
        Action::CheckPath(_) => EventKind::Exists,
        Action::ReadFile(_) => EventKind::FileRead,
        Action::WriteFile { .. } => EventKind::Written,
        Action::Copy(_) => EventKind::Copied,
        Action::Exit => EventKind::Nothing,
        Action::Fail(_) => EventKind::Nothing,
    }
}

impl Stage {
    /// The kind of event that the dialog waits for in a stage.
    pub open spec fn awaits(self) -> EventKind {
        match self {
            Stage::Start => EventKind::Started,
            Stage::CreatePath => EventKind::NewPath,
            Stage::CreatePasskey { .. } => EventKind::Secret,
            Stage::CreateConfirm { .. } => EventKind::Secret,
            Stage::CreateSave { .. } => EventKind::Written,
            Stage::OpenCheck { .. } => EventKind::Exists,
            Stage::OpenPasskey { .. } => EventKind::Secret,
            Stage::OpenRead { .. } => EventKind::FileRead,
            Stage::Passkey { .. } => EventKind::Secret,
            Stage::Verify { .. } => EventKind::FileRead,
            Stage::EditPasswordEnter { .. } => EventKind::Secret,
            Stage::Saving { .. } => EventKind::Written,
            Stage::Copying { .. } => EventKind::Copied,
            Stage::AddPasswordEnter { .. } => EventKind::Secret,
            Stage::Finished => EventKind::Nothing,
            _ => EventKind::Line,
        }
    }
}

/// The file that the shell read opens under the passkey.
pub open spec fn event_opens(event: Event, passkey: Seq<char>) -> bool {
    event matches Event::FileRead(Some(text)) && opened_store(text@, passkey) is Ok
}

/// The session of the interactive shell: the database that is open, the file it
/// came from, and where the dialog stands.
#[derive(Debug, PartialEq, Eq)]
pub struct CLI {
    current_database_path: Option<String>,
    current_database: Option<Database>,
    stage: Stage,
}

impl CLI {
    /// The accounts of the database that is open.
    pub closed spec fn store(&self) -> Option<Seq<AccountView>> {
        match self.current_database {
            Some(database) => Some(database@),
            None => None,
        }
    }

    /// The path of the file of the database that is open.
    pub closed spec fn file(&self) -> Option<Seq<char>> {
        match self.current_database_path {
            Some(path) => Some(path@),
            None => None,
        }
    }

    /// Where the dialog stands.
    pub closed spec fn stage(&self) -> Stage {
        self.stage
    }

    /// A session is well formed when it has a path exactly when it has a database,
    /// no two accounts of the database share an id, and the stage is settled.
    pub closed spec fn wf(&self) -> bool {
        &&& self.current_database_path is Some <==> self.current_database is Some
        &&& self.current_database matches Some(database) ==> database.wf()
        &&& self.stage.settled()
    }

    /// A session with no database, at the start of the dialog.
    pub fn new() -> (cli: Self)
        ensures
            cli.wf(),
            cli.store() is None,
            cli.file() is None,
            cli.stage() == Stage::Start,
    {
        CLI { current_database_path: None, current_database: None, stage: Stage::Start }
    }

    /// The database that is open.
    pub fn database(&self) -> (database: Option<&Database>)
        ensures
            database is Some <==> self.store() is Some,
            database matches Some(open) ==> Some(open@) == self.store(),
    {
        self.current_database.as_ref()
    }

    /// The path of the file of the database that is open.
    pub fn path(&self) -> (path: Option<&String>)
        ensures
            path is Some <==> self.file() is Some,
            path matches Some(text) ==> Some(text@) == self.file(),
    {
        self.current_database_path.as_ref()
    }
}

/// The action writes the database that is open to its file, sealed so that the
/// file opens under `passkey` to that database.
pub open spec fn saves(cli: CLI, action: Action, passkey: Seq<char>) -> bool {
    &&& action matches Action::WriteFile { path, text }
    &&& cli.file() == Some(path@)
    &&& cli.store() matches Some(accounts)
    &&& opened_store(text@, passkey) == Ok::<Seq<AccountView>, VaultError>(accounts)
}

/// The step changed the database under `passkey`: the change is written at once, or
/// the dialog ends because the database could not be sealed.
pub open spec fn kept(cli: CLI, action: Action, passkey: Seq<char>) -> bool {
    saves(cli, action, passkey) || action matches Action::Fail(Failure::Seal(_))
}

/// The step opened a stored file: the session holds what the file opens to under
/// the passkey that was typed.
pub open spec fn loaded(before: CLI, event: Event, after: CLI) -> bool {
    &&& before.stage() matches Stage::OpenRead { path, passkey }
    &&& event matches Event::FileRead(Some(text))
    &&& after.store() matches Some(accounts)
    &&& opened_store(text@, passkey@) == Ok::<Seq<AccountView>, VaultError>(accounts)
    &&& after.file() == Some(path@)
}

/// The step took up a database that was just created: the session holds an empty
/// database and the path of the file that was written.
pub open spec fn created(before: CLI, event: Event, after: CLI) -> bool {
    &&& before.stage() matches Stage::CreateSave { path }
    &&& event == Event::Written(true)
    &&& after.store() == Some(Seq::<AccountView>::empty())
    &&& after.file() == Some(path@)
}

/// The dialog and the shell stay in step: the action asks for the kind of event
/// that the next stage waits for, and the dialog fails on an unexpected event
/// exactly when the event is not of the kind that the stage waited for.
pub open spec fn in_step(before: CLI, event: Event, after: CLI, turn: Turn) -> bool {
    &&& asked_by(turn.action) == after.stage().awaits()
    &&& turn.action == Action::Fail(Failure::UnexpectedEvent) <==> kind_of(event)
        != before.stage().awaits()
}

/// Some account of `accounts` has the password `password`.
pub open spec fn holds_password(accounts: Seq<AccountView>, password: Seq<char>) -> bool {
    exists|i: int| 0 <= i < accounts.len() && (#[trigger] accounts[i]).password == password
}

/// The step changed the accounts of the database that is open, in one of the ways in
/// which the dialog changes them, and left its path.
pub open spec fn altered(before: CLI, after: CLI) -> bool {
    &&& after.file() == before.file()
    &&& before.store() matches Some(old)
    &&& after.store() matches Some(new)
    &&& mutation(old, new)
}

/// The step asks for the file of a new database to be written: the passkey meets
/// the password rule and was typed twice, and the file opens under it to an empty
/// database.
pub open spec fn founds(before: CLI, event: Event, action: Action) -> bool {
    &&& before.stage() matches Stage::CreateConfirm { path, passkey }
    &&& event matches Event::Secret(confirmation)
    &&& confirmation@ == passkey@
    &&& password_valid(passkey@)
    &&& action matches Action::WriteFile { path: target, text }
    &&& target == path
    &&& opened_store(text@, passkey@) == Ok::<Seq<AccountView>, VaultError>(
        Seq::<AccountView>::empty(),
    )
}

/// When the dialog ends. It ends in order exactly when the user chooses `3` in the
/// main menu, with `Failure::Write` exactly when a file that it asked for was not
/// written, and with `Failure::Clipboard` exactly when the clipboard was not
/// reached. It ends with `Failure::Seal` only where it seals a database.
pub open spec fn ends_rule(before: CLI, event: Event, turn: Turn) -> bool {
    &&& turn.action == Action::Exit <==> before.stage() == Stage::MainChoice && (event matches Event::Line(
        line,
    ) && line@ == "3"@)
    &&& turn.action == Action::Fail(Failure::Write) <==> (before.stage() is CreateSave
        || before.stage() is Saving) && event == Event::Written(false)
    &&& turn.action == Action::Fail(Failure::Clipboard) <==> before.stage() is Copying && event
        == Event::Copied(false)
    &&& turn.action matches Action::Fail(Failure::Seal(_)) ==> {
        ||| before.stage() is CreateConfirm
        ||| before.stage().unlocked() is Some
        ||| before.stage() is Verify
    }
}

/// What holds of every step of the dialog, from a well-formed session.
///
/// The session stays well formed. A stage that holds a passkey as proved is reached
/// only from such a stage with the same passkey, or by a stored file that opens
/// under the passkey that was typed. The database and its path change only when a
/// stored file is opened, when a new database was written, or under a proved
/// passkey; in the last case the path stays, the accounts change in one of the ways
/// of the dialog, and the new database is written at once, sealed under that
/// passkey. A file is written only for such a change or for a new database. A text
/// goes to the clipboard only when the stored file has just opened under the passkey
/// that was typed, and it is the password of an account of the database.
pub open spec fn step_rule(before: CLI, event: Event, after: CLI, turn: Turn) -> bool {
    before.wf() ==> {
        &&& after.wf()
        &&& after.stage().unlocked() matches Some(passkey) ==> {
            ||| before.stage().unlocked() == Some(passkey)
            ||| before.stage().awaited() == Some(passkey) && event_opens(event, passkey)
        }
        &&& (after.store() != before.store() || after.file() != before.file()) ==> {
            ||| loaded(before, event, after)
            ||| created(before, event, after)
            ||| {
                &&& altered(before, after)
                &&& before.stage().unlocked() matches Some(passkey)
                &&& kept(after, turn.action, passkey)
            }
            ||| {
                &&& altered(before, after)
                &&& before.stage().awaited() matches Some(passkey)
                &&& event_opens(event, passkey)
                &&& kept(after, turn.action, passkey)
            }
        }
        &&& turn.action matches Action::Copy(text) ==> {
            &&& before.stage().awaited() matches Some(passkey)
            &&& event_opens(event, passkey)
            &&& before.store() matches Some(accounts)
            &&& holds_password(accounts, text@)
        }
        &&& turn.action is WriteFile ==> {
            ||| founds(before, event, turn.action)
            ||| before.stage().unlocked() matches Some(passkey) && saves(
                after,
                turn.action,
                passkey,
            )
            ||| before.stage().awaited() matches Some(passkey) && event_opens(event, passkey)
                && saves(after, turn.action, passkey)
        }
    }
}

// ---------------------------------------------------------------------------
// What each stage does with the event that it waits for.
// ---------------------------------------------------------------------------

/// The database and its path are as before and the dialog stands in `stage`.
pub open spec fn stays(
    store: Option<Seq<AccountView>>,
    file: Option<Seq<char>>,
    after: CLI,
    stage: Stage,
) -> bool {
    &&& after.store() == store
    &&& after.file() == file
    &&& after.stage() == stage
}

/// Where the main loop goes on: in the database menu where a database is open, in
/// the main menu where none is.
pub open spec fn home(store: Option<Seq<AccountView>>) -> Stage {
    if store is Some {
        Stage::DatabaseChoice
    } else {
        Stage::MainChoice
    }
}

/// A database is open and has an account with the id.
pub open spec fn known(store: Option<Seq<AccountView>>, id: Seq<char>) -> bool {
    store matches Some(accounts) && has_id(accounts, id)
}

/// A database is open and holds accounts.
pub open spec fn listed(store: Option<Seq<AccountView>>) -> bool {
    store matches Some(accounts) && accounts.len() > 0
}

/// A database is open, and the first account with the id has a description that is
/// not empty.
pub open spec fn described(store: Option<Seq<AccountView>>, id: Seq<char>) -> bool {
    &&& store matches Some(accounts)
    &&& crate::models::find_by_id(accounts, id) matches Some(account)
    &&& account.description matches Some(text)
    &&& text.len() > 0
}

/// The password of the first account with the id in the database that is open.
pub open spec fn password_in(store: Option<Seq<AccountView>>, id: Seq<char>) -> Option<Seq<char>> {
    match store {
        Some(accounts) => match crate::models::find_by_id(accounts, id) {
            Some(account) => Some(account.password),
            None => None,
        },
        None => None,
    }
}

/// The stage in which the dialog returns to a menu: the menu of an account only
/// where the account is there, else the database menu.
pub open spec fn menu_stage(store: Option<Seq<AccountView>>, then: Menu) -> Stage {
    match then {
        Menu::Main => home(store),
        Menu::Database => Stage::DatabaseChoice,
        Menu::Account(id) => if known(store, id@) {
            Stage::AccountChoice { id }
        } else {
            Stage::DatabaseChoice
        },
    }
}

impl Stage {
    /// What the shell is asked to do when the dialog enters a stage, where the stage
    /// alone says it.
    pub open spec fn request(self) -> Option<Action> {
        match self {
            Stage::MainChoice => Some(Action::ReadLine(Prompt::MainChoice)),
            Stage::CreateName => Some(Action::ReadLine(Prompt::DatabaseName)),
            Stage::CreatePasskey { .. } => Some(Action::ReadSecret(Prompt::NewPasskey)),
            Stage::CreateConfirm { .. } => Some(Action::ReadSecret(Prompt::ConfirmPasskey)),
            Stage::OpenPath => Some(Action::ReadLine(Prompt::DatabasePath)),
            Stage::OpenCheck { path } => Some(Action::CheckPath(path)),
            Stage::OpenPasskey { .. } => Some(Action::ReadSecret(Prompt::Passkey)),
            Stage::OpenRead { path, .. } => Some(Action::ReadFile(path)),
            Stage::Pause { .. } => Some(Action::ReadLine(Prompt::Continue)),
            Stage::DatabaseChoice => Some(Action::ReadLine(Prompt::DatabaseChoice)),
            Stage::ViewId => Some(Action::ReadLine(Prompt::AccountId)),
            Stage::AccountChoice { .. } => Some(Action::ReadLine(Prompt::AccountChoice)),
            Stage::Passkey { task } => Some(
                Action::ReadSecret(
                    if task is Add {
                        Prompt::PasskeyToSave
                    } else {
                        Prompt::Passkey
                    },
                ),
            ),
            Stage::EditUsername { .. } => Some(Action::ReadLine(Prompt::NewUsername)),
            Stage::EditDescription { .. } => Some(Action::ReadLine(Prompt::NewDescription)),
            Stage::EditKeep { .. } => Some(Action::ReadLine(Prompt::KeepDescription)),
            Stage::EditPassword { .. } => Some(Action::ReadLine(Prompt::EditPassword)),
            Stage::EditPasswordAction { .. } => Some(Action::ReadLine(Prompt::PasswordAction)),
            Stage::EditPasswordEnter { .. } => Some(Action::ReadSecret(Prompt::NewPassword)),
            Stage::GenerateConfirm { .. } => Some(Action::ReadLine(Prompt::SetGenerated)),
            Stage::AddUsername => Some(Action::ReadLine(Prompt::Username)),
            Stage::AddDescription { .. } => Some(Action::ReadLine(Prompt::Description)),
            Stage::AddPasswordChoice { .. } => Some(Action::ReadLine(Prompt::PasswordChoice)),
            Stage::AddPasswordEnter { .. } => Some(Action::ReadSecret(Prompt::Password)),
            Stage::DeleteId => Some(Action::ReadLine(Prompt::AccountIdToDelete)),
            Stage::DeleteConfirm { .. } => Some(Action::ReadLine(Prompt::ConfirmDelete)),
            _ => None,
        }
    }
}

/// The accounts of the database become `new`, its path stays, and the change is
/// written at once: the file opens under the passkey to the new accounts. Where the
/// database cannot be sealed the dialog ends with the reason.
pub open spec fn change_rule(
    file: Option<Seq<char>>,
    passkey: Seq<char>,
    new: Seq<AccountView>,
    then: Menu,
    added: bool,
    after: CLI,
    turn: Turn,
) -> bool {
    &&& after.file() == file
    &&& after.store() == Some(new)
    &&& if can_seal(new, passkey) {
        after.stage() == (Stage::Saving { then, added }) && saves(after, turn.action, passkey)
    } else {
        after.stage() == Stage::Finished && turn.action == Action::Fail(
            Failure::Seal(seal_refusal(new, passkey)),
        )
    }
}

/// An edit is made to the account with the id, and to no other, and written at
/// once; where the account or the database is not there, nothing changes.
pub open spec fn edit_rule(
    store: Option<Seq<AccountView>>,
    file: Option<Seq<char>>,
    id: String,
    passkey: String,
    edit: AccountEdit,
    after: CLI,
    turn: Turn,
) -> bool {
    if file is Some && known(store, id@) {
        change_rule(
            file,
            passkey@,
            edit_by_id(store->0, id@, edit),
            Menu::Account(id),
            false,
            after,
            turn,
        )
    } else {
        stays(store, file, after, Stage::Pause { then: Menu::Account(id) })
    }
}

/// In the main menu: `1` creates a database, `2` opens one, `3` ends the dialog, and
/// anything else asks again.
pub open spec fn main_choice_rule(
    store: Option<Seq<AccountView>>,
    file: Option<Seq<char>>,
    line: String,
    after: CLI,
) -> bool {
    stays(
        store,
        file,
        after,
        if line@ == "1"@ {
            Stage::CreateName
        } else if line@ == "2"@ {
            Stage::OpenPath
        } else if line@ == "3"@ {
            Stage::Finished
        } else {
            Stage::MainChoice
        },
    )
}

/// Creating: a passkey that is empty or does not meet the password rule is asked for
/// again; one that meets it is to be confirmed.
pub open spec fn create_passkey_rule(
    store: Option<Seq<AccountView>>,
    file: Option<Seq<char>>,
    path: String,
    passkey: String,
    after: CLI,
) -> bool {
    stays(
        store,
        file,
        after,
        if password_valid(passkey@) {
            Stage::CreateConfirm { path, passkey }
        } else {
            Stage::CreatePasskey { path }
        },
    )
}

/// Creating: a confirmation that is empty or differs sends the dialog back to asking
/// for the passkey; one that is the same has the empty database sealed under the
/// passkey and its file written.
pub open spec fn create_confirm_rule(
    store: Option<Seq<AccountView>>,
    file: Option<Seq<char>>,
    path: String,
    passkey: String,
    confirmation: String,
    after: CLI,
    turn: Turn,
) -> bool {
    if confirmation@.len() > 0 && confirmation@ == passkey@ {
        &&& after.store() == store
        &&& after.file() == file
        &&& if can_seal(Seq::<AccountView>::empty(), passkey@) {
            &&& after.stage() == (Stage::CreateSave { path })
            &&& turn.action matches Action::WriteFile { path: target, text }
            &&& target == path
            &&& opened_store(text@, passkey@) == Ok::<Seq<AccountView>, VaultError>(
                Seq::<AccountView>::empty(),
            )
        } else {
            after.stage() == Stage::Finished && turn.action == Action::Fail(
                Failure::Seal(seal_refusal(Seq::<AccountView>::empty(), passkey@)),
            )
        }
    } else {
        stays(store, file, after, Stage::CreatePasskey { path })
    }
}

/// Creating: once the file is written the session holds an empty database and the
/// path of the file.
pub open spec fn create_save_rule(
    store: Option<Seq<AccountView>>,
    file: Option<Seq<char>>,
    path: String,
    written: bool,
    after: CLI,
) -> bool {
    if written {
        &&& after.store() == Some(Seq::<AccountView>::empty())
        &&& after.file() == Some(path@)
        &&& after.stage() == Stage::DatabaseChoice
    } else {
        stays(store, file, after, Stage::Finished)
    }
}

/// Opening: a file that opens under the passkey is taken up, with its path; on any
/// other the session stays as it is.
pub open spec fn open_read_rule(
    store: Option<Seq<AccountView>>,
    file: Option<Seq<char>>,
    path: String,
    passkey: String,
    content: Option<Vec<u8>>,
    after: CLI,
) -> bool {
    if content matches Some(text) && opened_store(text@, passkey@) is Ok {
        &&& after.store() == Some(opened_store(content->0@, passkey@)->Ok_0)
        &&& after.file() == Some(path@)
        &&& after.stage() == Stage::DatabaseChoice
    } else {
        stays(store, file, after, Stage::Pause { then: Menu::Main })
    }
}

/// In the database menu.
pub open spec fn database_choice_rule(
    store: Option<Seq<AccountView>>,
    file: Option<Seq<char>>,
    line: String,
    after: CLI,
) -> bool {
    stays(
        store,
        file,
        after,
        if line@ == "1"@ {
            Stage::Pause { then: Menu::Database }
        } else if line@ == "2"@ {
            if listed(store) {
                Stage::ViewId
            } else {
                Stage::Pause { then: Menu::Database }
            }
        } else if line@ == "3"@ {
            Stage::AddUsername
        } else if line@ == "4"@ {
            if listed(store) {
                Stage::DeleteId
            } else {
                Stage::Pause { then: Menu::Database }
            }
        } else if line@ == "5"@ {
            Stage::MainChoice
        } else {
            Stage::DatabaseChoice
        },
    )
}

/// In the menu of an account: each task begins by asking for the passkey.
pub open spec fn account_choice_rule(
    store: Option<Seq<AccountView>>,
    file: Option<Seq<char>>,
    id: String,
    line: String,
    after: CLI,
) -> bool {
    stays(
        store,
        file,
        after,
        if line@ == "1"@ {
            Stage::Passkey { task: Task::Edit(id) }
        } else if line@ == "2"@ {
            Stage::Passkey { task: Task::Copy(id) }
        } else if line@ == "3"@ {
            Stage::Passkey { task: Task::Generate(id) }
        } else if line@ == "4"@ {
            Stage::DatabaseChoice
        } else {
            menu_stage(store, Menu::Account(id))
        },
    )
}

/// Before a task: on an empty passkey the task is given up; on any other the stored
/// file is read to try the passkey on.
pub open spec fn passkey_rule(
    store: Option<Seq<AccountView>>,
    file: Option<Seq<char>>,
    task: Task,
    passkey: String,
    after: CLI,
    turn: Turn,
) -> bool {
    if passkey@.len() > 0 && file is Some {
        &&& stays(store, file, after, Stage::Verify { task, passkey })
        &&& turn.action matches Action::ReadFile(path)
        &&& Some(path@) == file
    } else {
        stays(store, file, after, Stage::Pause { then: task_menu(task) })
    }
}

/// The account that is made from a draft under an id.
pub open spec fn drafted(draft: Draft, id: Seq<char>) -> AccountView {
    AccountView {
        id,
        username_or_email: draft.username_or_email@,
        description: crate::models::text_of(draft.description),
        password: draft.password@,
    }
}

/// Adding, once the passkey is proved: the draft is appended, as it was typed, under
/// an id that was free, and written at once; or sixteen ids were drawn in vain and
/// nothing changes.
pub open spec fn add_rule(
    store: Option<Seq<AccountView>>,
    file: Option<Seq<char>>,
    draft: Draft,
    passkey: String,
    after: CLI,
    turn: Turn,
) -> bool {
    if store is Some && file is Some {
        ||| exists|id: Seq<char>|
            #[trigger] is_account_id(id) && !has_id(store->0, id) && change_rule(
                file,
                passkey@,
                store->0.push(drafted(draft, id)),
                Menu::Database,
                true,
                after,
                turn,
            )
        ||| stays(store, file, after, Stage::Pause { then: Menu::Database }) && (exists|
            draws: Seq<Seq<char>>,
        | #[trigger] crate::models::drawn_in_vain(store->0, draws))
    } else {
        stays(store, file, after, Stage::Pause { then: Menu::Database })
    }
}

/// Before a task, when the stored file was read: where it does not open under the
/// passkey the task is given up and nothing changes; where it opens the task goes
/// on, and an account is added at once.
pub open spec fn verify_rule(
    store: Option<Seq<AccountView>>,
    file: Option<Seq<char>>,
    task: Task,
    passkey: String,
    content: Option<Vec<u8>>,
    after: CLI,
    turn: Turn,
) -> bool {
    if !(content matches Some(text) && opened_store(text@, passkey@) is Ok) {
        stays(store, file, after, Stage::Pause { then: task_menu(task) })
    } else {
        match task {
            Task::Edit(id) => stays(
                store,
                file,
                after,
                if known(store, id@) {
                    Stage::EditUsername { id, passkey }
                } else {
                    Stage::Pause { then: Menu::Account(id) }
                },
            ),
            Task::Copy(id) => if password_in(store, id@) is Some {
                &&& stays(store, file, after, Stage::Copying { id })
                &&& turn.action matches Action::Copy(text)
                &&& Some(text@) == password_in(store, id@)
            } else {
                stays(store, file, after, Stage::Pause { then: Menu::Account(id) })
            },
            Task::Generate(id) => if known(store, id@) {
                &&& after.store() == store
                &&& after.file() == file
                &&& after.stage() matches Stage::GenerateConfirm {
                    id: target,
                    passkey: held,
                    password,
                }
                &&& target == id
                &&& held == passkey
                &&& password_valid(password@)
            } else {
                stays(store, file, after, Stage::Pause { then: Menu::Account(id) })
            },
            Task::Add(draft) => add_rule(store, file, draft, passkey, after, turn),
            Task::Delete(id) => stays(store, file, after, Stage::DeleteConfirm { id, passkey }),
        }
    }
}

/// Editing: an empty line keeps the username, any other replaces it.
pub open spec fn edit_username_rule(
    store: Option<Seq<AccountView>>,
    file: Option<Seq<char>>,
    id: String,
    passkey: String,
    line: String,
    after: CLI,
) -> bool {
    stays(
        store,
        file,
        after,
        Stage::EditDescription {
            id,
            passkey,
            edit: AccountEdit {
                username_or_email: if line@.len() == 0 {
                    None
                } else {
                    Some(line)
                },
                description: DescriptionChange::Keep,
                password: None,
            },
        },
    )
}

/// Editing: a line that is not empty replaces the description. An empty line keeps
/// it; where there is a description that is not empty the user is first asked
/// whether to keep it.
pub open spec fn edit_description_rule(
    store: Option<Seq<AccountView>>,
    file: Option<Seq<char>>,
    id: String,
    passkey: String,
    edit: AccountEdit,
    line: String,
    after: CLI,
) -> bool {
    stays(
        store,
        file,
        after,
        if line@.len() > 0 {
            Stage::EditPassword {
                id,
                passkey,
                edit: AccountEdit { description: DescriptionChange::Replace(line), ..edit },
            }
        } else if described(store, id@) {
            Stage::EditKeep { id, passkey, edit }
        } else {
            Stage::EditPassword { id, passkey, edit }
        },
    )
}

/// Editing: the description is cleared exactly on the answer no.
pub open spec fn edit_keep_rule(
    store: Option<Seq<AccountView>>,
    file: Option<Seq<char>>,
    id: String,
    passkey: String,
    edit: AccountEdit,
    line: String,
    after: CLI,
) -> bool {
    stays(
        store,
        file,
        after,
        Stage::EditPassword {
            id,
            passkey,
            edit: if is_no(line@) {
                AccountEdit { description: DescriptionChange::Clear, ..edit }
            } else {
                edit
            },
        },
    )
}

/// Editing: on the answer yes the password is to change; on any other the edit is
/// made as it stands.
pub open spec fn edit_password_rule(
    store: Option<Seq<AccountView>>,
    file: Option<Seq<char>>,
    id: String,
    passkey: String,
    edit: AccountEdit,
    line: String,
    after: CLI,
    turn: Turn,
) -> bool {
    if is_yes(line@) {
        stays(store, file, after, Stage::EditPasswordAction { id, passkey, edit })
    } else {
        edit_rule(store, file, id, passkey, edit, after, turn)
    }
}

/// Editing: on `1` the password is typed; on `2` the edit is made with a password
/// that meets the password rule; on anything else the edit is made and the password
/// stays.
pub open spec fn edit_password_action_rule(
    store: Option<Seq<AccountView>>,
    file: Option<Seq<char>>,
    id: String,
    passkey: String,
    edit: AccountEdit,
    line: String,
    after: CLI,
    turn: Turn,
) -> bool {
    if line@ == "1"@ {
        stays(store, file, after, Stage::EditPasswordEnter { id, passkey, edit })
    } else if line@ == "2"@ {
        exists|password: String|
            password_valid(password@) && #[trigger] edit_rule(
                store,
                file,
                id,
                passkey,
                AccountEdit { password: Some(password), ..edit },
                after,
                turn,
            )
    } else {
        edit_rule(store, file, id, passkey, edit, after, turn)
    }
}

/// Editing: a password that meets the password rule is set with the edit; any other
/// is asked for again.
pub open spec fn edit_password_enter_rule(
    store: Option<Seq<AccountView>>,
    file: Option<Seq<char>>,
    id: String,
    passkey: String,
    edit: AccountEdit,
    password: String,
    after: CLI,
    turn: Turn,
) -> bool {
    if password_valid(password@) {
        edit_rule(
            store,
            file,
            id,
            passkey,
            AccountEdit { password: Some(password), ..edit },
            after,
            turn,
        )
    } else {
        stays(store, file, after, Stage::EditPasswordEnter { id, passkey, edit })
    }
}

/// Generating: the generated password is set, on the chosen account, exactly on the
/// answer yes.
pub open spec fn generate_confirm_rule(
    store: Option<Seq<AccountView>>,
    file: Option<Seq<char>>,
    id: String,
    passkey: String,
    password: String,
    line: String,
    after: CLI,
    turn: Turn,
) -> bool {
    if is_yes(line@) {
        edit_rule(
            store,
            file,
            id,
            passkey,
            AccountEdit {
                username_or_email: None,
                description: DescriptionChange::Keep,
                password: Some(password),
            },
            after,
            turn,
        )
    } else {
        stays(store, file, after, Stage::Pause { then: Menu::Account(id) })
    }
}

/// Deleting: the chosen account is removed exactly on the answer yes, and the change
/// is written at once; on any other answer nothing changes and nothing is written.
pub open spec fn delete_confirm_rule(
    store: Option<Seq<AccountView>>,
    file: Option<Seq<char>>,
    id: String,
    passkey: String,
    line: String,
    after: CLI,
    turn: Turn,
) -> bool {
    if is_yes(line@) && file is Some && known(store, id@) {
        change_rule(
            file,
            passkey@,
            remove_by_id(store->0, id@),
            Menu::Database,
            false,
            after,
            turn,
        )
    } else {
        stays(store, file, after, Stage::Pause { then: Menu::Database })
    }
}

/// Adding: the dialog asks for the passkey under which the draft is saved, where a
/// database is open.
pub open spec fn draft_rule(
    store: Option<Seq<AccountView>>,
    file: Option<Seq<char>>,
    draft: Draft,
    after: CLI,
) -> bool {
    stays(
        store,
        file,
        after,
        if store is Some && file is Some {
            Stage::Passkey { task: Task::Add(draft) }
        } else {
            Stage::Pause { then: Menu::Database }
        },
    )
}

/// Adding: on `1` the password is typed; on anything else the draft gets a password
/// that meets the password rule.
pub open spec fn add_password_choice_rule(
    store: Option<Seq<AccountView>>,
    file: Option<Seq<char>>,
    username_or_email: String,
    description: Option<String>,
    line: String,
    after: CLI,
) -> bool {
    if line@ == "1"@ {
        stays(store, file, after, Stage::AddPasswordEnter { username_or_email, description })
    } else {
        exists|password: String|
            password_valid(password@) && #[trigger] draft_rule(
                store,
                file,
                Draft { username_or_email, description, password },
                after,
            )
    }
}

/// Adding: a password that meets the password rule completes the draft; any other is
/// asked for again.
pub open spec fn add_password_enter_rule(
    store: Option<Seq<AccountView>>,
    file: Option<Seq<char>>,
    username_or_email: String,
    description: Option<String>,
    password: String,
    after: CLI,
) -> bool {
    if password_valid(password@) {
        draft_rule(store, file, Draft { username_or_email, description, password }, after)
    } else {
        stays(store, file, after, Stage::AddPasswordEnter { username_or_email, description })
    }
}

/// What a step does, stage by stage, with the event that the stage waits for. The
/// action of the next stage is its `request`; where more is asked or written, the
/// rule of the stage says what.
pub open spec fn stage_rule(before: CLI, event: Event, after: CLI, turn: Turn) -> bool {
    let store = before.store();
    let file = before.file();
    &&& after.stage().request() matches Some(action) ==> turn.action == action
    &&& match (before.stage(), event) {
        (Stage::Start, Event::Started) => stays(store, file, after, Stage::MainChoice),
        (Stage::MainChoice, Event::Line(line)) => main_choice_rule(store, file, line, after),
        (Stage::CreateName, Event::Line(name)) => stays(store, file, after, Stage::CreatePath)
            && turn.action == Action::ResolveNewPath(name),
        (Stage::CreatePath, Event::NewPath { path, exists }) => stays(
            store,
            file,
            after,
            if exists {
                home(store)
            } else {
                Stage::CreatePasskey { path }
            },
        ),
        (Stage::CreatePasskey { path }, Event::Secret(passkey)) => create_passkey_rule(
            store,
            file,
            path,
            passkey,
            after,
        ),
        (Stage::CreateConfirm { path, passkey }, Event::Secret(confirmation)) => create_confirm_rule(
            store,
            file,
            path,
            passkey,
            confirmation,
            after,
            turn,
        ),
        (Stage::CreateSave { path }, Event::Written(written)) => create_save_rule(
            store,
            file,
            path,
            written,
            after,
        ),
        (Stage::OpenPath, Event::Line(path)) => stays(store, file, after, Stage::OpenCheck { path }),
        (Stage::OpenCheck { path }, Event::Exists(exists)) => stays(
            store,
            file,
            after,
            if exists {
                Stage::OpenPasskey { path }
            } else {
                Stage::Pause { then: Menu::Main }
            },
        ),
        (Stage::OpenPasskey { path }, Event::Secret(passkey)) => stays(
            store,
            file,
            after,
            if passkey@.len() > 0 {
                Stage::OpenRead { path, passkey }
            } else {
                Stage::Pause { then: Menu::Main }
            },
        ),
        (Stage::OpenRead { path, passkey }, Event::FileRead(content)) => open_read_rule(
            store,
            file,
            path,
            passkey,
            content,
            after,
        ),
        (Stage::Pause { then }, Event::Line(_)) => stays(store, file, after, menu_stage(store, then)),
        (Stage::DatabaseChoice, Event::Line(line)) => database_choice_rule(store, file, line, after),
        (Stage::ViewId, Event::Line(id)) => stays(
            store,
            file,
            after,
            if known(store, id@) {
                Stage::AccountChoice { id }
            } else {
                Stage::Pause { then: Menu::Database }
            },
        ),
        (Stage::AccountChoice { id }, Event::Line(line)) => account_choice_rule(
            store,
            file,
            id,
            line,
            after,
        ),
        (Stage::Passkey { task }, Event::Secret(passkey)) => passkey_rule(
            store,
            file,
            task,
            passkey,
            after,
            turn,
        ),
        (Stage::Verify { task, passkey }, Event::FileRead(content)) => verify_rule(
            store,
            file,
            task,
            passkey,
            content,
            after,
            turn,
        ),
        (Stage::EditUsername { id, passkey }, Event::Line(line)) => edit_username_rule(
            store,
            file,
            id,
            passkey,
            line,
            after,
        ),
        (Stage::EditDescription { id, passkey, edit }, Event::Line(line)) => edit_description_rule(
            store,
            file,
            id,
            passkey,
            edit,
            line,
            after,
        ),
        (Stage::EditKeep { id, passkey, edit }, Event::Line(line)) => edit_keep_rule(
            store,
            file,
            id,
            passkey,
            edit,
            line,
            after,
        ),
        (Stage::EditPassword { id, passkey, edit }, Event::Line(line)) => edit_password_rule(
            store,
            file,
            id,
            passkey,
            edit,
            line,
            after,
            turn,
        ),
        (
            Stage::EditPasswordAction { id, passkey, edit },
            Event::Line(line),
        ) => edit_password_action_rule(store, file, id, passkey, edit, line, after, turn),
        (
            Stage::EditPasswordEnter { id, passkey, edit },
            Event::Secret(password),
        ) => edit_password_enter_rule(store, file, id, passkey, edit, password, after, turn),
        (Stage::Saving { then, added }, Event::Written(written)) => stays(
            store,
            file,
            after,
            if written {
                Stage::Pause { then }
            } else {
                Stage::Finished
            },
        ),
        (Stage::Copying { id }, Event::Copied(copied)) => stays(
            store,
            file,
            after,
            if copied {
                Stage::Pause { then: Menu::Account(id) }
            } else {
                Stage::Finished
            },
        ),
        (
            Stage::GenerateConfirm { id, passkey, password },
            Event::Line(line),
        ) => generate_confirm_rule(store, file, id, passkey, password, line, after, turn),
        (Stage::AddUsername, Event::Line(line)) => stays(
            store,
            file,
            after,
            if line@.len() > 0 {
                Stage::AddDescription { username_or_email: line }
            } else {
                Stage::Pause { then: Menu::Database }
            },
        ),
        (Stage::AddDescription { username_or_email }, Event::Line(line)) => stays(
            store,
            file,
            after,
            Stage::AddPasswordChoice {
                username_or_email,
                description: if line@.len() == 0 {
                    None
                } else {
                    Some(line)
                },
            },
        ),
        (
            Stage::AddPasswordChoice { username_or_email, description },
            Event::Line(line),
        ) => add_password_choice_rule(store, file, username_or_email, description, line, after),
        (
            Stage::AddPasswordEnter { username_or_email, description },
            Event::Secret(password),
        ) => add_password_enter_rule(store, file, username_or_email, description, password, after),
        (Stage::DeleteId, Event::Line(id)) => stays(
            store,
            file,
            after,
            if known(store, id@) {
                Stage::Passkey { task: Task::Delete(id) }
            } else {
                Stage::Pause { then: Menu::Database }
            },
        ),
        (Stage::DeleteConfirm { id, passkey }, Event::Line(line)) => delete_confirm_rule(
            store,
            file,
            id,
            passkey,
            line,
            after,
            turn,
        ),
        (_, _) => stays(store, file, after, Stage::Finished),
    }
}

/// Whether two texts are the same.
fn same_text(a: &str, b: &str) -> (same: bool)
    ensures
        same == (a@ == b@),
{
    *a == *b
}

/// The answers that count as yes: `y` and `Y`.
pub open spec fn is_yes(answer: Seq<char>) -> bool {
    answer == "y"@ || answer == "Y"@
}

/// The answers that count as no: `n` and `N`.
pub open spec fn is_no(answer: Seq<char>) -> bool {
    answer == "n"@ || answer == "N"@
}

/// Whether an answer counts as yes.
pub fn answers_yes(answer: &str) -> (yes: bool)
    ensures
        yes == is_yes(answer@),
{
    same_text(answer, "y") || same_text(answer, "Y")
}

/// Whether an answer counts as no.
pub fn answers_no(answer: &str) -> (no: bool)
    ensures
        no == is_no(answer@),
{
    same_text(answer, "n") || same_text(answer, "N")
}

/// The description that a line of input stands for: none where the line is empty.
pub fn description_from_input(input: String) -> (description: Option<String>)
    ensures
        description == (if input@.len() == 0 {
            None::<String>
        } else {
            Some(input)
        }),
{
    if input.as_str().is_empty() {
        None
    } else {
        Some(input)
    }
}

/// The session and the turn that a step ends with.
fn proceed(
    path: Option<String>,
    database: Option<Database>,
    stage: Stage,
    notices: Vec<Notice>,
    action: Action,
) -> (next: (CLI, Turn))
    ensures
        next.0.current_database_path == path,
        next.0.current_database == database,
        next.0.stage == stage,
        next.1.notices == notices,
        next.1.action == action,
{
    (
        CLI { current_database_path: path, current_database: database, stage },
        Turn { notices, action },
    )
}

/// The action asks for what the stage waits for, and is no failure on an unexpected
/// event.
spec fn orderly(next: (CLI, Turn)) -> bool {
    &&& asked_by(next.1.action) == next.0.stage.awaits()
    &&& next.1.action != Action::Fail(Failure::UnexpectedEvent)
    &&& next.0.stage.request() matches Some(action) ==> next.1.action == action
}

/// The dialog goes on, or ends because a database could not be sealed.
spec fn runs(next: (CLI, Turn)) -> bool {
    &&& next.1.action != Action::Exit
    &&& next.1.action != Action::Fail(Failure::Write)
    &&& next.1.action != Action::Fail(Failure::Clipboard)
}

/// The dialog has ended with this action and left the database and its path as they
/// were.
spec fn ended(next: (CLI, Turn), path: Option<String>, database: Option<Database>, action: Action) -> bool {
    &&& next.0.current_database_path == path
    &&& next.0.current_database == database
    &&& next.0.stage == Stage::Finished
    &&& next.1.action == action
}

/// The step left the database and its path as they were and holds no passkey as
/// proved.
spec fn calm(next: (CLI, Turn), path: Option<String>, database: Option<Database>) -> bool {
    &&& next.0.current_database_path == path
    &&& next.0.current_database == database
    &&& next.0.stage.unlocked() is None
    &&& next.0.stage.settled()
    &&& !(next.1.action is Copy)
    &&& !(next.1.action matches Action::Fail(Failure::Seal(_)))
    &&& orderly(next)
    &&& runs(next)
}

/// The step left the database and its path as they were, holds no passkey as proved
/// and asks for no file to be written.
spec fn quiet(next: (CLI, Turn), path: Option<String>, database: Option<Database>) -> bool {
    calm(next, path, database) && !(next.1.action is WriteFile)
}

/// The step left the database and its path as they were and holds no other passkey
/// as proved than `passkey`.
spec fn still(
    next: (CLI, Turn),
    path: Option<String>,
    database: Option<Database>,
    passkey: Seq<char>,
) -> bool {
    &&& next.0.current_database_path == path
    &&& next.0.current_database == database
    &&& next.0.stage.unlocked() matches Some(held) ==> held == passkey
    &&& next.0.stage.settled()
    &&& !(next.1.action is WriteFile)
    &&& !(next.1.action is Copy)
    &&& orderly(next)
    &&& runs(next)
}

/// Ends the dialog with a failure.
fn fail(path: Option<String>, database: Option<Database>, notices: Vec<Notice>, failure: Failure) -> (next:
    (CLI, Turn))
    ensures
        ended(next, path, database, Action::Fail(failure)),
{
    proceed(path, database, Stage::Finished, notices, Action::Fail(failure))
}

/// Ends the dialog because the event is not the one that was asked for.
fn unexpected(path: Option<String>, database: Option<Database>) -> (next: (CLI, Turn))
    ensures
        next.0.current_database_path == path,
        next.0.current_database == database,
        next.0.stage == Stage::Finished,
        next.1.action == Action::Fail(Failure::UnexpectedEvent),
{
    proceed(
        path,
        database,
        Stage::Finished,
        Vec::new(),
        Action::Fail(Failure::UnexpectedEvent),
    )
}

/// Shows the main menu and asks for a choice.
fn main_menu(path: Option<String>, database: Option<Database>, notices: Vec<Notice>) -> (next: (
    CLI,
    Turn,
))
    ensures
        next.0.stage == Stage::MainChoice,
        quiet(next, path, database),
{
    let mut notices = notices;
    notices.push(Notice::MainMenu);
    proceed(path, database, Stage::MainChoice, notices, Action::ReadLine(Prompt::MainChoice))
}

/// Clears the screen, shows the database menu and asks for a choice.
fn database_menu(path: Option<String>, database: Option<Database>, notices: Vec<Notice>) -> (next:
    (CLI, Turn))
    ensures
        next.0.stage == Stage::DatabaseChoice,
        quiet(next, path, database),
{
    let mut notices = notices;
    notices.push(Notice::ClearScreen);
    let shown = match &path {
        Some(text) => text.clone(),
        None => String::new(),
    };
    notices.push(Notice::DatabaseMenu(shown));
    proceed(
        path,
        database,
        Stage::DatabaseChoice,
        notices,
        Action::ReadLine(Prompt::DatabaseChoice),
    )
}

/// Back in the main loop: the database menu where a database is open, the main
/// menu where none is.
fn after_main_flow(path: Option<String>, database: Option<Database>, notices: Vec<Notice>) -> (next:
    (CLI, Turn))
    ensures
        next.0.stage == home(accounts_of(database)),
        quiet(next, path, database),
{
    if database.is_some() {
        database_menu(path, database, notices)
    } else {
        main_menu(path, database, notices)
    }
}

/// Waits for the user to go on, then returns to a menu.
fn pause(path: Option<String>, database: Option<Database>, then: Menu, notices: Vec<Notice>) -> (next:
    (CLI, Turn))
    ensures
        next.0.stage == (Stage::Pause { then }),
        quiet(next, path, database),
        next.0.stage is Pause,
        next.1.action is ReadLine,
{
    proceed(path, database, Stage::Pause { then }, notices, Action::ReadLine(Prompt::Continue))
}

/// A description as it is shown: nothing where there is none.
fn shown_description(description: &Option<String>) -> (shown: String)
    ensures
        shown@ == (match *description {
            Some(text) => text@,
            None => Seq::<char>::empty(),
        }),
{
    match description {
        Some(text) => text.clone(),
        None => String::new(),
    }
}

/// A notice is the row of the table for an account: it shows the id, the username
/// and the description, the last as nothing where there is none.
pub open spec fn is_row_of(notice: Notice, account: AccountView) -> bool {
    &&& notice matches Notice::TableRow { id, username_or_email, description }
    &&& id@ == account.id
    &&& username_or_email@ == account.username_or_email
    &&& description@ == (match account.description {
        Some(text) => text,
        None => Seq::<char>::empty(),
    })
}

/// `after` is `before` followed by the table of the accounts: the header, then the
/// row of each account in order.
pub open spec fn table_follows(
    before: Seq<Notice>,
    after: Seq<Notice>,
    accounts: Seq<AccountView>,
) -> bool {
    &&& after.len() == before.len() + 1 + accounts.len()
    &&& after.subrange(0, before.len() as int) == before
    &&& after[before.len() as int] == Notice::TableHeader
    &&& forall|k: int|
        0 <= k < accounts.len() ==> is_row_of(#[trigger] after[before.len() + 1 + k], accounts[k])
}

/// The table of the accounts: its header and one row for each account.
fn push_table(database: &Database, notices: &mut Vec<Notice>)
    ensures
        table_follows(old(notices)@, final(notices)@, database@),
{
    let ghost before = notices@;
    notices.push(Notice::TableHeader);
    let accounts = database.get_accounts();
    let mut i: usize = 0;
    while i < accounts.len()
        invariant
            i <= accounts.len(),
            crate::models::views_of(accounts@) == database@,
            notices@.len() == before.len() + 1 + i,
            notices@.subrange(0, before.len() as int) == before,
            notices@[before.len() as int] == Notice::TableHeader,
            forall|k: int|
                0 <= k < i ==> is_row_of(#[trigger] notices@[before.len() + 1 + k], database@[k]),
        decreases accounts.len() - i,
    {
        let account = &accounts[i];
        let ghost shown = notices@;
        notices.push(
            Notice::TableRow {
                id: account.get_id().to_owned(),
                username_or_email: account.get_username_or_email().to_owned(),
                description: shown_description(account.get_description()),
            },
        );
        proof {
            assert(database@[i as int] == accounts@[i as int]@);
            assert(notices@.subrange(0, before.len() as int) =~= shown.subrange(
                0,
                before.len() as int,
            ));
            assert forall|k: int| 0 <= k < i + 1 implies is_row_of(
                #[trigger] notices@[before.len() + 1 + k],
                database@[k],
            ) by {
                if k < i {
                    assert(notices@[before.len() + 1 + k] == shown[before.len() + 1 + k]);
                }
            }
        }
        i += 1;
    }
}

/// The menu of one account, or the database menu where the account is gone.
fn account_menu(path: Option<String>, database: Option<Database>, id: String, notices: Vec<Notice>) -> (next:
    (CLI, Turn))
    ensures
        next.0.stage == menu_stage(accounts_of(database), Menu::Account(id)),
        quiet(next, path, database),
{
    let mut notices = notices;
    notices.push(Notice::ClearScreen);
    let details = match &database {
        Some(open) => match open.get_account_by_id(id.as_str()) {
            Some(account) => Some(
                Notice::AccountDetails {
                    id: account.get_id().to_owned(),
                    username_or_email: account.get_username_or_email().to_owned(),
                    description: shown_description(account.get_description()),
                },
            ),
            None => {
                notices.push(Notice::AccountNotFound);
                None
            },
        },
        None => {
            notices.push(Notice::NoDatabase);
            None
        },
    };
    match details {
        Some(notice) => {
            notices.push(notice);
            notices.push(Notice::AccountMenu);
            proceed(
                path,
                database,
                Stage::AccountChoice { id },
                notices,
                Action::ReadLine(Prompt::AccountChoice),
            )
        },
        None => database_menu(path, database, notices),
    }
}

/// Returns to a menu.
fn resume(path: Option<String>, database: Option<Database>, then: Menu, notices: Vec<Notice>) -> (next:
    (CLI, Turn))
    ensures
        next.0.stage == menu_stage(accounts_of(database), then),
        quiet(next, path, database),
{
    match then {
        Menu::Main => after_main_flow(path, database, notices),
        Menu::Database => database_menu(path, database, notices),
        Menu::Account(id) => account_menu(path, database, id, notices),
    }
}

/// A path and a database that make a well-formed session.
spec fn sound(path: Option<String>, database: Option<Database>) -> bool {
    &&& path is Some <==> database is Some
    &&& database matches Some(open) ==> open.wf()
}

/// At the start: clears the screen and shows the main menu.
fn on_start(path: Option<String>, database: Option<Database>) -> (next: (CLI, Turn))
    ensures
        stays(accounts_of(database), file_of(path), next.0, Stage::MainChoice),
        quiet(next, path, database),
{
    main_menu(path, database, vec![Notice::ClearScreen])
}

/// In the main menu: a database is created or opened, or the dialog ends.
fn on_main_choice(path: Option<String>, database: Option<Database>, line: String) -> (next: (
    CLI,
    Turn,
))
    ensures
        main_choice_rule(accounts_of(database), file_of(path), line, next.0),
        orderly(next),
        line@ != "3"@ ==> quiet(next, path, database),
        line@ == "3"@ ==> ended(next, path, database, Action::Exit),
{
    proof {
        reveal_strlit("1");
        reveal_strlit("2");
        reveal_strlit("3");
        assert("1"@[0] != "3"@[0] && "2"@[0] != "3"@[0]);
    }
    if same_text(line.as_str(), "1") {
        proceed(
            path,
            database,
            Stage::CreateName,
            vec![Notice::ClearScreen, Notice::CreateTitle],
            Action::ReadLine(Prompt::DatabaseName),
        )
    } else if same_text(line.as_str(), "2") {
        proceed(
            path,
            database,
            Stage::OpenPath,
            vec![Notice::ClearScreen, Notice::OpenTitle],
            Action::ReadLine(Prompt::DatabasePath),
        )
    } else if same_text(line.as_str(), "3") {
        proceed(path, database, Stage::Finished, Vec::new(), Action::Exit)
    } else {
        main_menu(path, database, vec![Notice::InvalidChoice])
    }
}

/// Creating: a database is not created over a file that exists.
fn on_create_path(path: Option<String>, database: Option<Database>, file: String, exists: bool) -> (next:
    (CLI, Turn))
    ensures
        stays(accounts_of(database), file_of(path), next.0, if exists { home(accounts_of(database)) } else { Stage::CreatePasskey { path: file } }),
        quiet(next, path, database),
{
    if exists {
        after_main_flow(path, database, vec![Notice::DatabaseExists])
    } else {
        proceed(
            path,
            database,
            Stage::CreatePasskey { path: file },
            Vec::new(),
            Action::ReadSecret(Prompt::NewPasskey),
        )
    }
}

/// Creating: the passkey must not be empty and must meet the password rule.
fn on_create_passkey(path: Option<String>, database: Option<Database>, file: String, passkey: String) -> (next:
    (CLI, Turn))
    ensures
        create_passkey_rule(accounts_of(database), file_of(path), file, passkey, next.0),
        quiet(next, path, database),
        next.0.stage matches Stage::CreateConfirm { passkey: held, .. } ==> password_valid(held@),
{
    if passkey.as_str().is_empty() {
        proceed(
            path,
            database,
            Stage::CreatePasskey { path: file },
            vec![Notice::PasskeyEmpty],
            Action::ReadSecret(Prompt::NewPasskey),
        )
    } else if is_password_valid(passkey.as_str()) {
        proceed(
            path,
            database,
            Stage::CreateConfirm { path: file, passkey },
            Vec::new(),
            Action::ReadSecret(Prompt::ConfirmPasskey),
        )
    } else {
        proceed(
            path,
            database,
            Stage::CreatePasskey { path: file },
            vec![Notice::PasskeyInvalid],
            Action::ReadSecret(Prompt::NewPasskey),
        )
    }
}

/// Creating: the passkey must be typed a second time; then the empty database is
/// sealed under it.
fn on_create_confirm(
    path: Option<String>,
    database: Option<Database>,
    file: String,
    passkey: String,
    confirmation: String,
) -> (next: (CLI, Turn))
    ensures
        create_confirm_rule(accounts_of(database), file_of(path), file, passkey, confirmation, next.0, next.1),
        calm(next, path, database) || (next.1.action matches Action::Fail(Failure::Seal(_))
            && ended(next, path, database, next.1.action)),
        next.1.action matches Action::WriteFile { path: target, text } ==> target == file
            && confirmation@ == passkey@ && opened_store(text@, passkey@) == Ok::<
            Seq<AccountView>,
            VaultError,
        >(Seq::<AccountView>::empty()),
{
    if confirmation.as_str().is_empty() {
        proceed(
            path,
            database,
            Stage::CreatePasskey { path: file },
            vec![Notice::ConfirmationEmpty],
            Action::ReadSecret(Prompt::NewPasskey),
        )
    } else if same_text(passkey.as_str(), confirmation.as_str()) {
        let empty = Database::new();
        match seal_database(&empty, passkey.as_str()) {
            Ok(text) => {
                let target = file.clone();
                proceed(
                    path,
                    database,
                    Stage::CreateSave { path: file },
                    Vec::new(),
                    Action::WriteFile { path: target, text },
                )
            },
            Err(error) => fail(path, database, Vec::new(), Failure::Seal(error)),
        }
    } else {
        proceed(
            path,
            database,
            Stage::CreatePasskey { path: file },
            vec![Notice::PasskeysDiffer],
            Action::ReadSecret(Prompt::NewPasskey),
        )
    }
}

/// Creating: once the file is written the session takes up the empty database.
fn on_create_save(path: Option<String>, database: Option<Database>, file: String, written: bool) -> (next:
    (CLI, Turn))
    ensures
        create_save_rule(accounts_of(database), file_of(path), file, written, next.0),
        next.0.stage.unlocked() is None,
        next.0.stage.settled(),
        !(next.1.action is WriteFile),
        !(next.1.action is Copy),
        !(next.1.action matches Action::Fail(Failure::Seal(_))),
        orderly(next),
        written ==> runs(next) && next.0.file() == Some(file@) && next.0.store() == Some(
            Seq::<AccountView>::empty(),
        ) && next.0.wf(),
        !written ==> ended(next, path, database, Action::Fail(Failure::Write)),
{
    if written {
        after_main_flow(Some(file), Some(Database::new()), vec![Notice::DatabaseCreated])
    } else {
        fail(path, database, Vec::new(), Failure::Write)
    }
}

/// Opening: the file must exist.
fn on_open_check(path: Option<String>, database: Option<Database>, file: String, exists: bool) -> (next:
    (CLI, Turn))
    ensures
        stays(accounts_of(database), file_of(path), next.0, if exists { Stage::OpenPasskey { path: file } } else { Stage::Pause { then: Menu::Main } }),
        quiet(next, path, database),
{
    if exists {
        proceed(
            path,
            database,
            Stage::OpenPasskey { path: file },
            Vec::new(),
            Action::ReadSecret(Prompt::Passkey),
        )
    } else {
        pause(path, database, Menu::Main, vec![Notice::FileNotFound])
    }
}

/// Opening: the passkey must not be empty; then the file is read.
fn on_open_passkey(path: Option<String>, database: Option<Database>, file: String, passkey: String) -> (next:
    (CLI, Turn))
    ensures
        stays(accounts_of(database), file_of(path), next.0, if passkey@.len() > 0 { Stage::OpenRead { path: file, passkey } } else { Stage::Pause { then: Menu::Main } }),
        quiet(next, path, database),
{
    if passkey.as_str().is_empty() {
        pause(path, database, Menu::Main, vec![Notice::PasskeyEmpty])
    } else {
        let target = file.clone();
        proceed(
            path,
            database,
            Stage::OpenRead { path: file, passkey },
            Vec::new(),
            Action::ReadFile(target),
        )
    }
}

/// Opening: the session takes up what the file opens to under the passkey.
fn on_open_read(
    path: Option<String>,
    database: Option<Database>,
    file: String,
    passkey: String,
    content: Option<Vec<u8>>,
) -> (next: (CLI, Turn))
    ensures
        open_read_rule(accounts_of(database), file_of(path), file, passkey, content, next.0),
        next.0.stage.unlocked() is None,
        next.0.stage.settled(),
        !(next.1.action is WriteFile),
        !(next.1.action is Copy),
        !(next.1.action matches Action::Fail(Failure::Seal(_))),
        orderly(next),
        runs(next),
        quiet(next, path, database) || {
            &&& content matches Some(text)
            &&& next.0.store() matches Some(accounts)
            &&& opened_store(text@, passkey@) == Ok::<Seq<AccountView>, VaultError>(accounts)
            &&& next.0.file() == Some(file@)
            &&& next.0.wf()
        },
{
    match content {
        Some(text) => match open_database(text.as_slice(), passkey.as_str()) {
            Ok(opened) => after_main_flow(Some(file), Some(opened), vec![Notice::DatabaseLoaded]),
            Err(error) => pause(path, database, Menu::Main, vec![Notice::OpenFailed(error)]),
        },
        None => pause(path, database, Menu::Main, vec![Notice::OpenFailed(VaultError::IOError)]),
    }
}

/// In the database menu: the accounts are listed, or one is viewed, added or
/// deleted, or the dialog returns to the main menu.
fn on_database_choice(path: Option<String>, database: Option<Database>, line: String) -> (next: (
    CLI,
    Turn,
))
    ensures
        database_choice_rule(accounts_of(database), file_of(path), line, next.0),
        quiet(next, path, database),
{
    if same_text(line.as_str(), "1") {
        let mut notices = vec![Notice::ClearScreen, Notice::ListTitle];
        match &database {
            Some(open) => {
                if open.len() == 0 {
                    notices.push(Notice::NoAccounts);
                } else {
                    push_table(open, &mut notices);
                }
            },
            None => {
                notices.push(Notice::NoDatabase);
            },
        }
        pause(path, database, Menu::Database, notices)
    } else if same_text(line.as_str(), "2") {
        choose_account(path, database, Notice::ViewTitle, Stage::ViewId, Prompt::AccountId)
    } else if same_text(line.as_str(), "3") {
        proceed(
            path,
            database,
            Stage::AddUsername,
            vec![Notice::ClearScreen, Notice::AddTitle],
            Action::ReadLine(Prompt::Username),
        )
    } else if same_text(line.as_str(), "4") {
        choose_account(
            path,
            database,
            Notice::DeleteTitle,
            Stage::DeleteId,
            Prompt::AccountIdToDelete,
        )
    } else if same_text(line.as_str(), "5") {
        main_menu(path, database, Vec::new())
    } else {
        database_menu(path, database, vec![Notice::InvalidChoice])
    }
}

/// Shows the accounts and asks for the id of one, where there is any.
fn choose_account(
    path: Option<String>,
    database: Option<Database>,
    title: Notice,
    stage: Stage,
    prompt: Prompt,
) -> (next: (CLI, Turn))
    requires
        stage.unlocked() is None,
        stage.settled(),
        stage.awaits() == EventKind::Line,
        stage.request() == Some(Action::ReadLine(prompt)),
    ensures
        next.0.stage == (if listed(accounts_of(database)) { stage } else { Stage::Pause { then: Menu::Database } }),
        quiet(next, path, database),
{
    let mut notices = vec![Notice::ClearScreen, title];
    let listed = match &database {
        Some(open) => {
            if open.len() == 0 {
                notices.push(Notice::NoAccounts);
                false
            } else {
                push_table(open, &mut notices);
                notices.push(Notice::BlankLine);
                true
            }
        },
        None => {
            notices.push(Notice::NoDatabase);
            false
        },
    };
    if listed {
        proceed(path, database, stage, notices, Action::ReadLine(prompt))
    } else {
        pause(path, database, Menu::Database, notices)
    }
}

/// Whether a database is open and has an account with the id.
fn knows(database: &Option<Database>, id: &str) -> (known: bool)
    ensures
        known == (database matches Some(open) && crate::models::has_id(open@, id@)),
{
    match database {
        Some(open) => open.position_of(id).is_some(),
        None => false,
    }
}

/// Viewing: the menu of the account with the id that was typed, if there is one.
fn on_view_id(path: Option<String>, database: Option<Database>, id: String) -> (next: (CLI, Turn))
    ensures
        stays(accounts_of(database), file_of(path), next.0, if known(accounts_of(database), id@) { Stage::AccountChoice { id } } else { Stage::Pause { then: Menu::Database } }),
        quiet(next, path, database),
{
    if knows(&database, id.as_str()) {
        account_menu(path, database, id, Vec::new())
    } else if database.is_some() {
        pause(path, database, Menu::Database, vec![Notice::AccountNotFound])
    } else {
        pause(path, database, Menu::Database, vec![Notice::NoDatabase])
    }
}

/// In the menu of an account: each task begins by asking for the passkey.
fn on_account_choice(path: Option<String>, database: Option<Database>, id: String, line: String) -> (next:
    (CLI, Turn))
    ensures
        account_choice_rule(accounts_of(database), file_of(path), id, line, next.0),
        quiet(next, path, database),
{
    if same_text(line.as_str(), "1") {
        proceed(
            path,
            database,
            Stage::Passkey { task: Task::Edit(id) },
            vec![Notice::ClearScreen, Notice::EditTitle],
            Action::ReadSecret(Prompt::Passkey),
        )
    } else if same_text(line.as_str(), "2") {
        proceed(
            path,
            database,
            Stage::Passkey { task: Task::Copy(id) },
            vec![Notice::ClearScreen, Notice::CopyTitle],
            Action::ReadSecret(Prompt::Passkey),
        )
    } else if same_text(line.as_str(), "3") {
        proceed(
            path,
            database,
            Stage::Passkey { task: Task::Generate(id) },
            vec![Notice::ClearScreen, Notice::GenerateTitle],
            Action::ReadSecret(Prompt::Passkey),
        )
    } else if same_text(line.as_str(), "4") {
        database_menu(path, database, Vec::new())
    } else {
        account_menu(path, database, id, vec![Notice::InvalidChoice])
    }
}

/// The kind of a task.
pub open spec fn task_kind(task: Task) -> TaskKind {
    match task {
        Task::Edit(_) => TaskKind::Edit,
        Task::Copy(_) => TaskKind::Copy,
        Task::Generate(_) => TaskKind::Generate,
        Task::Add(_) => TaskKind::Add,
        Task::Delete(_) => TaskKind::Delete,
    }
}

/// The menu to which the dialog returns from a task: that of the account for a task
/// on one account, the database menu for adding and deleting.
pub open spec fn task_menu(task: Task) -> Menu {
    match task {
        Task::Edit(id) => Menu::Account(id),
        Task::Copy(id) => Menu::Account(id),
        Task::Generate(id) => Menu::Account(id),
        Task::Add(_) => Menu::Database,
        Task::Delete(_) => Menu::Database,
    }
}

/// The kind of a task, and the menu to which the dialog returns from it.
fn leave(task: Task) -> (left: (TaskKind, Menu))
    ensures
        left.0 == task_kind(task),
        left.1 == task_menu(task),
{
    match task {
        Task::Edit(id) => (TaskKind::Edit, Menu::Account(id)),
        Task::Copy(id) => (TaskKind::Copy, Menu::Account(id)),
        Task::Generate(id) => (TaskKind::Generate, Menu::Account(id)),
        Task::Add(_) => (TaskKind::Add, Menu::Database),
        Task::Delete(_) => (TaskKind::Delete, Menu::Database),
    }
}

/// A task that the dialog may carry out.
spec fn task_allowed(task: Task) -> bool {
    task matches Task::Add(draft) ==> draft_allowed(draft)
}

/// Before a task: the passkey must not be empty; then the stored file is read to try
/// it on.
fn on_passkey(path: Option<String>, database: Option<Database>, task: Task, passkey: String) -> (next:
    (CLI, Turn))
    ensures
        passkey_rule(accounts_of(database), file_of(path), task, passkey, next.0, next.1),
        orderly(next),
        runs(next),
        !(next.1.action matches Action::Fail(Failure::Seal(_))),
        task_allowed(task) ==> quiet(next, path, database),
        next.0.stage.awaited() matches Some(held) ==> held == passkey@,
{
    if passkey.as_str().is_empty() {
        let (_, then) = leave(task);
        pause(path, database, then, vec![Notice::PasskeyEmpty])
    } else {
        let target = match &path {
            Some(file) => Some(file.clone()),
            None => None,
        };
        match target {
            Some(file) => proceed(
                path,
                database,
                Stage::Verify { task, passkey },
                Vec::new(),
                Action::ReadFile(file),
            ),
            None => {
                let (_, then) = leave(task);
                pause(path, database, then, vec![Notice::NoDatabase])
            },
        }
    }
}

/// Seals the database that was changed and asks for the file to be written.
fn save(path: String, database: Database, passkey: &str, then: Menu, added: bool, notices: Vec<Notice>) -> (next:
    (CLI, Turn))
    ensures
        change_rule(Some(path@), passkey@, database@, then, added, next.0, next.1),
        next.0.current_database_path == Some(path),
        next.0.current_database == Some(database),
        next.0.stage.unlocked() is None,
        next.0.stage.settled(),
        !(next.1.action is Copy),
        orderly(next),
        runs(next),
        database.wf() ==> kept(next.0, next.1.action, passkey@),
        database.wf() && next.1.action is WriteFile ==> saves(next.0, next.1.action, passkey@),
{
    match seal_database(&database, passkey) {
        Ok(text) => {
            let target = path.clone();
            proceed(
                Some(path),
                Some(database),
                Stage::Saving { then, added },
                notices,
                Action::WriteFile { path: target, text },
            )
        },
        Err(error) => fail(Some(path), Some(database), notices, Failure::Seal(error)),
    }
}

/// The accounts of a database, if there is one.
spec fn accounts_of(database: Option<Database>) -> Option<Seq<AccountView>> {
    match database {
        Some(open) => Some(open@),
        None => None,
    }
}

/// The characters of a path, if there is one.
spec fn file_of(path: Option<String>) -> Option<Seq<char>> {
    match path {
        Some(text) => Some(text@),
        None => None,
    }
}

/// What the step that tried the passkey on the stored file may have done.
spec fn verified(
    next: (CLI, Turn),
    path: Option<String>,
    database: Option<Database>,
    passkey: Seq<char>,
    content: Option<Vec<u8>>,
) -> bool {
    let opens = content matches Some(text) && opened_store(text@, passkey) is Ok;
    &&& next.0.current_database_path == path
    &&& next.0.stage.unlocked() matches Some(held) ==> held == passkey && opens
    &&& next.0.stage.settled()
    &&& sound(path, database) ==> sound(next.0.current_database_path, next.0.current_database)
    &&& sound(path, database) && next.0.store() != accounts_of(database) ==> {
        &&& opens
        &&& kept(next.0, next.1.action, passkey)
        &&& database matches Some(old)
        &&& next.0.store() matches Some(new)
        &&& mutation(old@, new)
    }
    &&& sound(path, database) && next.1.action is WriteFile ==> opens && saves(
        next.0,
        next.1.action,
        passkey,
    )
    &&& next.1.action matches Action::Copy(text) ==> {
        &&& opens
        &&& database matches Some(open)
        &&& holds_password(open@, text@)
    }
    &&& runs(next)
}

/// The password that is stored under an id: that of the first account with the id
/// in the database that is open, and none where no database is open or no account
/// has the id.
pub open spec fn stored_password(database: Option<Database>, id: Seq<char>) -> Option<Seq<char>> {
    match database {
        Some(open) => match crate::models::find_by_id(open@, id) {
            Some(account) => Some(account.password),
            None => None,
        },
        None => None,
    }
}

/// The password of the account with the id, where a database is open and has one.
fn password_of(database: &Option<Database>, id: &str) -> (password: Option<String>)
    ensures
        stored_password(*database, id@) == password_in(accounts_of(*database), id@),
        password is Some <==> stored_password(*database, id@) is Some,
        password matches Some(text) ==> stored_password(*database, id@) == Some(text@),
        password matches Some(text) ==> database matches Some(open) && holds_password(
            open@,
            text@,
        ),
{
    match database {
        Some(open) => match open.get_account_by_id(id) {
            Some(account) => {
                proof {
                    crate::models::first_with_id_exists(open@, id@);
                    let i = choose|i: int| crate::models::is_first_with_id(open@, id@, i);
                    assert(open@[i] == account@);
                }
                Some(account.get_password().to_owned())
            },
            None => None,
        },
        None => None,
    }
}

/// Before a task: the stored file must open under the passkey. Then the task goes
/// on; an account is added at once.
fn on_verify(
    path: Option<String>,
    database: Option<Database>,
    task: Task,
    passkey: String,
    content: Option<Vec<u8>>,
) -> (next: (CLI, Turn))
    ensures
        verify_rule(accounts_of(database), file_of(path), task, passkey, content, next.0, next.1),
        orderly(next),
        runs(next),
        task_allowed(task) ==> verified(next, path, database, passkey@, content),
{
    let opens = match &content {
        Some(text) => open_database(text.as_slice(), passkey.as_str()).is_ok(),
        None => false,
    };
    if !opens {
        let (kind, then) = leave(task);
        return pause(path, database, then, vec![Notice::PasskeyRefused(kind)]);
    }
    match task {
        Task::Edit(id) => {
            let current = match &database {
                Some(open) => match open.get_account_by_id(id.as_str()) {
                    Some(account) => Some(account.get_username_or_email().to_owned()),
                    None => None,
                },
                None => None,
            };
            match current {
                Some(name) => proceed(
                    path,
                    database,
                    Stage::EditUsername { id, passkey },
                    vec![Notice::CurrentUsername(name)],
                    Action::ReadLine(Prompt::NewUsername),
                ),
                None => missing(path, database, Menu::Account(id)),
            }
        },
        Task::Copy(id) => {
            let secret = password_of(&database, id.as_str());
            match secret {
                Some(password) => proceed(
                    path,
                    database,
                    Stage::Copying { id },
                    Vec::new(),
                    Action::Copy(password),
                ),
                None => missing(path, database, Menu::Account(id)),
            }
        },
        Task::Generate(id) => {
            if knows(&database, id.as_str()) {
                let password = generate_random_password();
                let shown = password.clone();
                proceed(
                    path,
                    database,
                    Stage::GenerateConfirm { id, passkey, password },
                    vec![Notice::GeneratedPassword(shown)],
                    Action::ReadLine(Prompt::SetGenerated),
                )
            } else {
                missing(path, database, Menu::Account(id))
            }
        },
        Task::Add(draft) => {
            match (path, database) {
                (Some(file), Some(open)) => {
                    let mut open = open;
                    let Draft { username_or_email, description, password } = draft;
                    match open.create_account(username_or_email, description, password) {
                        Some(_) => save(
                            file,
                            open,
                            passkey.as_str(),
                            Menu::Database,
                            true,
                            Vec::new(),
                        ),
                        None => pause(
                            Some(file),
                            Some(open),
                            Menu::Database,
                            vec![Notice::AccountNotAdded],
                        ),
                    }
                },
                (path, database) => missing(path, database, Menu::Database),
            }
        },
        Task::Delete(id) => proceed(
            path,
            database,
            Stage::DeleteConfirm { id, passkey },
            Vec::new(),
            Action::ReadLine(Prompt::ConfirmDelete),
        ),
    }
}

/// Tells that the account, or the database, is not there, and waits.
fn missing(path: Option<String>, database: Option<Database>, then: Menu) -> (next: (CLI, Turn))
    ensures
        next.0.stage == (Stage::Pause { then }),
        quiet(next, path, database),
        next.0.stage is Pause,
{
    if database.is_some() {
        pause(path, database, then, vec![Notice::AccountNotFound])
    } else {
        pause(path, database, then, vec![Notice::NoDatabase])
    }
}

/// What a step under a proved passkey may have done.
spec fn changed(next: (CLI, Turn), path: Option<String>, database: Option<Database>, passkey: Seq<char>) -> bool {
    &&& next.0.current_database_path == path
    &&& next.0.stage.unlocked() matches Some(held) ==> held == passkey
    &&& next.0.stage.settled()
    &&& sound(path, database) ==> sound(next.0.current_database_path, next.0.current_database)
    &&& sound(path, database) && next.0.store() != accounts_of(database) ==> {
        &&& kept(next.0, next.1.action, passkey)
        &&& database matches Some(old)
        &&& next.0.store() matches Some(new)
        &&& mutation(old@, new)
    }
    &&& sound(path, database) && next.1.action is WriteFile ==> saves(
        next.0,
        next.1.action,
        passkey,
    )
    &&& !(next.1.action is Copy)
    &&& runs(next)
}

/// Editing: an empty line keeps the username.
fn on_edit_username(
    path: Option<String>,
    database: Option<Database>,
    id: String,
    passkey: String,
    line: String,
) -> (next: (CLI, Turn))
    ensures
        edit_username_rule(accounts_of(database), file_of(path), id, passkey, line, next.0),
        still(next, path, database, passkey@),
{
    let username_or_email = if line.as_str().is_empty() {
        None
    } else {
        Some(line)
    };
    let edit = AccountEdit { username_or_email, description: DescriptionChange::Keep, password: None };
    let current = match &database {
        Some(open) => match open.get_account_by_id(id.as_str()) {
            Some(account) => shown_description(account.get_description()),
            None => String::new(),
        },
        None => String::new(),
    };
    proceed(
        path,
        database,
        Stage::EditDescription { id, passkey, edit },
        vec![Notice::CurrentDescription(current)],
        Action::ReadLine(Prompt::NewDescription),
    )
}

/// Editing: asks whether the password is to change.
fn ask_edit_password(
    path: Option<String>,
    database: Option<Database>,
    id: String,
    passkey: String,
    edit: AccountEdit,
) -> (next: (CLI, Turn))
    ensures
        stays(accounts_of(database), file_of(path), next.0, Stage::EditPassword { id, passkey, edit }),
        orderly(next),
        runs(next),
        !(next.1.action matches Action::Fail(Failure::Seal(_))),
        edit.password is None ==> still(next, path, database, passkey@),
{
    proceed(
        path,
        database,
        Stage::EditPassword { id, passkey, edit },
        vec![Notice::EditPasswordQuestion],
        Action::ReadLine(Prompt::EditPassword),
    )
}

/// Editing: a line that is not empty replaces the description; on an empty line the
/// user is asked whether to keep a description that is there.
fn on_edit_description(
    path: Option<String>,
    database: Option<Database>,
    id: String,
    passkey: String,
    edit: AccountEdit,
    line: String,
) -> (next: (CLI, Turn))
    ensures
        edit_description_rule(accounts_of(database), file_of(path), id, passkey, edit, line, next.0),
        orderly(next),
        runs(next),
        !(next.1.action matches Action::Fail(Failure::Seal(_))),
        edit.password is None ==> still(next, path, database, passkey@),
{
    let mut edit = edit;
    if !line.as_str().is_empty() {
        edit.description = DescriptionChange::Replace(line);
        return ask_edit_password(path, database, id, passkey, edit);
    }
    let described = match &database {
        Some(open) => match open.get_account_by_id(id.as_str()) {
            Some(account) => match account.get_description() {
                Some(text) => !text.as_str().is_empty(),
                None => false,
            },
            None => false,
        },
        None => false,
    };
    if described {
        proceed(
            path,
            database,
            Stage::EditKeep { id, passkey, edit },
            Vec::new(),
            Action::ReadLine(Prompt::KeepDescription),
        )
    } else {
        ask_edit_password(path, database, id, passkey, edit)
    }
}

/// Editing: the description is cleared on the answer no and kept on any other.
fn on_edit_keep(
    path: Option<String>,
    database: Option<Database>,
    id: String,
    passkey: String,
    edit: AccountEdit,
    line: String,
) -> (next: (CLI, Turn))
    ensures
        edit_keep_rule(accounts_of(database), file_of(path), id, passkey, edit, line, next.0),
        orderly(next),
        runs(next),
        !(next.1.action matches Action::Fail(Failure::Seal(_))),
        edit.password is None ==> still(next, path, database, passkey@),
{
    let mut edit = edit;
    if answers_no(line.as_str()) {
        edit.description = DescriptionChange::Clear;
    }
    ask_edit_password(path, database, id, passkey, edit)
}

/// Makes the edit and asks for the file to be written.
fn finish_edit(
    path: Option<String>,
    database: Option<Database>,
    id: String,
    passkey: String,
    edit: AccountEdit,
    notices: Vec<Notice>,
) -> (next: (CLI, Turn))
    ensures
        edit_rule(accounts_of(database), file_of(path), id, passkey, edit, next.0, next.1),
        orderly(next),
        runs(next),
        edit_allowed(edit) ==> changed(next, path, database, passkey@),
{
    match (path, database) {
        (Some(file), Some(open)) => {
            let mut open = open;
            let mut notices = notices;
            if open.edit_account(id.as_str(), edit) {
                notices.push(Notice::AccountUpdated);
                save(file, open, passkey.as_str(), Menu::Account(id), false, notices)
            } else {
                notices.push(Notice::AccountNotFound);
                pause(Some(file), Some(open), Menu::Account(id), notices)
            }
        },
        (path, database) => missing(path, database, Menu::Account(id)),
    }
}

/// Editing: on the answer yes the password changes, on any other the edit is made.
fn on_edit_password(
    path: Option<String>,
    database: Option<Database>,
    id: String,
    passkey: String,
    edit: AccountEdit,
    line: String,
) -> (next: (CLI, Turn))
    ensures
        edit_password_rule(accounts_of(database), file_of(path), id, passkey, edit, line, next.0, next.1),
        orderly(next),
        runs(next),
        edit.password is None ==> changed(next, path, database, passkey@),
{
    if answers_yes(line.as_str()) {
        proceed(
            path,
            database,
            Stage::EditPasswordAction { id, passkey, edit },
            Vec::new(),
            Action::ReadLine(Prompt::PasswordAction),
        )
    } else {
        finish_edit(path, database, id, passkey, edit, Vec::new())
    }
}

/// Editing: the new password is typed or generated; on any other choice the
/// password stays.
fn on_edit_password_action(
    path: Option<String>,
    database: Option<Database>,
    id: String,
    passkey: String,
    edit: AccountEdit,
    line: String,
) -> (next: (CLI, Turn))
    ensures
        edit_password_action_rule(accounts_of(database), file_of(path), id, passkey, edit, line, next.0, next.1),
        orderly(next),
        runs(next),
        edit.password is None ==> changed(next, path, database, passkey@),
{
    if same_text(line.as_str(), "1") {
        proceed(
            path,
            database,
            Stage::EditPasswordEnter { id, passkey, edit },
            Vec::new(),
            Action::ReadSecret(Prompt::NewPassword),
        )
    } else if same_text(line.as_str(), "2") {
        let mut edit = edit;
        let password = generate_random_password();
        let shown = password.clone();
        edit.password = Some(password);
        finish_edit(
            path,
            database,
            id,
            passkey,
            edit,
            vec![Notice::GeneratedPassword(shown), Notice::PasswordUpdated],
        )
    } else {
        finish_edit(path, database, id, passkey, edit, vec![Notice::PasswordChoiceInvalid])
    }
}

/// Editing: a typed password must meet the password rule.
fn on_edit_password_enter(
    path: Option<String>,
    database: Option<Database>,
    id: String,
    passkey: String,
    edit: AccountEdit,
    password: String,
) -> (next: (CLI, Turn))
    ensures
        edit_password_enter_rule(accounts_of(database), file_of(path), id, passkey, edit, password, next.0, next.1),
        orderly(next),
        runs(next),
        edit.password is None ==> changed(next, path, database, passkey@),
{
    if is_password_valid(password.as_str()) {
        let mut edit = edit;
        edit.password = Some(password);
        finish_edit(path, database, id, passkey, edit, vec![Notice::PasswordUpdated])
    } else {
        proceed(
            path,
            database,
            Stage::EditPasswordEnter { id, passkey, edit },
            vec![Notice::PasswordRule],
            Action::ReadSecret(Prompt::NewPassword),
        )
    }
}

/// Generating: the generated password is set on the answer yes only.
fn on_generate_confirm(
    path: Option<String>,
    database: Option<Database>,
    id: String,
    passkey: String,
    password: String,
    line: String,
) -> (next: (CLI, Turn))
    ensures
        generate_confirm_rule(accounts_of(database), file_of(path), id, passkey, password, line, next.0, next.1),
        orderly(next),
        runs(next),
        password_valid(password@) ==> changed(next, path, database, passkey@),
{
    if !answers_yes(line.as_str()) {
        return pause(path, database, Menu::Account(id), vec![Notice::PasswordNotUpdated]);
    }
    match (path, database) {
        (Some(file), Some(open)) => {
            let mut open = open;
            let edit = AccountEdit {
                username_or_email: None,
                description: DescriptionChange::Keep,
                password: Some(password),
            };
            if open.edit_account(id.as_str(), edit) {
                save(
                    file,
                    open,
                    passkey.as_str(),
                    Menu::Account(id),
                    false,
                    vec![Notice::PasswordUpdated],
                )
            } else {
                pause(Some(file), Some(open), Menu::Account(id), vec![Notice::AccountNotFound])
            }
        },
        (path, database) => missing(path, database, Menu::Account(id)),
    }
}

/// Deleting: the account is removed on the answer yes only.
fn on_delete_confirm(
    path: Option<String>,
    database: Option<Database>,
    id: String,
    passkey: String,
    line: String,
) -> (next: (CLI, Turn))
    ensures
        delete_confirm_rule(accounts_of(database), file_of(path), id, passkey, line, next.0, next.1),
        orderly(next),
        runs(next),
        changed(next, path, database, passkey@),
{
    if !answers_yes(line.as_str()) {
        return pause(path, database, Menu::Database, vec![Notice::DeletionCancelled]);
    }
    match (path, database) {
        (Some(file), Some(open)) => {
            let mut open = open;
            if open.remove_account(id.as_str()) {
                save(
                    file,
                    open,
                    passkey.as_str(),
                    Menu::Database,
                    false,
                    vec![Notice::AccountDeleted],
                )
            } else {
                pause(Some(file), Some(open), Menu::Database, vec![Notice::AccountNotFound])
            }
        },
        (path, database) => missing(path, database, Menu::Database),
    }
}

/// After a change: once the file is written the dialog returns to its menu; a file
/// that could not be written ends it.
fn on_saving(path: Option<String>, database: Option<Database>, then: Menu, added: bool, written: bool) -> (next:
    (CLI, Turn))
    ensures
        stays(accounts_of(database), file_of(path), next.0, if written { Stage::Pause { then } } else { Stage::Finished }),
        written ==> quiet(next, path, database),
        !written ==> ended(next, path, database, Action::Fail(Failure::Write)),
{
    if !written {
        return fail(path, database, Vec::new(), Failure::Write);
    }
    let mut notices: Vec<Notice> = Vec::new();
    if added {
        notices.push(Notice::AccountAdded);
    }
    notices.push(Notice::ChangesSaved);
    pause(path, database, then, notices)
}

/// Copying: a clipboard that could not be reached ends the dialog.
fn on_copying(path: Option<String>, database: Option<Database>, id: String, copied: bool) -> (next:
    (CLI, Turn))
    ensures
        stays(accounts_of(database), file_of(path), next.0, if copied { Stage::Pause { then: Menu::Account(id) } } else { Stage::Finished }),
        copied ==> quiet(next, path, database),
        !copied ==> ended(next, path, database, Action::Fail(Failure::Clipboard)),
{
    if copied {
        pause(path, database, Menu::Account(id), vec![Notice::PasswordCopied])
    } else {
        fail(path, database, Vec::new(), Failure::Clipboard)
    }
}

/// Adding: asks for the passkey under which the new account is saved.
fn ask_passkey_to_save(path: Option<String>, database: Option<Database>, draft: Draft, notices: Vec<Notice>) -> (next:
    (CLI, Turn))
    ensures
        draft_rule(accounts_of(database), file_of(path), draft, next.0),
        orderly(next),
        runs(next),
        !(next.1.action matches Action::Fail(Failure::Seal(_))),
        draft_allowed(draft) ==> quiet(next, path, database),
{
    if database.is_some() && path.is_some() {
        proceed(
            path,
            database,
            Stage::Passkey { task: Task::Add(draft) },
            notices,
            Action::ReadSecret(Prompt::PasskeyToSave),
        )
    } else {
        let mut notices = notices;
        notices.push(Notice::NoDatabase);
        pause(path, database, Menu::Database, notices)
    }
}

/// Adding: the username must not be empty.
fn on_add_username(path: Option<String>, database: Option<Database>, line: String) -> (next: (
    CLI,
    Turn,
))
    ensures
        stays(accounts_of(database), file_of(path), next.0, if line@.len() > 0 { Stage::AddDescription { username_or_email: line } } else { Stage::Pause { then: Menu::Database } }),
        quiet(next, path, database),
        next.0.stage matches Stage::AddDescription { username_or_email } ==> username_or_email@.len()
            > 0,
{
    if line.as_str().is_empty() {
        pause(path, database, Menu::Database, vec![Notice::UsernameEmpty])
    } else {
        proceed(
            path,
            database,
            Stage::AddDescription { username_or_email: line },
            Vec::new(),
            Action::ReadLine(Prompt::Description),
        )
    }
}

/// Adding: the password is typed or, on any other choice, generated.
fn on_add_password_choice(
    path: Option<String>,
    database: Option<Database>,
    username_or_email: String,
    description: Option<String>,
    line: String,
) -> (next: (CLI, Turn))
    ensures
        add_password_choice_rule(accounts_of(database), file_of(path), username_or_email, description, line, next.0),
        orderly(next),
        runs(next),
        !(next.1.action matches Action::Fail(Failure::Seal(_))),
        username_or_email@.len() > 0 ==> quiet(next, path, database),
{
    if same_text(line.as_str(), "1") {
        return proceed(
            path,
            database,
            Stage::AddPasswordEnter { username_or_email, description },
            Vec::new(),
            Action::ReadSecret(Prompt::Password),
        );
    }
    let mut notices: Vec<Notice> = Vec::new();
    if !same_text(line.as_str(), "2") {
        notices.push(Notice::UsingGeneratedPassword);
    }
    let password = generate_random_password();
    notices.push(Notice::GeneratedPassword(password.clone()));
    ask_passkey_to_save(path, database, Draft { username_or_email, description, password }, notices)
}

/// Adding: a typed password must meet the password rule.
fn on_add_password_enter(
    path: Option<String>,
    database: Option<Database>,
    username_or_email: String,
    description: Option<String>,
    password: String,
) -> (next: (CLI, Turn))
    ensures
        add_password_enter_rule(accounts_of(database), file_of(path), username_or_email, description, password, next.0),
        orderly(next),
        runs(next),
        !(next.1.action matches Action::Fail(Failure::Seal(_))),
        username_or_email@.len() > 0 ==> quiet(next, path, database),
{
    if is_password_valid(password.as_str()) {
        ask_passkey_to_save(
            path,
            database,
            Draft { username_or_email, description, password },
            Vec::new(),
        )
    } else {
        proceed(
            path,
            database,
            Stage::AddPasswordEnter { username_or_email, description },
            vec![Notice::PasswordRule],
            Action::ReadSecret(Prompt::Password),
        )
    }
}

/// Deleting: the account with the id that was typed must be there.
fn on_delete_id(path: Option<String>, database: Option<Database>, id: String) -> (next: (CLI, Turn))
    ensures
        stays(accounts_of(database), file_of(path), next.0, if known(accounts_of(database), id@) { Stage::Passkey { task: Task::Delete(id) } } else { Stage::Pause { then: Menu::Database } }),
        quiet(next, path, database),
{
    if knows(&database, id.as_str()) {
        proceed(
            path,
            database,
            Stage::Passkey { task: Task::Delete(id) },
            Vec::new(),
            Action::ReadSecret(Prompt::Passkey),
        )
    } else {
        missing(path, database, Menu::Database)
    }
}

impl CLI {
    /// One step of the dialog: takes what the shell reports and says what to show
    /// and what to do next. An event that the dialog did not ask for ends it with
    /// `Failure::UnexpectedEvent`.
    ///
    /// `stage_rule` says for each stage and event where the dialog stands afterwards,
    /// what the database then holds and what the shell is asked to do; `ends_rule`
    /// says when the dialog ends; `step_rule` says what holds of every step. What is
    /// shown is not part of the contract.
    pub fn step(self, event: Event) -> (next: (CLI, Turn))
        ensures
            in_step(self, event, next.0, next.1),
            ends_rule(self, event, next.1),
            stage_rule(self, event, next.0, next.1),
            step_rule(self, event, next.0, next.1),
    {
        let CLI { current_database_path: path, current_database: database, stage } = self;
        assert(self.wf() == (sound(path, database) && stage.settled()));
        assert(self.store() == accounts_of(database));
        assert(self.file() == file_of(path));
        match (stage, event) {
            (Stage::Start, Event::Started) => on_start(path, database),
            (Stage::MainChoice, Event::Line(line)) => on_main_choice(path, database, line),
            (Stage::CreateName, Event::Line(name)) => proceed(
                path,
                database,
                Stage::CreatePath,
                Vec::new(),
                Action::ResolveNewPath(name),
            ),
            (Stage::CreatePath, Event::NewPath { path: file, exists }) => on_create_path(
                path,
                database,
                file,
                exists,
            ),
            (Stage::CreatePasskey { path: file }, Event::Secret(passkey)) => on_create_passkey(
                path,
                database,
                file,
                passkey,
            ),
            (
                Stage::CreateConfirm { path: file, passkey },
                Event::Secret(confirmation),
            ) => on_create_confirm(path, database, file, passkey, confirmation),
            (Stage::CreateSave { path: file }, Event::Written(written)) => on_create_save(
                path,
                database,
                file,
                written,
            ),
            (Stage::OpenPath, Event::Line(file)) => {
                let target = file.clone();
                proceed(
                    path,
                    database,
                    Stage::OpenCheck { path: file },
                    Vec::new(),
                    Action::CheckPath(target),
                )
            },
            (Stage::OpenCheck { path: file }, Event::Exists(exists)) => on_open_check(
                path,
                database,
                file,
                exists,
            ),
            (Stage::OpenPasskey { path: file }, Event::Secret(passkey)) => on_open_passkey(
                path,
                database,
                file,
                passkey,
            ),
            (Stage::OpenRead { path: file, passkey }, Event::FileRead(content)) => on_open_read(
                path,
                database,
                file,
                passkey,
                content,
            ),
            (Stage::Pause { then }, Event::Line(_)) => resume(path, database, then, Vec::new()),
            (Stage::DatabaseChoice, Event::Line(line)) => on_database_choice(path, database, line),
            (Stage::ViewId, Event::Line(id)) => on_view_id(path, database, id),
            (Stage::AccountChoice { id }, Event::Line(line)) => on_account_choice(
                path,
                database,
                id,
                line,
            ),
            (Stage::Passkey { task }, Event::Secret(passkey)) => on_passkey(
                path,
                database,
                task,
                passkey,
            ),
            (Stage::Verify { task, passkey }, Event::FileRead(content)) => on_verify(
                path,
                database,
                task,
                passkey,
                content,
            ),
            (Stage::EditUsername { id, passkey }, Event::Line(line)) => on_edit_username(
                path,
                database,
                id,
                passkey,
                line,
            ),
            (Stage::EditDescription { id, passkey, edit }, Event::Line(line)) => on_edit_description(
                path,
                database,
                id,
                passkey,
                edit,
                line,
            ),
            (Stage::EditKeep { id, passkey, edit }, Event::Line(line)) => on_edit_keep(
                path,
                database,
                id,
                passkey,
                edit,
                line,
            ),
            (Stage::EditPassword { id, passkey, edit }, Event::Line(line)) => on_edit_password(
                path,
                database,
                id,
                passkey,
                edit,
                line,
            ),
            (
                Stage::EditPasswordAction { id, passkey, edit },
                Event::Line(line),
            ) => on_edit_password_action(path, database, id, passkey, edit, line),
            (
                Stage::EditPasswordEnter { id, passkey, edit },
                Event::Secret(password),
            ) => on_edit_password_enter(path, database, id, passkey, edit, password),
            (Stage::Saving { then, added }, Event::Written(written)) => on_saving(
                path,
                database,
                then,
                added,
                written,
            ),
            (Stage::Copying { id }, Event::Copied(copied)) => on_copying(path, database, id, copied),
            (
                Stage::GenerateConfirm { id, passkey, password },
                Event::Line(line),
            ) => on_generate_confirm(path, database, id, passkey, password, line),
            (Stage::AddUsername, Event::Line(line)) => on_add_username(path, database, line),
            (Stage::AddDescription { username_or_email }, Event::Line(line)) => proceed(
                path,
                database,
                Stage::AddPasswordChoice {
                    username_or_email,
                    description: description_from_input(line),
                },
                Vec::new(),
                Action::ReadLine(Prompt::PasswordChoice),
            ),
            (
                Stage::AddPasswordChoice { username_or_email, description },
                Event::Line(line),
            ) => on_add_password_choice(path, database, username_or_email, description, line),
            (
                Stage::AddPasswordEnter { username_or_email, description },
                Event::Secret(password),
            ) => on_add_password_enter(path, database, username_or_email, description, password),
            (Stage::DeleteId, Event::Line(id)) => on_delete_id(path, database, id),
            (Stage::DeleteConfirm { id, passkey }, Event::Line(line)) => on_delete_confirm(
                path,
                database,
                id,
                passkey,
                line,
            ),
            (_, _) => unexpected(path, database),
        }
    }
}

} // verus!
