use fp_vault::models::generate_id;
use fp_vault::models::id_from_seed;
use fp_vault::models::push_decimal;
use fp_vault::models::unix_seconds;
use fp_vault::models::Account;
use fp_vault::models::AccountEdit;
use fp_vault::models::Database;
use fp_vault::models::DescriptionChange;

fn is_hex_id(id: &str) -> bool {
    id.len() == 8 && id.chars().all(|c| c.is_ascii_digit() || ('a'..='f').contains(&c))
}

fn sample(id: &str, user: &str) -> Account {
    Account::with_id(id.to_string(), user.to_string(), None, "pw".to_string())
}

#[test]
fn new_database_is_empty() {
    let db = Database::new();
    assert_eq!(db.len(), 0);
    assert!(db.get_accounts().is_empty());
}

#[test]
fn create_then_find_returns_supplied_fields() {
    let mut db = Database::new();
    let id = db
        .create_account(
            "alice@example.com".to_string(),
            Some("mail".to_string()),
            "S3cret!passw0rd#".to_string(),
        )
        .unwrap();
    assert!(is_hex_id(&id));
    let found = db.get_account_by_id(&id).unwrap();
    assert_eq!(found.get_id(), id);
    assert_eq!(found.get_username_or_email(), "alice@example.com");
    assert_eq!(found.get_description(), &Some("mail".to_string()));
    assert_eq!(found.get_password(), "S3cret!passw0rd#");
    assert_eq!(db.len(), 1);
}

#[test]
fn create_without_description_keeps_it_absent() {
    let mut db = Database::new();
    let id = db.create_account("bob".to_string(), None, "pw".to_string()).unwrap();
    assert_eq!(db.get_account_by_id(&id).unwrap().get_description(), &None);
}

#[test]
fn create_never_changes_existing_entries() {
    let mut db = Database::new();
    assert!(db.add_account(sample("aaaaaaaa", "first")));
    let id = db.create_account("second".to_string(), None, "pw2".to_string()).unwrap();
    assert_ne!(id, "aaaaaaaa");
    assert_eq!(db.len(), 2);
    assert_eq!(db.get_accounts()[0], sample("aaaaaaaa", "first"));
    assert_eq!(db.get_accounts()[1].get_username_or_email(), "second");
}

#[test]
fn remove_then_find_returns_none() {
    let mut db = Database::new();
    let id = db.create_account("carol".to_string(), None, "pw".to_string()).unwrap();
    assert!(db.remove_account(&id));
    assert!(db.get_account_by_id(&id).is_none());
    assert_eq!(db.len(), 0);
}

#[test]
fn remove_unknown_id_returns_false_and_keeps_length() {
    let mut db = Database::new();
    db.add_account(sample("00000001", "a"));
    db.add_account(sample("00000002", "b"));
    assert!(!db.remove_account("ffffffff"));
    assert_eq!(db.len(), 2);
    assert_eq!(db.get_accounts()[0], sample("00000001", "a"));
    assert_eq!(db.get_accounts()[1], sample("00000002", "b"));
}

#[test]
fn remove_takes_out_only_the_named_account() {
    let mut db = Database::new();
    db.add_account(sample("00000001", "a"));
    db.add_account(sample("00000002", "b"));
    db.add_account(sample("00000003", "c"));
    assert!(db.remove_account("00000002"));
    assert_eq!(db.len(), 2);
    assert_eq!(db.get_accounts()[0].get_id(), "00000001");
    assert_eq!(db.get_accounts()[1].get_id(), "00000003");
}

#[test]
fn add_account_refuses_an_id_that_is_taken() {
    let mut db = Database::new();
    assert!(db.add_account(sample("0badc0de", "first")));
    assert!(!db.add_account(sample("0badc0de", "second")));
    assert_eq!(db.len(), 1);
    assert_eq!(db.get_account_by_id("0badc0de").unwrap().get_username_or_email(), "first");
}

#[test]
fn list_keeps_insertion_order() {
    let mut db = Database::new();
    db.add_account(sample("00000003", "c"));
    db.add_account(sample("00000001", "a"));
    db.add_account(sample("00000002", "b"));
    let ids: Vec<&str> = db.get_accounts().iter().map(|a| a.get_id()).collect();
    assert_eq!(ids, vec!["00000003", "00000001", "00000002"]);
}

#[test]
fn position_of_finds_the_place() {
    let mut db = Database::new();
    db.add_account(sample("00000003", "c"));
    db.add_account(sample("00000001", "a"));
    assert_eq!(db.position_of("00000001"), Some(1));
    assert_eq!(db.position_of("00000003"), Some(0));
    assert_eq!(db.position_of("00000002"), None);
}

#[test]
fn mutable_handle_updates_in_place() {
    let mut db = Database::new();
    db.add_account(sample("00000001", "a"));
    db.add_account(sample("00000002", "b"));
    {
        let account = db.get_account_by_id_mut("00000002").unwrap();
        account.set_username_or_email("bee".to_string());
        account.set_description(Some("hive".to_string()));
        account.set_password("n3w".to_string());
    }
    let account = db.get_account_by_id("00000002").unwrap();
    assert_eq!(account.get_id(), "00000002");
    assert_eq!(account.get_username_or_email(), "bee");
    assert_eq!(account.get_description(), &Some("hive".to_string()));
    assert_eq!(account.get_password(), "n3w");
    assert_eq!(db.get_accounts()[0], sample("00000001", "a"));
    assert!(db.get_account_by_id_mut("00000009").is_none());
}

#[test]
fn clearing_a_description_differs_from_an_empty_one() {
    let mut account = Account::with_id(
        "00000001".to_string(),
        "a".to_string(),
        Some("note".to_string()),
        "pw".to_string(),
    );
    account.set_description(Some(String::new()));
    assert_eq!(account.get_description(), &Some(String::new()));
    account.set_description(None);
    assert_eq!(account.get_description(), &None);
}

#[test]
fn setters_leave_the_other_fields() {
    let mut account = Account::with_id(
        "00000001".to_string(),
        "a".to_string(),
        Some("note".to_string()),
        "pw".to_string(),
    );
    account.set_password("other".to_string());
    assert_eq!(
        account,
        Account::with_id(
            "00000001".to_string(),
            "a".to_string(),
            Some("note".to_string()),
            "other".to_string()
        )
    );
    account.set_username_or_email("z".to_string());
    assert_eq!(account.get_username_or_email(), "z");
    assert_eq!(account.get_id(), "00000001");
    assert_eq!(account.get_description(), &Some("note".to_string()));
}

#[test]
fn clone_copies_every_field() {
    let account = Account::with_id(
        "00000001".to_string(),
        "a".to_string(),
        Some("note".to_string()),
        "pw".to_string(),
    );
    assert_eq!(account.clone(), account);
}

#[test]
fn account_new_keeps_fields_and_draws_an_id() {
    let account = Account::new("dave".to_string(), Some("d".to_string()), "pw".to_string());
    assert!(is_hex_id(account.get_id()));
    assert_eq!(account.get_username_or_email(), "dave");
    assert_eq!(account.get_description(), &Some("d".to_string()));
    assert_eq!(account.get_password(), "pw");
}

#[test]
fn generated_ids_are_eight_hex_digits() {
    for _ in 0..50 {
        assert!(is_hex_id(&generate_id()));
    }
}

#[test]
fn id_from_seed_is_the_head_of_the_digest() {
    assert_eq!(id_from_seed(1700000000, 1234), "73f0a67e");
    assert_eq!(id_from_seed(0, 0), "f1534392");
    assert_eq!(id_from_seed(u64::MAX, u32::MAX - 1), "76a922a6");
}

#[test]
fn unix_seconds_is_the_present() {
    let reference = std::time::SystemTime::now()
        .duration_since(std::time::UNIX_EPOCH)
        .unwrap()
        .as_secs();
    let seconds = unix_seconds();
    assert!(seconds >= reference);
    assert!(seconds - reference < 60);
}

#[test]
fn edit_account_changes_what_the_edit_names() {
    let mut db = Database::new();
    db.add_account(sample("00000001", "a"));
    db.add_account(Account::with_id(
        "00000002".to_string(),
        "b".to_string(),
        Some("note".to_string()),
        "pw".to_string(),
    ));
    let keep = AccountEdit {
        username_or_email: None,
        description: DescriptionChange::Keep,
        password: None,
    };
    assert!(db.edit_account("00000002", keep));
    assert_eq!(db.get_accounts()[1].get_description(), &Some("note".to_string()));
    let change = AccountEdit {
        username_or_email: Some("bee".to_string()),
        description: DescriptionChange::Clear,
        password: Some("other".to_string()),
    };
    assert!(db.edit_account("00000002", change));
    assert_eq!(
        db.get_accounts()[1],
        Account::with_id("00000002".to_string(), "bee".to_string(), None, "other".to_string())
    );
    assert_eq!(db.get_accounts()[0], sample("00000001", "a"));
    let replace = AccountEdit {
        username_or_email: None,
        description: DescriptionChange::Replace("new".to_string()),
        password: None,
    };
    assert!(db.edit_account("00000001", replace));
    assert_eq!(db.get_accounts()[0].get_description(), &Some("new".to_string()));
    assert_eq!(db.get_accounts()[0].get_password(), "pw");
    let unknown = AccountEdit {
        username_or_email: Some("x".to_string()),
        description: DescriptionChange::Clear,
        password: None,
    };
    assert!(!db.edit_account("0000000f", unknown));
    assert_eq!(db.len(), 2);
}

#[test]
fn push_decimal_writes_the_number() {
    let mut out = String::from("n=");
    push_decimal(&mut out, 0);
    push_decimal(&mut out, 7);
    push_decimal(&mut out, 1234567890);
    push_decimal(&mut out, u64::MAX);
    assert_eq!(out, "n=07123456789018446744073709551615");
}

#[test]
fn from_accounts_refuses_shared_ids() {
    let unique = vec![sample("00000001", "a"), sample("00000002", "b")];
    let db = Database::from_accounts(unique).unwrap();
    assert_eq!(db.len(), 2);
    let shared = vec![sample("00000001", "a"), sample("00000002", "b"), sample("00000001", "c")];
    assert!(Database::from_accounts(shared).is_none());
    assert_eq!(Database::from_accounts(Vec::new()).unwrap().len(), 0);
}
