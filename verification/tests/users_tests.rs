use auth_core::users::emails_equivalent;
use auth_core::users::map_user_to_response;
use auth_core::users::RepoError;
use auth_core::users::UpdateUserSchema;
use auth_core::users::User;
use auth_core::users::UserRepository;
use auth_core::users::UserRole;

fn record(id: u128, email: &str) -> User {
    User {
        id,
        first_name: "Ada".to_string(),
        last_name: "Lovelace".to_string(),
        email: email.to_string(),
        password: "$argon2id$stored-hash".to_string(),
        role: UserRole::USER,
        created_at: None,
        updated_at: None,
    }
}

fn update_fields(first: &str, last: &str, email: &str) -> UpdateUserSchema {
    UpdateUserSchema {
        first_name: first.to_string(),
        last_name: last.to_string(),
        email: email.to_string(),
        password: String::new(),
        role: UserRole::USER,
    }
}

#[test]
fn email_comparison_folds_ascii_case() {
    assert!(emails_equivalent("Ada@X.com", "ada@x.COM"));
    assert!(emails_equivalent("", ""));
    assert!(!emails_equivalent("a@x.com", "b@x.com"));
    assert!(!emails_equivalent("a@x.com", "a@x.com "));
    // Folding is ASCII only: non-ASCII characters compare exactly.
    assert!(!emails_equivalent("å@x.com", "Å@x.com"));
}

#[test]
fn insert_and_find() {
    let mut repo = UserRepository::new();
    repo.insert(record(1, "a@x.com")).expect("insert succeeds");
    repo.insert(record(2, "b@x.com")).expect("insert succeeds");
    assert_eq!(repo.user_count(), 2);
    assert_eq!(repo.find_by_email("A@X.COM").map(|u| u.id), Some(1));
    assert_eq!(repo.find_by_email("c@x.com").map(|u| u.id), None);
    assert_eq!(repo.find_by_id(2).map(|u| u.email.clone()), Some("b@x.com".to_string()));
    assert!(repo.find_by_id(3).is_none());
}

#[test]
fn insert_rejects_duplicates() {
    let mut repo = UserRepository::new();
    repo.insert(record(1, "a@x.com")).expect("insert succeeds");
    assert_eq!(repo.insert(record(2, "A@x.com")), Err(RepoError::DuplicateEmail));
    assert_eq!(repo.insert(record(1, "b@x.com")), Err(RepoError::DuplicateId));
    assert_eq!(repo.user_count(), 1);
}

#[test]
fn update_applies_names_and_email_and_keeps_the_rest() {
    let mut repo = UserRepository::new();
    repo.insert(record(1, "a@x.com")).expect("insert succeeds");
    repo.update(1, &update_fields("Grace", "Hopper", "g@x.com")).expect("update succeeds");
    let u = repo.find_by_id(1).expect("record exists");
    assert_eq!(u.first_name, "Grace");
    assert_eq!(u.last_name, "Hopper");
    assert_eq!(u.email, "g@x.com");
    assert_eq!(u.password, "$argon2id$stored-hash");
    assert_eq!(u.id, 1);
}

#[test]
fn update_rejects_an_absent_id_and_a_colliding_email() {
    let mut repo = UserRepository::new();
    repo.insert(record(1, "a@x.com")).expect("insert succeeds");
    repo.insert(record(2, "b@x.com")).expect("insert succeeds");
    assert_eq!(
        repo.update(3, &update_fields("G", "H", "c@x.com")),
        Err(RepoError::NotFound)
    );
    assert_eq!(
        repo.update(2, &update_fields("G", "H", "A@x.com")),
        Err(RepoError::DuplicateEmail)
    );
    // Updating a record to its own email is allowed.
    assert!(repo.update(2, &update_fields("G", "H", "B@x.com")).is_ok());
}

#[test]
fn delete_removes_exactly_the_record() {
    let mut repo = UserRepository::new();
    repo.insert(record(1, "a@x.com")).expect("insert succeeds");
    repo.insert(record(2, "b@x.com")).expect("insert succeeds");
    assert_eq!(repo.delete(3), Err(RepoError::NotFound));
    assert_eq!(repo.delete(1), Ok(()));
    assert_eq!(repo.user_count(), 1);
    assert!(repo.find_by_id(1).is_none());
    assert!(repo.find_by_id(2).is_some());
    assert_eq!(repo.delete(1), Err(RepoError::NotFound));
}

#[test]
fn responses_carry_everything_but_the_password() {
    let mut repo = UserRepository::new();
    repo.insert(record(1, "a@x.com")).expect("insert succeeds");
    let all = repo.all_responses();
    assert_eq!(all.len(), 1);
    assert_eq!(all[0].id, 1);
    assert_eq!(all[0].email, "a@x.com");
    assert_eq!(all[0].first_name, "Ada");

    let direct = map_user_to_response(repo.find_by_id(1).expect("record exists"));
    assert_eq!(direct.id, 1);
    assert_eq!(direct.last_name, "Lovelace");
}
