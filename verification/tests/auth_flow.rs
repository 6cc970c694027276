use todo_auth::auth::{find_by_exact_username, login_check, register_finish, register_prepare,
    NewUser, User};
use todo_auth::authz::{authorize, AuthOutcome, AuthenticatedUser};
use todo_auth::errors::{AuthError, HashError, UniqueViolation};
use todo_auth::flash::{add_task_flash, create_account_flash, delete_task_flash, edit_task_flash,
    flash_error, flash_success, login_error, logout, redirect_to_login, verify_account_flash,
    FlashKind};
use todo_auth::hasher::{hash, verify};
use todo_auth::session::{set_user_id_cookie, SessionJar, SessionKey};
use todo_auth::tasks::{apply_edit, authorize_owns_task, list_owned_tasks, new_task_for, Task};

const SALT: &[u8] = b"per-user-salt";

fn test_key() -> SessionKey {
    let bytes: Vec<u8> = (0u8..64u8).collect();
    SessionKey::new(bytes).expect("64 bytes make a key")
}

#[test]
fn hash_then_verify_succeeds() {
    let password = b"secret123".to_vec();
    let encoded = hash(&password, &SALT.to_vec()).expect("valid salt");
    assert_eq!(verify(&encoded, &password), Ok(true));
}

#[test]
fn wrong_password_does_not_verify() {
    let encoded = hash(&b"secret123".to_vec(), &SALT.to_vec()).expect("valid salt");
    assert_eq!(verify(&encoded, &b"wrongpass".to_vec()), Ok(false));
    assert_eq!(verify(&encoded, &b"secret12".to_vec()), Ok(false));
    assert_eq!(verify(&encoded, &b"".to_vec()), Ok(false));
}

#[test]
fn hashing_is_deterministic_per_salt() {
    let password = b"secret123".to_vec();
    let a = hash(&password, &SALT.to_vec()).unwrap();
    let b = hash(&password, &SALT.to_vec()).unwrap();
    let c = hash(&password, &b"othersalt".to_vec()).unwrap();
    assert_eq!(a, b);
    assert_ne!(a, c);
}

#[test]
fn short_salt_is_rejected() {
    assert_eq!(hash(&b"pw".to_vec(), &b"salty".to_vec()), Err(HashError));
}

#[test]
fn malformed_hash_fails_verification() {
    assert_eq!(verify(&String::from("not an encoded hash"), &b"pw".to_vec()), Err(HashError));
}

fn signup(store: &mut Vec<User>, username: &str, password: &[u8]) -> Result<User, AuthError> {
    let prepared: NewUser =
        register_prepare(username.to_string(), &password.to_vec(), &SALT.to_vec())?;
    // The store's uniqueness guarantee, as a database enforces it.
    let verdict = if store.iter().any(|u| u.username == prepared.username) {
        Err(UniqueViolation)
    } else {
        let user = User {
            id: store.len() as i32 + 1,
            username: prepared.username,
            password_hash: prepared.password_hash,
        };
        store.push(User {
            id: user.id,
            username: user.username.clone(),
            password_hash: user.password_hash.clone(),
        });
        Ok(user)
    };
    register_finish(verdict)
}

fn login(store: &Vec<User>, username: &str, password: &[u8]) -> Result<i32, AuthError> {
    let stored = find_by_exact_username(store, &username.to_string());
    login_check(stored, &password.to_vec())
}

#[test]
fn signup_then_login_scenario() {
    let mut store: Vec<User> = Vec::new();
    let alice = signup(&mut store, "alice", b"secret123").expect("fresh username");
    assert_eq!(login(&store, "alice", b"secret123"), Ok(alice.id));
    assert_eq!(login(&store, "alice", b"wrongpass"), Err(AuthError::InvalidCredentials));
    assert_eq!(login(&store, "bob", b"secret123"), Err(AuthError::InvalidCredentials));
}

#[test]
fn duplicate_signup_exactly_one_succeeds() {
    let mut store: Vec<User> = Vec::new();
    let first = signup(&mut store, "alice", b"secret123");
    let second = signup(&mut store, "alice", b"hunter2xx");
    assert!(first.is_ok());
    assert_eq!(second.err(), Some(AuthError::DuplicateUsername));
    assert_eq!(store.len(), 1);
}

#[test]
fn lookup_is_exact_not_substring() {
    let mut store: Vec<User> = Vec::new();
    signup(&mut store, "alice-smith", b"secret123").unwrap();
    assert!(find_by_exact_username(&store, &"alice".to_string()).is_none());
    assert!(find_by_exact_username(&store, &"alice-smith".to_string()).is_some());
    assert_eq!(login(&store, "alice", b"secret123"), Err(AuthError::InvalidCredentials));
}

#[test]
fn register_finish_maps_the_store_verdict() {
    let user = User { id: 1, username: "a".to_string(), password_hash: "h".to_string() };
    assert!(register_finish(Ok(user)).is_ok());
    assert_eq!(
        register_finish(Err(UniqueViolation)).err(),
        Some(AuthError::DuplicateUsername)
    );
}

#[test]
fn short_salt_surfaces_as_hashing_failed() {
    let r = register_prepare("alice".to_string(), &b"pw".to_vec(), &b"s".to_vec());
    assert_eq!(r.err(), Some(AuthError::HashingFailed));
}

#[test]
fn valid_cookie_authorizes_its_user() {
    let key = test_key();
    let mut jar = SessionJar { session: None };
    set_user_id_cookie(&mut jar, &key, 5);
    match authorize(&jar, &key) {
        AuthOutcome::Authenticated(user) => assert_eq!(user.user_id, 5),
        AuthOutcome::Anonymous => panic!("a valid cookie must authenticate"),
    }
}

#[test]
fn absent_cookie_forwards_to_anonymous() {
    let key = test_key();
    let jar = SessionJar { session: None };
    assert!(matches!(authorize(&jar, &key), AuthOutcome::Anonymous));
}

#[test]
fn invalid_cookie_behaves_like_no_cookie() {
    let key = test_key();
    let jar = SessionJar { session: Some("tampered".to_string()) };
    assert!(matches!(authorize(&jar, &key), AuthOutcome::Anonymous));
}

#[test]
fn listing_grants_only_the_sessions_tasks() {
    let tasks = vec![
        Task { id: 1, item: "pay rent".to_string(), user_id: 5 },
        Task { id: 2, item: "walk dog".to_string(), user_id: 6 },
        Task { id: 3, item: "buy milk".to_string(), user_id: 5 },
    ];
    let user = AuthenticatedUser { user_id: 5 };
    let mine = list_owned_tasks(&tasks, &user);
    assert_eq!(mine.len(), 2);
    assert_eq!(mine[0].id, 1);
    assert_eq!(mine[1].id, 3);
    assert!(mine.iter().all(|t| t.user_id == 5));

    let other = AuthenticatedUser { user_id: 7 };
    assert!(list_owned_tasks(&tasks, &other).is_empty());
}

#[test]
fn ownership_check_compares_ids() {
    let task = Task { id: 1, item: "pay rent".to_string(), user_id: 5 };
    assert!(authorize_owns_task(&AuthenticatedUser { user_id: 5 }, &task));
    assert!(!authorize_owns_task(&AuthenticatedUser { user_id: 6 }, &task));
}

#[test]
fn new_task_belongs_to_the_session() {
    let t = new_task_for(&AuthenticatedUser { user_id: 5 }, "buy milk".to_string());
    assert_eq!(t.user_id, 5);
    assert_eq!(t.item, "buy milk");
}

#[test]
fn edit_keeps_id_and_owner() {
    let t = Task { id: 3, item: "old".to_string(), user_id: 5 };
    let edited = apply_edit(t, "new text".to_string());
    assert_eq!(edited.id, 3);
    assert_eq!(edited.user_id, 5);
    assert_eq!(edited.item, "new text");
}

#[test]
fn flashes_carry_the_route_messages() {
    let r = redirect_to_login();
    assert_eq!(r.location, "/login");

    let f = login_error();
    assert_eq!(f.kind, FlashKind::Error);
    assert_eq!(f.message, "Incorrect username or password");
    assert_eq!(f.redirect.location, "/login");

    let ok_user = User { id: 1, username: "a".to_string(), password_hash: "h".to_string() };
    let f = create_account_flash(&Ok(ok_user));
    assert_eq!(f.kind, FlashKind::Success);
    assert_eq!(f.message, "Account created successfully!");
    assert_eq!(f.redirect.location, "/login");
    let f = create_account_flash(&Err(AuthError::DuplicateUsername));
    assert_eq!(f.kind, FlashKind::Error);
    assert_eq!(f.message, "Issue creating account");
    assert_eq!(f.redirect.location, "/signup");

    let f = verify_account_flash(&Ok(5));
    assert_eq!(f.kind, FlashKind::Success);
    assert_eq!(f.message, "Logged in successfully!");
    assert_eq!(f.redirect.location, "/");
    let f = verify_account_flash(&Err(AuthError::InvalidCredentials));
    assert_eq!(f.message, "Incorrect username or password");

    assert_eq!(add_task_flash(true).message, "Task created!");
    assert_eq!(add_task_flash(false).message, "Issue creating the task");
    assert_eq!(edit_task_flash(true).message, "Task edited successfully!");
    assert_eq!(edit_task_flash(false).message, "Issue editing the task");
    assert_eq!(delete_task_flash(true).message, "Task successfully deleted!");
    assert_eq!(delete_task_flash(false).message, "Issue deleting the task");

    assert_eq!(flash_success("/x", "m").kind, FlashKind::Success);
    assert_eq!(flash_error("/x", "m").kind, FlashKind::Error);
}

#[test]
fn logout_clears_the_cookie() {
    let key = test_key();
    let mut jar = SessionJar { session: None };
    set_user_id_cookie(&mut jar, &key, 5);
    assert!(jar.session.is_some());
    let f = logout(&mut jar);
    assert!(jar.session.is_none());
    assert_eq!(f.kind, FlashKind::Success);
    assert_eq!(f.message, "Logged out successfully!");
    assert_eq!(f.redirect.location, "/login");
    assert!(matches!(authorize(&jar, &key), AuthOutcome::Anonymous));
}

#[test]
fn cookie_for_user_5_lists_only_user_5_tasks() {
    let key = test_key();
    let mut jar = SessionJar { session: None };
    set_user_id_cookie(&mut jar, &key, 5);
    let user = match authorize(&jar, &key) {
        AuthOutcome::Authenticated(user) => user,
        AuthOutcome::Anonymous => panic!("a valid cookie must authenticate"),
    };
    let tasks = vec![
        Task { id: 1, item: "mine".to_string(), user_id: 5 },
        Task { id: 2, item: "not mine".to_string(), user_id: 6 },
    ];
    let mine = list_owned_tasks(&tasks, &user);
    assert_eq!(mine.len(), 1);
    assert_eq!(mine[0].id, 1);
    assert!(mine.iter().all(|t| t.user_id != 6));
}

#[test]
fn malformed_stored_hash_cannot_log_in() {
    let user = User {
        id: 9,
        username: "mallory".to_string(),
        password_hash: "not an encoded hash".to_string(),
    };
    assert_eq!(
        login_check(Some(&user), &b"anything".to_vec()),
        Err(AuthError::InvalidCredentials)
    );
}

#[test]
fn lookup_returns_the_earliest_match() {
    // The store keeps usernames unique; the contract still promises the
    // earliest match even over a bank that does not.
    let a = User { id: 1, username: "alice".to_string(), password_hash: "h1".to_string() };
    let b = User { id: 2, username: "alice".to_string(), password_hash: "h2".to_string() };
    let bank = vec![a, b];
    let found = find_by_exact_username(&bank, &"alice".to_string()).unwrap();
    assert_eq!(found.id, 1);
}
