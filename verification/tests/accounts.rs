use realworld::error::AppError;
use realworld::field::UserKey;
use realworld::hasher::Hasher;
use realworld::jwt::JwtGenerator;
use realworld::service::{decide, Flow, Rejection, Step, StoreQuery, StoreReply, UserService, Verdict};
use realworld::table::UserTable;
use realworld::user::{RegisterCommand, User};

fn service() -> UserService {
    UserService::new(
        Hasher::new("pepper".to_string()),
        JwtGenerator::new("a signing secret".to_string()),
    )
}

fn jwt() -> JwtGenerator {
    JwtGenerator::new("a signing secret".to_string())
}

fn run(service: &UserService, table: &mut UserTable, first: Step) -> Result<(User, String), AppError> {
    let mut step = first;
    loop {
        match step {
            Step::Done(result) => return result,
            Step::Ask(flow, query) => {
                let reply = table.answer(query);
                step = service.resume(flow, reply);
            }
        }
    }
}

fn register(
    service: &UserService,
    table: &mut UserTable,
    email: &str,
    username: &str,
    password: &str,
) -> Result<(User, String), AppError> {
    let request = RegisterCommand {
        email: email.to_string(),
        username: username.to_string(),
        password: password.to_string(),
    };
    let first = service.register_user(request);
    run(service, table, first)
}

fn login(
    service: &UserService,
    table: &mut UserTable,
    email: &str,
    password: &str,
) -> Result<(User, String), AppError> {
    let first = service.login_user(email.to_string(), password.to_string());
    run(service, table, first)
}

fn subject(token: &str) -> u128 {
    JwtGenerator::subject_id(&jwt().verify_token(token).unwrap()).unwrap()
}

fn wait_for_the_next_second() {
    let start = std::time::Instant::now();
    while start.elapsed() < std::time::Duration::from_millis(1100) {
        std::hint::spin_loop();
    }
}

fn someone() -> User {
    User {
        id: 7,
        email: "a@x.com".to_string(),
        username: "alice".to_string(),
        password_hash: "hash".to_string(),
        bio: None,
        image: None,
    }
}

#[test]
fn registration_returns_user_and_token() {
    let service = service();
    let mut table = UserTable::new();
    let (user, token) = register(&service, &mut table, "a@x.com", "alice", "Secret123!").unwrap();
    assert_eq!(user.email, "a@x.com");
    assert_eq!(user.username, "alice");
    assert_eq!(user.bio, None);
    assert_eq!(user.image, None);
    assert_ne!(user.password_hash, "Secret123!");
    assert_eq!(subject(&token), user.id);
    assert_eq!(table.len(), 1);
}

#[test]
fn taken_username_and_taken_email_are_conflicts() {
    let service = service();
    let mut table = UserTable::new();
    register(&service, &mut table, "a@x.com", "alice", "Secret123!").unwrap();
    match register(&service, &mut table, "b@x.com", "alice", "Secret123!") {
        Err(AppError::Conflict(m)) => assert_eq!(m, "Username 'alice' is already taken"),
        other => panic!("unexpected: {:?}", other),
    }
    match register(&service, &mut table, "a@x.com", "bob", "Secret123!") {
        Err(AppError::Conflict(m)) => assert_eq!(m, "Email 'a@x.com' is already registered"),
        other => panic!("unexpected: {:?}", other),
    }
    match register(&service, &mut table, "a@x.com", "alice", "Secret123!") {
        Err(AppError::Conflict(m)) => assert_eq!(m, "Username 'alice' is already taken"),
        other => panic!("unexpected: {:?}", other),
    }
    assert_eq!(table.len(), 1);
}

#[test]
fn one_of_many_registrations_of_a_username_succeeds() {
    let service = service();
    let mut table = UserTable::new();
    // every attempt passes both lookups before any of them inserts
    let mut waiting = Vec::new();
    for i in 0..4 {
        let request = RegisterCommand {
            email: format!("user{}@x.com", i),
            username: "alice".to_string(),
            password: "Secret123!".to_string(),
        };
        let mut step = service.register_user(request);
        for _ in 0..2 {
            step = match step {
                Step::Ask(flow, query) => {
                    let reply = table.answer(query);
                    service.resume(flow, reply)
                }
                done => done,
            };
        }
        assert!(matches!(step, Step::Ask(Flow::Inserting { .. }, StoreQuery::Insert { .. })));
        waiting.push(step);
    }
    let mut successes = 0;
    let mut conflicts = 0;
    for step in waiting {
        match run(&service, &mut table, step) {
            Ok(_) => successes += 1,
            Err(AppError::Conflict(m)) => {
                assert!(m.contains("alice"));
                conflicts += 1;
            }
            other => panic!("unexpected: {:?}", other),
        }
    }
    assert_eq!(successes, 1);
    assert_eq!(conflicts, 3);
    assert_eq!(table.len(), 1);
}

#[test]
fn login_returns_user_and_token() {
    let service = service();
    let mut table = UserTable::new();
    let (registered, _) = register(&service, &mut table, "a@x.com", "alice", "Secret123!").unwrap();
    let (user, token) = login(&service, &mut table, "a@x.com", "Secret123!").unwrap();
    assert_eq!(user.id, registered.id);
    assert_eq!(user.username, "alice");
    assert_eq!(subject(&token), registered.id);
}

#[test]
fn login_failures_do_not_tell_whether_the_account_exists() {
    let service = service();
    let mut table = UserTable::new();
    register(&service, &mut table, "a@x.com", "alice", "Secret123!").unwrap();
    let unknown = login(&service, &mut table, "nobody@x.com", "Secret123!").unwrap_err();
    let wrong = login(&service, &mut table, "a@x.com", "Secret123?").unwrap_err();
    assert!(matches!(unknown, AppError::Unauthorized));
    assert!(matches!(wrong, AppError::Unauthorized));
    assert_eq!(unknown.status_code(), wrong.status_code());
    assert_eq!(unknown.public_message(), wrong.public_message());
    assert_eq!(unknown.describe(), wrong.describe());
}

#[test]
fn login_against_a_corrupt_hash_is_an_internal_error() {
    let service = service();
    let step = service.resume(
        Flow::LoggingIn { password: "Secret123!".to_string() },
        StoreReply::Found(Some(someone())),
    );
    match step {
        Step::Done(Err(AppError::Other(m))) => assert_eq!(m, "Stored password hash is corrupt"),
        _ => panic!("the corrupt hash was not reported"),
    }
}

#[test]
fn identity_refresh_issues_a_fresh_token() {
    let service = service();
    let mut table = UserTable::new();
    let (registered, first) = register(&service, &mut table, "a@x.com", "alice", "Secret123!").unwrap();
    wait_for_the_next_second();
    let step = service.get_user_by_id(registered.id);
    let (user, second) = run(&service, &mut table, step).unwrap();
    assert_eq!(user.id, registered.id);
    assert_eq!(user.email, "a@x.com");
    assert_eq!(subject(&second), registered.id);
    assert_ne!(first, second);
}

#[test]
fn identity_refresh_of_an_unknown_id_is_unauthorized() {
    let service = service();
    let mut table = UserTable::new();
    let step = service.get_user_by_id(99);
    assert!(matches!(run(&service, &mut table, step), Err(AppError::Unauthorized)));
}

#[test]
fn store_failure_is_a_database_error() {
    let service = service();
    let step = service.resume(Flow::Fetching, StoreReply::Failed("timeout".to_string()));
    match step {
        Step::Done(Err(AppError::Db(detail))) => assert_eq!(detail, "timeout"),
        _ => panic!("the failure was not reported as a database error"),
    }
}

#[test]
fn constraint_violation_at_insert_is_a_conflict() {
    let flow = Flow::Inserting { email: "a@x.com".to_string(), username: "alice".to_string() };
    match service().resume(flow, StoreReply::ConstraintViolation) {
        Step::Done(Err(AppError::Conflict(m))) => {
            assert_eq!(m, "Username 'alice' or email 'a@x.com' is already registered")
        }
        _ => panic!("the violation was not reported as a conflict"),
    }
}

#[test]
fn reply_that_answers_another_query_is_an_internal_error() {
    let verdict = decide(Flow::Fetching, StoreReply::Inserted(someone()));
    assert!(matches!(verdict, Verdict::Reject(Rejection::UnexpectedReply)));
    match Rejection::UnexpectedReply.into_error() {
        AppError::Other(m) => assert_eq!(m, "Unexpected reply from the user store"),
        other => panic!("unexpected: {:?}", other),
    }
}

#[test]
fn registration_asks_for_the_username_first() {
    let request = RegisterCommand {
        email: "a@x.com".to_string(),
        username: "alice".to_string(),
        password: "Secret123!".to_string(),
    };
    match service().register_user(request) {
        Step::Ask(Flow::CheckingUsername { email, username, password_hash }, StoreQuery::Find(UserKey::Username(asked))) => {
            assert_eq!(email, "a@x.com");
            assert_eq!(username, "alice");
            assert_eq!(asked, "alice");
            assert!(password_hash.starts_with("$argon2"));
        }
        _ => panic!("the registration did not ask for the username"),
    }
}

#[test]
fn table_finds_by_each_field() {
    let mut table = UserTable::new();
    let reply = table.answer(StoreQuery::Insert {
        email: "a@x.com".to_string(),
        username: "alice".to_string(),
        password_hash: "hash".to_string(),
    });
    let id = match reply {
        StoreReply::Inserted(user) => user.id,
        other => panic!("unexpected: {:?}", other),
    };
    assert_eq!(id, 1);
    assert_eq!(table.find_by(&UserKey::Id(id)).unwrap().username, "alice");
    assert_eq!(table.find_by(&UserKey::Email("a@x.com".to_string())).unwrap().id, id);
    assert_eq!(table.find_by(&UserKey::Username("alice".to_string())).unwrap().id, id);
    assert!(table.find_by(&UserKey::Username("a@x.com".to_string())).is_none());
    assert!(table.find_by(&UserKey::Id(2)).is_none());
    let again = table.answer(StoreQuery::Insert {
        email: "b@x.com".to_string(),
        username: "alice".to_string(),
        password_hash: "hash".to_string(),
    });
    assert!(matches!(again, StoreReply::ConstraintViolation));
    assert_eq!(table.len(), 1);
}

#[test]
fn store_failures_are_told_apart() {
    assert!(matches!(
        StoreReply::failure(true, "duplicate key".to_string()),
        StoreReply::ConstraintViolation
    ));
    match StoreReply::failure(false, "timeout".to_string()) {
        StoreReply::Failed(detail) => assert_eq!(detail, "timeout"),
        other => panic!("unexpected: {:?}", other),
    }
}

#[test]
fn accounts_in_a_table_from_registration_to_refresh() {
    let service = service();
    let mut table = UserTable::new();
    let request = RegisterCommand {
        email: "a@x.com".to_string(),
        username: "alice".to_string(),
        password: "Secret123!".to_string(),
    };
    let (user, token) = service.register_in(&mut table, request.clone()).unwrap();
    assert_eq!(user.id, 1);
    assert_eq!(user.email, "a@x.com");
    assert_eq!(user.bio, None);
    assert_eq!(user.image, None);
    assert_eq!(subject(&token), 1);
    match service.register_in(&mut table, request) {
        Err(AppError::Conflict(m)) => assert_eq!(m, "Username 'alice' is already taken"),
        other => panic!("unexpected: {:?}", other),
    }
    assert_eq!(table.len(), 1);
    let (same, _) = service
        .login_in(&mut table, "a@x.com".to_string(), "Secret123!".to_string())
        .unwrap();
    assert_eq!(same.id, 1);
    assert!(matches!(
        service.login_in(&mut table, "a@x.com".to_string(), "secret123!".to_string()),
        Err(AppError::Unauthorized)
    ));
    assert!(matches!(
        service.login_in(&mut table, "alice".to_string(), "Secret123!".to_string()),
        Err(AppError::Unauthorized)
    ));
    assert_eq!(service.fetch_in(&mut table, 1).unwrap().0.username, "alice");
    assert!(matches!(service.fetch_in(&mut table, 2), Err(AppError::Unauthorized)));
}
