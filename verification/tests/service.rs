use user_accounts::counters::RequestCounters;
use user_accounts::envelope::Endpoint;
use user_accounts::error::DbError;
use user_accounts::service::Service;
use user_accounts::store::UserTable;
use user_accounts::user::{LoginRequest, RegisterRequest, User};

fn text(s: &str) -> String {
    String::from(s)
}

fn register(service: &mut Service, name: &str, email: &str) -> user_accounts::envelope::HttpReply {
    service.register_user(&RegisterRequest::new(text(name), text(email)))
}

fn login(service: &mut Service, email: &str) -> user_accounts::envelope::HttpReply {
    service.login_user(&LoginRequest::new(text(email)))
}

#[test]
fn register_then_login_returns_stored_name() {
    let mut service = Service::new();
    let first = register(&mut service, "Alice", "a@x.com");
    assert_eq!(first.code, 200);
    assert_eq!(first.body.status, "success");
    assert_eq!(first.body.message, "Registration successful");
    assert_eq!(first.body.name, Some(text("Alice")));
    assert_eq!(first.body.email, Some(text("a@x.com")));
    let second = login(&mut service, "a@x.com");
    assert_eq!(second.code, 200);
    assert_eq!(second.body.status, "success");
    assert_eq!(second.body.message, "Login successful");
    assert_eq!(second.body.name, Some(text("Alice")));
    assert_eq!(second.body.email, Some(text("a@x.com")));
}

#[test]
fn second_registration_keeps_first_name() {
    let mut service = Service::new();
    register(&mut service, "Alice", "a@x.com");
    let again = register(&mut service, "Alicia", "a@x.com");
    assert_eq!(again.code, 400);
    assert_eq!(again.body.status, "error");
    assert_eq!(again.body.message, "User already exists");
    assert_eq!(again.body.name, Some(text("Alice")));
    assert_eq!(again.body.email, Some(text("a@x.com")));
    assert_eq!(service.user_count(), 1);
    assert_eq!(login(&mut service, "a@x.com").body.name, Some(text("Alice")));
}

#[test]
fn login_with_unregistered_email_has_no_name() {
    let mut service = Service::new();
    register(&mut service, "Alice", "a@x.com");
    register(&mut service, "Bob", "b@x.com");
    let reply = login(&mut service, "nobody@x.com");
    assert_eq!(reply.code, 400);
    assert_eq!(reply.body.status, "error");
    assert_eq!(reply.body.message, "User does not exist");
    assert_eq!(reply.body.name, None);
    assert_eq!(reply.body.email, Some(text("nobody@x.com")));
    assert_eq!(service.user_count(), 2);
}

#[test]
fn login_on_empty_service_is_refused() {
    let mut service = Service::new();
    let reply = login(&mut service, "");
    assert_eq!(reply.code, 400);
    assert_eq!(reply.body.name, None);
    assert_eq!(reply.body.email, Some(text("")));
}

#[test]
fn emails_are_compared_exactly() {
    let mut service = Service::new();
    register(&mut service, "Alice", "a@x.com");
    assert_eq!(login(&mut service, "A@x.com").code, 400);
    assert_eq!(login(&mut service, "a@x.com ").code, 400);
    assert_eq!(register(&mut service, "Other", "A@x.com").code, 200);
    assert_eq!(service.user_count(), 2);
}

#[test]
fn counters_count_every_call() {
    let mut service = Service::new();
    assert_eq!(service.metrics(), RequestCounters { register_requests: 0, login_requests: 0 });
    register(&mut service, "Alice", "a@x.com");
    login(&mut service, "a@x.com");
    register(&mut service, "Alicia", "a@x.com");
    login(&mut service, "nobody@x.com");
    login(&mut service, "a@x.com");
    let counters = service.metrics();
    assert_eq!(counters.register_requests, 2);
    assert_eq!(counters.login_requests, 3);
    assert_eq!(counters.get(Endpoint::Register), 2);
    assert_eq!(counters.get(Endpoint::Login), 3);
    assert_eq!(service.metrics(), counters);
}

#[test]
fn counter_stays_at_its_largest_value() {
    let mut counters = RequestCounters { register_requests: u64::MAX - 1, login_requests: 7 };
    counters.record(Endpoint::Register);
    assert_eq!(counters.register_requests, u64::MAX);
    counters.record(Endpoint::Register);
    assert_eq!(counters.register_requests, u64::MAX);
    assert_eq!(counters.login_requests, 7);
    counters.record(Endpoint::Login);
    assert_eq!(counters.login_requests, 8);
}

#[test]
fn counters_are_exposed_under_their_names() {
    assert_eq!(Endpoint::Register.metric_name(), "register_requests_total");
    assert_eq!(Endpoint::Login.metric_name(), "login_requests_total");
}

#[test]
fn table_search_finds_the_one_row() {
    let mut table = UserTable::new();
    assert_eq!(table.len(), 0);
    assert_eq!(table.find_by_email(&text("a@x.com")), Ok(None));
    table.insert(User::new(text("Alice"), text("a@x.com")));
    table.insert(User::new(text("Bob"), text("b@x.com")));
    assert_eq!(table.len(), 2);
    assert_eq!(
        table.find_by_email(&text("b@x.com")),
        Ok(Some(User::new(text("Bob"), text("b@x.com"))))
    );
    assert_eq!(
        table.find_by_email(&text("a@x.com")),
        Ok(Some(User::new(text("Alice"), text("a@x.com"))))
    );
    assert_eq!(table.find_by_email(&text("c@x.com")), Ok(None));
}

#[test]
fn table_search_fails_on_two_rows_with_one_email() {
    let mut table = UserTable::new();
    table.insert(User::new(text("Alice"), text("a@x.com")));
    table.insert(User::new(text("Bob"), text("b@x.com")));
    table.insert(User::new(text("Alicia"), text("a@x.com")));
    assert_eq!(table.find_by_email(&text("a@x.com")), Err(DbError::QueryFailure));
    assert_eq!(
        table.find_by_email(&text("b@x.com")),
        Ok(Some(User::new(text("Bob"), text("b@x.com"))))
    );
}

#[test]
fn duplicate_rows_make_both_endpoints_fail() {
    let mut table = UserTable::new();
    table.insert(User::new(text("Alice"), text("a@x.com")));
    table.insert(User::new(text("Alicia"), text("a@x.com")));
    let mut service = Service::with_table(table);
    let reply = register(&mut service, "Al", "a@x.com");
    assert_eq!(reply.code, 500);
    assert_eq!(reply.body.message, "Failed to register user");
    assert_eq!(reply.body.name, None);
    assert_eq!(reply.body.email, Some(text("a@x.com")));
    assert_eq!(reply.body.status, "error");
    assert_eq!(service.user_count(), 2);
    let reply = login(&mut service, "a@x.com");
    assert_eq!(reply.code, 500);
    assert_eq!(reply.body.message, "Failed to query user");
    assert_eq!(reply.body.name, None);
    assert_eq!(reply.body.email, Some(text("a@x.com")));
    let counters = service.metrics();
    assert_eq!(counters.register_requests, 1);
    assert_eq!(counters.login_requests, 1);
}

#[test]
fn registrations_never_store_an_email_twice() {
    let mut service = Service::new();
    let emails = ["a@x.com", "b@x.com", "a@x.com", "c@x.com", "b@x.com", "a@x.com"];
    let mut accepted = 0;
    for email in emails {
        if register(&mut service, "N", email).code == 200 {
            accepted += 1;
        }
    }
    assert_eq!(accepted, 3);
    assert_eq!(service.user_count(), 3);
    for email in emails {
        assert_eq!(login(&mut service, email).code, 200);
    }
}

#[test]
fn alice_registers_once_and_logs_in() {
    let mut service = Service::new();

    let reply = register(&mut service, "Alice", "a@x.com");
    assert_eq!(reply.code, 200);
    assert_eq!(reply.body.status, "success");
    assert_eq!(reply.body.name, Some(text("Alice")));
    assert_eq!(reply.body.email, Some(text("a@x.com")));

    let reply = register(&mut service, "Alicia", "a@x.com");
    assert_eq!(reply.code, 400);
    assert_eq!(reply.body.status, "error");
    assert_eq!(reply.body.name, Some(text("Alice")));
    assert_eq!(reply.body.email, Some(text("a@x.com")));

    let reply = login(&mut service, "a@x.com");
    assert_eq!(reply.code, 200);
    assert_eq!(reply.body.name, Some(text("Alice")));

    let reply = login(&mut service, "nobody@x.com");
    assert_eq!(reply.code, 400);
    assert_eq!(reply.body.name, None);
}

#[test]
fn interleaved_registrations_store_the_email_twice() {
    let mut table = UserTable::new();
    let first = RegisterRequest::new(text("Alice"), text("a@x.com"));
    let second = RegisterRequest::new(text("Alicia"), text("a@x.com"));
    let first_step = user_accounts::register::after_lookup(&first, table.find_by_email(&first.email));
    let second_step =
        user_accounts::register::after_lookup(&second, table.find_by_email(&second.email));
    for step in [first_step, second_step] {
        match step {
            user_accounts::register::RegisterStep::Insert(row) => table.insert(row),
            user_accounts::register::RegisterStep::Reply(reply) => {
                panic!("unexpected reply {:?}", reply)
            }
        }
    }
    assert_eq!(table.len(), 2);
    assert_eq!(table.find_by_email(&text("a@x.com")), Err(DbError::QueryFailure));
}
