use employee_roster::config::Config;
use employee_roster::config::ConfigError;
use employee_roster::db::DbError;
use employee_roster::decimal::Decimal;
use employee_roster::employee_errors::CreateEmployeeError;
use employee_roster::employee_repo::EmployeeRepo;
use employee_roster::http::api::ApiError;
use employee_roster::http::employee_handlers::create_employee;
use employee_roster::http::employee_handlers::delete_employee;
use employee_roster::http::employee_handlers::get_employee;
use employee_roster::http::employee_handlers::get_employees;
use employee_roster::http::employee_handlers::update_employee;
use employee_roster::http::health_check;
use employee_roster::http::roster_handlers::create_roster_item;
use employee_roster::http::roster_handlers::get_roster_item;
use employee_roster::http::roster_handlers::update_roster_item;
use employee_roster::http::roster_handlers::CreateRosterItemRequest;
use employee_roster::http::roster_handlers::UpdateRosterItemRequest;
use employee_roster::memory_db::MemoryDb;
use employee_roster::models::employee::CreateEmployeeRequest;
use employee_roster::models::employee::UpdateEmployeeRequest;
use employee_roster::roster_repo::RosterItemError;

fn new_db() -> MemoryDb {
    <MemoryDb as EmployeeRepo>::new()
}

fn money(mantissa: u128, scale: u32) -> Decimal {
    Decimal::new(false, mantissa, scale)
}

fn create_req(first: &str, last: &str, email: &str, salary: Decimal) -> CreateEmployeeRequest {
    CreateEmployeeRequest {
        first_name: first.to_string(),
        last_name: last.to_string(),
        email: email.to_string(),
        salary,
    }
}

#[test]
fn test_scenario_create_get_delete_employee() {
    let mut repo = new_db();
    let s = create_employee(&mut repo, create_req("foo", "bar", "foo@email.com", money(100000, 2)))
        .unwrap();
    assert_eq!(s.status, 201);
    assert_eq!(s.body.status_code, 201);
    let rec = s.body.data;
    assert_ne!(rec.id, uuid::Uuid::nil().as_u128());
    assert_eq!(rec.first_name, "foo");
    assert_eq!(rec.last_name, "bar");
    assert_eq!(rec.email, "foo@email.com");
    assert_eq!(rec.salary, money(100000, 2));

    let id_str = uuid::Uuid::from_u128(rec.id).to_string();
    let got = get_employee(&repo, &id_str).unwrap();
    assert_eq!(got.status, 200);
    assert_eq!(got.body.data.id, rec.id);
    assert_eq!(got.body.data.first_name, "foo");
    assert_eq!(got.body.data.last_name, "bar");
    assert_eq!(got.body.data.email, "foo@email.com");
    assert_eq!(got.body.data.salary, money(100000, 2));

    let del = delete_employee(&mut repo, &id_str).unwrap();
    assert_eq!(del.status, 200);
    assert_eq!(del.body.status_code, 200);

    let after = get_employee(&repo, &id_str);
    let (code, body) = after.err().unwrap().response_parts();
    assert_eq!(code, 404);
    assert_eq!(body.status_code, 404);
    assert_eq!(body.data.message, "Item not found");
}

#[test]
fn test_duplicate_email_is_unprocessable() {
    let mut repo = new_db();
    create_employee(&mut repo, create_req("foo", "bar", "foo@email.com", money(100000, 2)))
        .unwrap();
    let second = create_employee(
        &mut repo,
        create_req("other", "person", "foo@email.com", money(200000, 2)),
    );
    let (code, body) = second.err().unwrap().response_parts();
    assert_eq!(code, 422);
    assert_eq!(body.status_code, 422);
    assert_eq!(
        body.data.message,
        "employee with id foo@email.com already exists from source unique constraint violated"
    );
}

#[test]
fn test_invalid_uuid_is_not_found() {
    let mut repo = new_db();
    let r = get_employee(&repo, "not-a-uuid");
    match r.err().unwrap() {
        ApiError::NotFound(detail) => assert_eq!(detail, "Invalid UUID"),
        other => panic!("expected NotFound, got {:?}", other),
    }
    let r2 = delete_employee(&mut repo, "also-not-a-uuid");
    let (code, body) = r2.err().unwrap().response_parts();
    assert_eq!(code, 404);
    assert_eq!(body.data.message, "Item not found");
}

#[test]
fn test_get_employee_accepts_simple_uuid_form() {
    let mut repo = new_db();
    let created = create_employee(
        &mut repo,
        create_req("foo", "bar", "foo@email.com", money(100000, 2)),
    )
    .unwrap();
    let id = created.body.data.id;
    let simple = uuid::Uuid::from_u128(id).simple().to_string();
    let got = get_employee(&repo, &simple).unwrap();
    assert_eq!(got.status, 200);
    assert_eq!(got.body.data.id, id);
}

#[test]
fn test_update_missing_row_is_internal() {
    let mut repo = new_db();
    let body = UpdateEmployeeRequest {
        id: uuid::Uuid::from_u128(77).as_u128(),
        first_name: "a".to_string(),
        last_name: "b".to_string(),
        email: "a@b.com".to_string(),
        salary: money(1, 0),
    };
    let r = update_employee(&mut repo, body);
    let (code, body) = r.err().unwrap().response_parts();
    assert_eq!(code, 500);
    assert_eq!(body.data.message, "Internal server error");
}

#[test]
fn test_update_employee_keeps_identity() {
    let mut repo = new_db();
    let created = create_employee(
        &mut repo,
        create_req("run", "away", "run@away.com", money(3200000, 2)),
    )
    .unwrap();
    let id = created.body.data.id;
    let s = update_employee(
        &mut repo,
        UpdateEmployeeRequest {
            id,
            first_name: "bar".to_string(),
            last_name: "another".to_string(),
            email: "bar@another.com".to_string(),
            salary: money(4500000, 2),
        },
    )
    .unwrap();
    assert_eq!(s.status, 201);
    assert_eq!(s.body.data.id, id);
    assert_eq!(s.body.data.email, "bar@another.com");
}

#[test]
fn test_delete_is_idempotent() {
    let mut repo = new_db();
    let created = create_employee(
        &mut repo,
        create_req("foo", "bar", "foo@email.com", money(100000, 2)),
    )
    .unwrap();
    let id_str = uuid::Uuid::from_u128(created.body.data.id).to_string();
    let first = delete_employee(&mut repo, &id_str).unwrap();
    assert_eq!(first.status, 200);
    let second = delete_employee(&mut repo, &id_str).unwrap();
    assert_eq!(second.status, 200);
}

#[test]
fn test_listing_is_exactly_the_live_records() {
    let mut repo = new_db();
    let a = create_employee(&mut repo, create_req("run", "away", "run@away.com", money(3200000, 2)))
        .unwrap();
    let b = create_employee(&mut repo, create_req("foo", "bar", "this@away.com", money(3000000, 2)))
        .unwrap();
    let all = get_employees(&repo).unwrap();
    assert_eq!(all.status, 200);
    assert_eq!(all.body.data.len(), 2);
    assert_eq!(all.body.data[0].id, a.body.data.id);
    assert_eq!(all.body.data[1].id, b.body.data.id);

    let id_str = uuid::Uuid::from_u128(a.body.data.id).to_string();
    delete_employee(&mut repo, &id_str).unwrap();
    let all2 = get_employees(&repo).unwrap();
    assert_eq!(all2.body.data.len(), 1);
    assert_eq!(all2.body.data[0].id, b.body.data.id);
    assert_eq!(all2.body.data[0].email, "this@away.com");
}

#[test]
fn test_create_error_classification() {
    let dup = CreateEmployeeError::from_db_with_email(DbError::unique_violation(), "a@b.com");
    match dup {
        CreateEmployeeError::Duplicate { id, source } => {
            assert_eq!(id, "a@b.com");
            assert_eq!(source.code.as_deref(), Some("23505"));
        },
        other => panic!("expected Duplicate, got {:?}", other),
    }
    let other_code = DbError { code: Some("23503".to_string()), message: "fk".to_string() };
    assert!(matches!(
        CreateEmployeeError::from_db_with_email(other_code, "a@b.com"),
        CreateEmployeeError::Unknown { .. }
    ));
    assert!(matches!(
        CreateEmployeeError::from_db_with_email(DbError::row_not_found(), "a@b.com"),
        CreateEmployeeError::Unknown { .. }
    ));
}

#[test]
fn test_sqlx_error_classification() {
    let e = CreateEmployeeError::from_sqlx_with_email(sqlx::Error::RowNotFound, "a@b.com");
    assert!(matches!(e, CreateEmployeeError::Unknown { .. }));
    let source = e.into_source();
    assert_eq!(source.code, None);
    assert_eq!(
        source.message,
        "no rows returned by a query that expected to return at least one row"
    );

    let commit = CreateEmployeeError::from_sqlx_commit_failed(sqlx::Error::RowNotFound);
    assert!(matches!(commit, CreateEmployeeError::CommitFailed { .. }));

    let roster = RosterItemError::from_sqlx(sqlx::Error::RowNotFound);
    assert!(matches!(roster, RosterItemError::Sqlx(..)));
}

#[test]
fn test_roster_crud_handlers() {
    let mut repo = new_db();
    let s = create_roster_item(
        &mut repo,
        CreateRosterItemRequest {
            first_name: "foo".to_string(),
            last_name: "bar".to_string(),
            email: "foo@email.com".to_string(),
            salary: money(100000, 2),
        },
    )
    .unwrap();
    assert_eq!(s.status, 201);
    let rec = s.body.data;
    assert_ne!(rec.id, uuid::Uuid::nil().as_u128());
    assert_eq!(rec.email, "foo@email.com");

    let id_str = uuid::Uuid::from_u128(rec.id).to_string();
    let got = get_roster_item(&repo, &id_str).unwrap();
    assert_eq!(got.status, 200);
    assert_eq!(got.body.data.first_name, "foo");

    let upd = update_roster_item(
        &mut repo,
        UpdateRosterItemRequest {
            id: rec.id,
            first_name: "bar".to_string(),
            last_name: "another".to_string(),
            email: "bar@another.com".to_string(),
            salary: money(4500000, 2),
        },
    )
    .unwrap();
    assert_eq!(upd.status, 201);
    assert_eq!(upd.body.data.id, rec.id);

    let missing = get_roster_item(&repo, &uuid::Uuid::from_u128(424242).to_string());
    let (code, body) = missing.err().unwrap().response_parts();
    assert_eq!(code, 404);
    assert_eq!(body.data.message, "Item not found");
}

#[test]
fn test_roster_duplicate_email_is_unprocessable() {
    let mut repo = new_db();
    let req = CreateRosterItemRequest {
        first_name: "foo".to_string(),
        last_name: "bar".to_string(),
        email: "foo@email.com".to_string(),
        salary: money(100000, 2),
    };
    create_roster_item(&mut repo, req).unwrap();
    let again = CreateRosterItemRequest {
        first_name: "other".to_string(),
        last_name: "person".to_string(),
        email: "foo@email.com".to_string(),
        salary: money(200000, 2),
    };
    let (code, body) = create_roster_item(&mut repo, again).err().unwrap().response_parts();
    assert_eq!(code, 422);
    assert_eq!(
        body.data.message,
        "roster item already exists from source unique constraint violated"
    );
}

#[test]
fn test_config_from_env() {
    let ok = Config::from_env(Some("8080".to_string()), Some("postgres://db".to_string()))
        .unwrap();
    assert_eq!(ok.server_port, "8080");
    assert_eq!(ok.database_url, "postgres://db");

    match Config::from_env(None, Some("postgres://db".to_string())) {
        Err(ConfigError::LoadEnvError { name }) => assert_eq!(name, "SERVER_PORT"),
        other => panic!("expected LoadEnvError, got {:?}", other),
    }
    match Config::from_env(Some("8080".to_string()), None) {
        Err(ConfigError::LoadEnvError { name }) => assert_eq!(name, "DATABASE_URL"),
        other => panic!("expected LoadEnvError, got {:?}", other),
    }
}

#[test]
fn test_health_check() {
    let h = health_check("2020-01-01T00:00:00Z".to_string());
    assert_eq!(h.status, "healthy");
    assert_eq!(h.service, "your-service-name");
    assert_eq!(h.timestamp, "2020-01-01T00:00:00Z");
}
