use employee_roster::decimal::Decimal;
use employee_roster::dto::Employee;
use employee_roster::employee_repo::EmployeeRepo;
use employee_roster::memory_db::MemoryDb;

#[test]
fn test_create_employee_repo() {
    let mut repo: MemoryDb = EmployeeRepo::new();
    let employee = Employee {
        id: uuid::Uuid::nil().as_u128(),
        first_name: "foo".to_string(),
        last_name: "bar".to_string(),
        email: "foo@email.com".to_string(),
        salary: Decimal::new(false, 100000, 2),
    };
    let ret_employee = repo.create(&employee).unwrap();

    assert_ne!(ret_employee.id, uuid::Uuid::nil().as_u128());
    assert_eq!(ret_employee.first_name, "foo");
    assert_eq!(ret_employee.last_name, "bar");
    assert_eq!(ret_employee.email, "foo@email.com");
    assert_eq!(ret_employee.salary, Decimal::new(false, 100000, 2));
}

#[test]
fn test_get_employees() {
    let mut repo: MemoryDb = EmployeeRepo::new();
    let ri = Employee {
        id: uuid::Uuid::nil().as_u128(),
        first_name: "run".to_string(),
        last_name: "away".to_string(),
        email: "run@away.com".to_string(),
        salary: Decimal::new(false, 3200000, 2),
    };
    let ret_ri = repo.create(&ri).unwrap();
    let ri2 = Employee {
        id: uuid::Uuid::nil().as_u128(),
        first_name: "foo".to_string(),
        last_name: "bar".to_string(),
        email: "this@away.com".to_string(),
        salary: Decimal::new(false, 3000000, 2),
    };
    let ret_ri2 = repo.create(&ri2).unwrap();

    let employees: Vec<Employee> = repo.get_all().unwrap();
    assert_eq!(employees.len(), 2);
    assert_eq!(employees[0], ret_ri);
    assert_eq!(employees[1], ret_ri2);
}

#[test]
fn test_crud_employee() {
    let mut repo: MemoryDb = EmployeeRepo::new();
    let ri = Employee {
        id: uuid::Uuid::nil().as_u128(),
        first_name: "run".to_string(),
        last_name: "away".to_string(),
        email: "run@away.com".to_string(),
        salary: Decimal::new(false, 3200000, 2),
    };
    let ret_ri = repo.create(&ri).unwrap();

    assert_eq!(ret_ri.first_name, "run");
    assert_eq!(ret_ri.last_name, "away");
    assert_eq!(ret_ri.email, "run@away.com");
    assert_eq!(ret_ri.salary, Decimal::new(false, 3200000, 2));
    assert_ne!(ret_ri.id, uuid::Uuid::nil().as_u128());

    let updated_pet = Employee {
        first_name: "bar".to_string(),
        last_name: "another".to_string(),
        email: "bar@another.com".to_string(),
        salary: Decimal::new(false, 4500000, 2),
        id: ret_ri.id,
    };
    let ret2_ri = repo.update(&updated_pet).unwrap();
    assert_eq!(ret2_ri.first_name, "bar");
    assert_eq!(ret2_ri.last_name, "another");
    assert_eq!(ret2_ri.email, "bar@another.com");
    assert_eq!(ret2_ri.salary, Decimal::new(false, 4500000, 2));
    assert_eq!(ret2_ri.id, ret_ri.id.clone());

    let ret3_ri: Employee = repo.get(ret_ri.id).unwrap().unwrap();
    assert_eq!(ret3_ri.first_name, "bar");
    assert_eq!(ret3_ri.last_name, "another");
    assert_eq!(ret3_ri.email, "bar@another.com");
    assert_eq!(ret3_ri.salary, Decimal::new(false, 4500000, 2));
    assert_eq!(ret3_ri.id, ret_ri.id.clone());

    repo.delete(ret_ri.id).unwrap();
    let ret3_ri = repo.get(ret_ri.id).unwrap();
    assert!(ret3_ri.is_none());
}
