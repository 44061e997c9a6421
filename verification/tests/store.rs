use compensation::errors::OpError;
use compensation::models::{
    EmployeeData, EmployeeName, SalaryMultiplier, UncheckedEmployeeData, UncheckedEmployeeName,
    UncheckedSalaryMultiplier,
};
use compensation::store::{DBClient, MemStore};

fn data(name: &str, salary: i32) -> EmployeeData {
    UncheckedEmployeeData { name: name.to_owned(), salary }.check().unwrap()
}

fn name(value: &str) -> EmployeeName {
    UncheckedEmployeeName { name: value.to_owned() }.check().unwrap()
}

fn multiplier(name: &str, percentage: i32) -> SalaryMultiplier {
    UncheckedSalaryMultiplier { name: name.to_owned(), percentage }.check().unwrap()
}

#[test]
fn store_starts_unavailable() {
    let mut store = MemStore::new();
    assert_eq!(
        OpError::StorageUnavailable,
        store.get_employee_salary(name("A")).unwrap_err()
    );
    assert_eq!(
        OpError::StorageUnavailable,
        store.add_new_employee(data("A", 5000)).unwrap_err()
    );
    assert_eq!(
        OpError::StorageUnavailable,
        store.increase_employee_salary(multiplier("A", 25)).unwrap_err()
    );
}

#[test]
fn store_init_is_idempotent() {
    let mut store = MemStore::new();
    store.init_db().unwrap();
    store.add_new_employee(data("A", 5000)).unwrap();
    store.init_db().unwrap();
    assert_eq!(5000, store.get_employee_salary(name("A")).unwrap().amount);
    store.init_db().unwrap();
    assert_eq!(5000, store.get_employee_salary(name("A")).unwrap().amount);
}

#[test]
fn store_init_clear_deletes_records() {
    let mut store = MemStore::new();
    store.init_db().unwrap();
    store.add_new_employee(data("A", 5000)).unwrap();
    store.init_db_clear().unwrap();
    assert_eq!(OpError::NotFound, store.get_employee_salary(name("A")).unwrap_err());
}

#[test]
fn store_add_then_get_round_trip() {
    let mut store = MemStore::new();
    store.init_db().unwrap();
    store.add_new_employee(data("A", 5000)).unwrap();
    assert_eq!(5000, store.get_employee_salary(name("A")).unwrap().amount);
}

#[test]
fn store_lookup_is_exact_match() {
    let mut store = MemStore::new();
    store.init_db().unwrap();
    store.add_new_employee(data("Test Employee", 100)).unwrap();
    assert_eq!(
        OpError::NotFound,
        store.get_employee_salary(name("test employee")).unwrap_err()
    );
    assert_eq!(
        OpError::NotFound,
        store.get_employee_salary(name("Tost Empliyep")).unwrap_err()
    );
}

#[test]
fn store_duplicate_name_is_a_conflict() {
    let mut store = MemStore::new();
    store.init_db().unwrap();
    store.add_new_employee(data("A", 5000)).unwrap();
    assert_eq!(
        OpError::Conflict,
        store.add_new_employee(data("A", 7000)).unwrap_err()
    );
    assert_eq!(5000, store.get_employee_salary(name("A")).unwrap().amount);
}

#[test]
fn store_end_to_end_increase() {
    let mut store = MemStore::new();
    store.init_db().unwrap();
    store.add_new_employee(data("Test Employee", 100)).unwrap();
    let old = store
        .increase_employee_salary(multiplier("Test Employee", 25))
        .unwrap();
    assert_eq!(100, old.amount);
    assert_eq!(
        125,
        store.get_employee_salary(name("Test Employee")).unwrap().amount
    );
}

#[test]
fn store_increase_unknown_name_is_not_found() {
    let mut store = MemStore::new();
    store.init_db().unwrap();
    store.add_new_employee(data("Test Employee", 100)).unwrap();
    assert_eq!(
        OpError::NotFound,
        store
            .increase_employee_salary(multiplier("Tust Mmployee", 25))
            .unwrap_err()
    );
    assert_eq!(
        100,
        store.get_employee_salary(name("Test Employee")).unwrap().amount
    );
}

#[test]
fn store_increase_overflow_keeps_the_record() {
    let mut store = MemStore::new();
    store.init_db().unwrap();
    store.add_new_employee(data("A", i32::MAX)).unwrap();
    assert_eq!(
        OpError::Overflow,
        store.increase_employee_salary(multiplier("A", 100)).unwrap_err()
    );
    assert_eq!(i32::MAX, store.get_employee_salary(name("A")).unwrap().amount);
}

#[test]
fn store_increases_compose_serially() {
    let mut store = MemStore::new();
    store.init_db().unwrap();
    store.add_new_employee(data("A", 1000)).unwrap();
    let first = store.increase_employee_salary(multiplier("A", 25)).unwrap();
    assert_eq!(1000, first.amount);
    let second = store.increase_employee_salary(multiplier("A", 50)).unwrap();
    assert_eq!(1250, second.amount);
    // 1000 raised by 25% and then by 50%: both raises are applied, none lost.
    assert_eq!(1875, store.get_employee_salary(name("A")).unwrap().amount);
}

#[test]
fn store_rejects_invalid_creation_and_persists_nothing() {
    let mut store = MemStore::new();
    store.init_db().unwrap();
    assert_eq!(
        OpError::InvalidInput,
        UncheckedEmployeeData { name: "A".to_owned(), salary: 0 }.check().unwrap_err()
    );
    assert_eq!(
        OpError::InvalidInput,
        UncheckedEmployeeData { name: "   ".to_owned(), salary: 2000 }
            .check()
            .unwrap_err()
    );
    assert_eq!(OpError::NotFound, store.get_employee_salary(name("A")).unwrap_err());
}

#[test]
fn store_keeps_other_records_independent() {
    let mut store = MemStore::new();
    store.init_db().unwrap();
    store.add_new_employee(data("A", 1000)).unwrap();
    store.add_new_employee(data("B", 2000)).unwrap();
    store.increase_employee_salary(multiplier("A", 100)).unwrap();
    assert_eq!(2000, store.get_employee_salary(name("B")).unwrap().amount);
    assert_eq!(2000, store.get_employee_salary(name("A")).unwrap().amount);
}
