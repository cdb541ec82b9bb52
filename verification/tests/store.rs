use todo_invoice_service::domain::models::instant::Timestamp;
use todo_invoice_service::domain::models::invoice::Invoice;
use todo_invoice_service::domain::models::todo::Todo;
use todo_invoice_service::domain::repositories::error::StoreError;
use todo_invoice_service::domain::repositories::invoice_repository::InvoiceTable;
use todo_invoice_service::domain::repositories::todo_repository::TodoTable;

fn task(id: u128, title: &str, at: i64) -> Todo {
    Todo::with_identity(id, Timestamp::new(at, 0), String::from(title), String::from("d"))
}

fn bill(id: u128, amount: i32, at: i64) -> Invoice {
    Invoice::with_identity(id, Timestamp::new(at, 0), amount)
}

#[test]
fn store_error_tells_row_not_found_apart() {
    assert!(StoreError::RowNotFound.is_row_not_found());
    assert!(!StoreError::ConstraintViolation.is_row_not_found());
    assert!(!StoreError::Unavailable.is_row_not_found());
}

#[test]
fn empty_todo_table_holds_nothing() {
    let table = TodoTable::new();
    assert!(table.find_all().is_empty());
    assert_eq!(table.find_by_id(1), None);
}

#[test]
fn created_todo_is_answered_verbatim_and_found_again() {
    let mut table = TodoTable::new();
    let todo = task(1, "A", 100);
    let created = table.create(todo.duplicate());
    assert_eq!(created, Ok(todo.duplicate()));
    assert_eq!(table.find_by_id(1), Some(todo));
    assert_eq!(table.find_by_id(2), None);
}

#[test]
fn second_todo_under_one_identity_is_refused() {
    let mut table = TodoTable::new();
    assert!(table.create(task(1, "A", 100)).is_ok());
    assert_eq!(table.create(task(1, "B", 200)), Err(StoreError::ConstraintViolation));
    assert_eq!(table.find_by_id(1), Some(task(1, "A", 100)));
    assert_eq!(table.find_all().len(), 1);
}

#[test]
fn todo_listing_names_every_row_once() {
    let mut table = TodoTable::new();
    for id in [3u128, 1, 2] {
        assert!(table.create(task(id, "t", 10)).is_ok());
    }
    let mut ids: Vec<u128> = table.find_all().iter().map(|todo| todo.id).collect();
    ids.sort();
    assert_eq!(ids, vec![1, 2, 3]);
}

#[test]
fn todo_update_writes_fields_and_restamps() {
    let mut table = TodoTable::new();
    assert!(table.create(task(1, "A", 100)).is_ok());
    assert!(table.create(task(2, "other", 100)).is_ok());
    let given = Todo {
        id: 1,
        title: String::from("B"),
        description: None,
        completed: true,
        created_at: Timestamp::new(1, 1),
        updated_at: Timestamp::new(2, 2),
    };
    let now = Timestamp::new(150, 7);
    let written = Todo {
        id: 1,
        title: String::from("B"),
        description: None,
        completed: true,
        created_at: Timestamp::new(100, 0),
        updated_at: now,
    };
    assert_eq!(table.update_at(given, now), Ok(written.duplicate()));
    assert_eq!(table.find_by_id(1), Some(written));
    assert_eq!(table.find_by_id(2), Some(task(2, "other", 100)));
}

#[test]
fn todo_update_takes_an_earlier_clock_reading_as_it_comes() {
    let mut table = TodoTable::new();
    assert!(table.create(task(1, "A", 100)).is_ok());
    let earlier = Timestamp::new(50, 0);
    let written = table.update_at(task(1, "B", 0), earlier).unwrap();
    assert_eq!(written.updated_at, earlier);
    assert_eq!(written.created_at, Timestamp::new(100, 0));
    assert!(!written.is_valid());
}

#[test]
fn todo_update_of_unknown_identity_is_row_not_found() {
    let mut table = TodoTable::new();
    assert!(table.create(task(1, "A", 100)).is_ok());
    assert_eq!(
        table.update_at(task(2, "B", 100), Timestamp::new(200, 0)),
        Err(StoreError::RowNotFound)
    );
    assert_eq!(table.update(task(2, "B", 100)), Err(StoreError::RowNotFound));
    assert_eq!(table.find_all(), vec![task(1, "A", 100)]);
}

#[test]
fn todo_update_by_the_clock_does_not_go_back() {
    let mut table = TodoTable::new();
    let todo = Todo::new(String::from("A"), String::from("d"));
    let id = todo.id;
    let created = table.create(todo).unwrap();
    let mut given = created.duplicate();
    given.title = String::from("B");
    let written = table.update(given).unwrap();
    assert_eq!(written.id, id);
    assert_eq!(written.title, "B");
    assert_eq!(written.created_at, created.created_at);
    assert!(written.updated_at.is_at_or_after(&created.updated_at));
    assert!(written.is_valid());
    assert_eq!(table.find_by_id(id), Some(written));
}

#[test]
fn todo_delete_removes_the_row_and_only_that_row() {
    let mut table = TodoTable::new();
    for id in [1u128, 2, 3] {
        assert!(table.create(task(id, "t", 10)).is_ok());
    }
    assert_eq!(table.delete(2), Ok(()));
    assert_eq!(table.find_by_id(2), None);
    assert_eq!(table.find_by_id(1), Some(task(1, "t", 10)));
    assert_eq!(table.find_by_id(3), Some(task(3, "t", 10)));
    assert_eq!(table.find_all().len(), 2);
}

#[test]
fn todo_delete_of_unknown_identity_succeeds_and_changes_nothing() {
    let mut table = TodoTable::new();
    assert!(table.create(task(1, "A", 100)).is_ok());
    assert_eq!(table.delete(9), Ok(()));
    assert_eq!(table.find_all(), vec![task(1, "A", 100)]);
    assert_eq!(table.delete(1), Ok(()));
    assert_eq!(table.delete(1), Ok(()));
    assert!(table.find_all().is_empty());
}

#[test]
fn deleted_todo_identity_can_be_created_again() {
    let mut table = TodoTable::new();
    assert!(table.create(task(1, "A", 100)).is_ok());
    assert_eq!(table.delete(1), Ok(()));
    assert_eq!(table.create(task(1, "B", 200)), Ok(task(1, "B", 200)));
}

#[test]
fn empty_invoice_table_holds_nothing() {
    let table = InvoiceTable::new();
    assert!(table.find_all().is_empty());
    assert_eq!(table.find_by_id(1), None);
}

#[test]
fn created_invoice_is_answered_verbatim_and_found_again() {
    let mut table = InvoiceTable::new();
    let invoice = bill(1, 500, 100);
    assert_eq!(table.create(invoice), Ok(invoice));
    assert_eq!(table.find_by_id(1), Some(invoice));
    assert_eq!(table.find_by_id(2), None);
}

#[test]
fn second_invoice_under_one_identity_is_refused() {
    let mut table = InvoiceTable::new();
    assert!(table.create(bill(1, 500, 100)).is_ok());
    assert_eq!(table.create(bill(1, 700, 200)), Err(StoreError::ConstraintViolation));
    assert_eq!(table.find_all(), vec![bill(1, 500, 100)]);
}

#[test]
fn invoice_listing_names_every_row_once() {
    let mut table = InvoiceTable::new();
    for id in [3u128, 1, 2] {
        assert!(table.create(bill(id, 10, 10)).is_ok());
    }
    let mut ids: Vec<u128> = table.find_all().iter().map(|invoice| invoice.id).collect();
    ids.sort();
    assert_eq!(ids, vec![1, 2, 3]);
}

#[test]
fn invoice_update_writes_fields_and_restamps() {
    let mut table = InvoiceTable::new();
    assert!(table.create(bill(1, 500, 100)).is_ok());
    let given = Invoice {
        id: 1,
        amount: -20,
        paid: true,
        created_at: Timestamp::new(1, 1),
        updated_at: Timestamp::new(2, 2),
    };
    let now = Timestamp::new(150, 7);
    let written = Invoice {
        id: 1,
        amount: -20,
        paid: true,
        created_at: Timestamp::new(100, 0),
        updated_at: now,
    };
    assert_eq!(table.update_at(given, now), Ok(written));
    assert_eq!(table.find_by_id(1), Some(written));
}

#[test]
fn invoice_update_of_unknown_identity_is_row_not_found() {
    let mut table = InvoiceTable::new();
    assert!(table.create(bill(1, 500, 100)).is_ok());
    assert_eq!(
        table.update_at(bill(2, 1, 100), Timestamp::new(200, 0)),
        Err(StoreError::RowNotFound)
    );
    assert_eq!(table.update(bill(2, 1, 100)), Err(StoreError::RowNotFound));
    assert_eq!(table.find_all(), vec![bill(1, 500, 100)]);
}

#[test]
fn invoice_update_by_the_clock_does_not_go_back() {
    let mut table = InvoiceTable::new();
    let created = table.create(Invoice::new(500)).unwrap();
    let written = table.update(Invoice { amount: 600, ..created }).unwrap();
    assert_eq!(written.id, created.id);
    assert_eq!(written.amount, 600);
    assert_eq!(written.created_at, created.created_at);
    assert!(written.updated_at.is_at_or_after(&created.updated_at));
    assert!(written.is_valid());
}

#[test]
fn invoice_delete_removes_the_row_and_only_that_row() {
    let mut table = InvoiceTable::new();
    for id in [1u128, 2, 3] {
        assert!(table.create(bill(id, 10, 10)).is_ok());
    }
    assert_eq!(table.delete(1), Ok(()));
    assert_eq!(table.find_by_id(1), None);
    assert_eq!(table.find_by_id(2), Some(bill(2, 10, 10)));
    assert_eq!(table.find_by_id(3), Some(bill(3, 10, 10)));
}

#[test]
fn invoice_delete_of_unknown_identity_succeeds_and_changes_nothing() {
    let mut table = InvoiceTable::new();
    assert!(table.create(bill(1, 500, 100)).is_ok());
    assert_eq!(table.delete(9), Ok(()));
    assert_eq!(table.find_all(), vec![bill(1, 500, 100)]);
}
