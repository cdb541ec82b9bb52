use todo_invoice_service::domain::models::identity::has_version_7;
use todo_invoice_service::domain::models::instant::Timestamp;
use todo_invoice_service::domain::models::invoice::Invoice;
use todo_invoice_service::domain::models::todo::Todo;
use todo_invoice_service::domain::repositories::error::StoreError;
use todo_invoice_service::domain::repositories::invoice_repository::InvoiceTable;
use todo_invoice_service::domain::repositories::todo_repository::TodoTable;
use todo_invoice_service::usecase::invoice_usecase::InvoiceUsecase;
use todo_invoice_service::usecase::todo_usecase::TodoUsecase;

fn update_todo_in(
    usecase: &TodoUsecase<()>,
    table: &mut TodoTable,
    id: u128,
    title: &str,
    description: &str,
    completed: bool,
    now: Timestamp,
) -> Result<Todo, StoreError> {
    let existing = table.find_by_id(id);
    let todo =
        usecase.update_todo(existing, String::from(title), String::from(description), completed)?;
    table.update_at(todo, now)
}

fn update_invoice_in(
    usecase: &InvoiceUsecase<()>,
    table: &mut InvoiceTable,
    id: u128,
    amount: i32,
    paid: bool,
    now: Timestamp,
) -> Result<Invoice, StoreError> {
    let existing = table.find_by_id(id);
    let invoice = usecase.update_invoice(existing, amount, paid)?;
    table.update_at(invoice, now)
}

#[test]
fn usecase_holds_the_repository_it_was_given() {
    let todos = TodoUsecase::new(String::from("tasks"));
    assert_eq!(todos.repository(), "tasks");
    let invoices = InvoiceUsecase::new(17u8);
    assert_eq!(*invoices.repository(), 17);
    assert_eq!(*invoices.clone().repository(), 17);
}

#[test]
fn create_todo_builds_an_open_task() {
    let usecase = TodoUsecase::new(());
    let todo = usecase.create_todo(String::from("Buy milk"), String::from("2%"));
    assert_eq!(todo.title, "Buy milk");
    assert_eq!(todo.description, Some(String::from("2%")));
    assert!(!todo.completed);
    assert_eq!(todo.created_at, todo.updated_at);
    assert!(has_version_7(todo.id));
}

#[test]
fn create_invoice_builds_an_unpaid_invoice() {
    let usecase = InvoiceUsecase::new(());
    let invoice = usecase.create_invoice(500);
    assert_eq!(invoice.amount, 500);
    assert!(!invoice.paid);
    assert_eq!(invoice.created_at, invoice.updated_at);
    assert!(has_version_7(invoice.id));
}

#[test]
fn created_todos_never_share_an_identity() {
    let usecase = TodoUsecase::new(());
    let mut table = TodoTable::new();
    let mut ids: Vec<u128> = Vec::new();
    for _ in 0..50 {
        let todo = usecase.create_todo(String::from("t"), String::from("d"));
        let created = table.create(todo).unwrap();
        assert!(!ids.contains(&created.id));
        ids.push(created.id);
    }
    assert_eq!(table.find_all().len(), 50);
}

#[test]
fn update_todo_without_a_row_is_row_not_found() {
    let usecase = TodoUsecase::new(());
    assert_eq!(
        usecase.update_todo(None, String::from("B"), String::from("d"), true),
        Err(StoreError::RowNotFound)
    );
}

#[test]
fn update_todo_replaces_all_three_fields() {
    let usecase = TodoUsecase::new(());
    let created = Timestamp::new(100, 0);
    let changed = Timestamp::new(120, 0);
    let existing = Todo {
        id: 1,
        title: String::from("A"),
        description: None,
        completed: false,
        created_at: created,
        updated_at: changed,
    };
    let plan = usecase.update_todo(Some(existing), String::from("B"), String::from("d"), true);
    assert_eq!(
        plan,
        Ok(Todo {
            id: 1,
            title: String::from("B"),
            description: Some(String::from("d")),
            completed: true,
            created_at: created,
            updated_at: changed,
        })
    );
}

#[test]
fn update_todo_can_reopen_and_blank_a_task() {
    let usecase = TodoUsecase::new(());
    let mut existing =
        Todo::with_identity(1, Timestamp::new(1, 0), String::from("A"), String::from("x"));
    existing.completed = true;
    let plan = usecase.update_todo(Some(existing), String::new(), String::new(), false).unwrap();
    assert_eq!(plan.title, "");
    assert_eq!(plan.description, Some(String::new()));
    assert!(!plan.completed);
}

#[test]
fn update_invoice_without_a_row_is_row_not_found() {
    let usecase = InvoiceUsecase::new(());
    assert_eq!(usecase.update_invoice(None, 500, true), Err(StoreError::RowNotFound));
}

#[test]
fn update_invoice_replaces_both_fields() {
    let usecase = InvoiceUsecase::new(());
    let existing = Invoice {
        id: 1,
        amount: 100,
        paid: true,
        created_at: Timestamp::new(100, 0),
        updated_at: Timestamp::new(120, 0),
    };
    assert_eq!(
        usecase.update_invoice(Some(existing), 500, false),
        Ok(Invoice { amount: 500, paid: false, ..existing })
    );
}

#[test]
fn updating_an_unknown_todo_writes_nothing() {
    let usecase = TodoUsecase::new(());
    let mut table = TodoTable::new();
    let kept = table.create(Todo::new(String::from("A"), String::from("d"))).unwrap();
    let outcome = update_todo_in(&usecase, &mut table, 42, "B", "d", true, Timestamp::new(9, 9));
    assert_eq!(outcome, Err(StoreError::RowNotFound));
    assert_eq!(table.find_all(), vec![kept]);
}

#[test]
fn updating_an_unknown_invoice_writes_nothing() {
    let usecase = InvoiceUsecase::new(());
    let mut table = InvoiceTable::new();
    let kept = table.create(Invoice::new(100)).unwrap();
    let outcome = update_invoice_in(&usecase, &mut table, 42, 500, true, Timestamp::new(9, 9));
    assert_eq!(outcome, Err(StoreError::RowNotFound));
    assert_eq!(table.find_all(), vec![kept]);
}

#[test]
fn created_todo_round_trips_through_the_store() {
    let usecase = TodoUsecase::new(());
    let mut table = TodoTable::new();
    let created =
        table.create(usecase.create_todo(String::from("Buy milk"), String::from("2%"))).unwrap();
    assert_eq!(table.find_by_id(created.id), Some(created));
}

#[test]
fn created_invoice_round_trips_through_the_store() {
    let usecase = InvoiceUsecase::new(());
    let mut table = InvoiceTable::new();
    let created = table.create(usecase.create_invoice(500)).unwrap();
    assert_eq!(table.find_by_id(created.id), Some(created));
}

#[test]
fn full_replace_leaves_no_old_field_behind() {
    let usecase = TodoUsecase::new(());
    let mut table = TodoTable::new();
    let created = Timestamp::new(100, 0);
    let before = Todo {
        id: 1,
        title: String::from("A"),
        description: None,
        completed: false,
        created_at: created,
        updated_at: created,
    };
    assert!(table.create(before).is_ok());
    let now = Timestamp::new(200, 5);
    let after = update_todo_in(&usecase, &mut table, 1, "B", "d", true, now).unwrap();
    let expected = Todo {
        id: 1,
        title: String::from("B"),
        description: Some(String::from("d")),
        completed: true,
        created_at: created,
        updated_at: now,
    };
    assert_eq!(after, expected);
    assert_eq!(table.find_by_id(1), Some(expected));
}

#[test]
fn successive_updates_keep_identity_and_creation_instant() {
    let usecase = InvoiceUsecase::new(());
    let mut table = InvoiceTable::new();
    let created = table.create(Invoice::new(1)).unwrap();
    let mut last = created;
    for round in 1..=5 {
        let now = Timestamp::new(created.updated_at.secs + round, 0);
        let next =
            update_invoice_in(&usecase, &mut table, created.id, round as i32, round % 2 == 0, now)
                .unwrap();
        assert_eq!(next.id, created.id);
        assert_eq!(next.created_at, created.created_at);
        assert_eq!(next.amount, round as i32);
        assert_eq!(next.paid, round % 2 == 0);
        assert!(next.updated_at.is_at_or_after(&last.updated_at));
        assert!(next.is_valid());
        last = next;
    }
    assert_eq!(table.find_by_id(created.id), Some(last));
}

#[test]
fn of_two_updates_of_one_row_the_later_wins() {
    let usecase = TodoUsecase::new(());
    let mut table = TodoTable::new();
    let created = Timestamp::new(100, 0);
    assert!(table
        .create(Todo::with_identity(1, created, String::from("A"), String::from("a")))
        .is_ok());
    let seen_by_first = table.find_by_id(1);
    let seen_by_second = table.find_by_id(1);
    let first = usecase
        .update_todo(seen_by_first, String::from("B"), String::from("b"), true)
        .unwrap();
    let second = usecase
        .update_todo(seen_by_second, String::from("C"), String::from("c"), false)
        .unwrap();
    assert!(table.update_at(first, Timestamp::new(110, 0)).is_ok());
    assert!(table.update_at(second, Timestamp::new(120, 0)).is_ok());
    assert_eq!(
        table.find_by_id(1),
        Some(Todo {
            id: 1,
            title: String::from("C"),
            description: Some(String::from("c")),
            completed: false,
            created_at: created,
            updated_at: Timestamp::new(120, 0),
        })
    );
}

#[test]
fn update_of_a_row_deleted_after_the_lookup_is_row_not_found() {
    let usecase = InvoiceUsecase::new(());
    let mut table = InvoiceTable::new();
    let created = table.create(Invoice::new(100)).unwrap();
    let seen = table.find_by_id(created.id);
    assert_eq!(table.delete(created.id), Ok(()));
    let invoice = usecase.update_invoice(seen, 500, true).unwrap();
    assert_eq!(table.update_at(invoice, Timestamp::new(9, 9)), Err(StoreError::RowNotFound));
    assert!(table.find_all().is_empty());
}

#[test]
fn failed_lookup_is_handed_on_unchanged() {
    let todos = TodoUsecase::new(());
    let invoices = InvoiceUsecase::new(());
    for error in [StoreError::Unavailable, StoreError::ConstraintViolation, StoreError::RowNotFound]
    {
        assert_eq!(
            todos.update_todo_after_lookup(Err(error), String::from("B"), String::from("d"), true),
            Err(error)
        );
        assert_eq!(invoices.update_invoice_after_lookup(Err(error), 500, true), Err(error));
    }
}

#[test]
fn answered_lookup_is_decided_as_the_update_decides() {
    let todos = TodoUsecase::new(());
    let invoices = InvoiceUsecase::new(());
    assert_eq!(
        todos.update_todo_after_lookup(Ok(None), String::from("B"), String::from("d"), true),
        Err(StoreError::RowNotFound)
    );
    assert_eq!(invoices.update_invoice_after_lookup(Ok(None), 500, true), Err(StoreError::RowNotFound));
    let now = Timestamp::new(100, 0);
    let existing = Todo::with_identity(1, now, String::from("A"), String::from("a"));
    assert_eq!(
        todos.update_todo_after_lookup(
            Ok(Some(existing)),
            String::from("B"),
            String::from("d"),
            true
        ),
        Ok(Todo {
            id: 1,
            title: String::from("B"),
            description: Some(String::from("d")),
            completed: true,
            created_at: now,
            updated_at: now,
        })
    );
    let existing = Invoice::with_identity(2, now, 100);
    assert_eq!(
        invoices.update_invoice_after_lookup(Ok(Some(existing)), 500, true),
        Ok(Invoice { id: 2, amount: 500, paid: true, created_at: now, updated_at: now })
    );
}

#[test]
fn update_behind_an_unavailable_store_writes_nothing_and_stays_unavailable() {
    let usecase = InvoiceUsecase::new(());
    let mut table = InvoiceTable::new();
    let kept = table.create(Invoice::new(100)).unwrap();
    let outcome = match usecase.update_invoice_after_lookup(Err(StoreError::Unavailable), 500, true)
    {
        Ok(invoice) => table.update(invoice),
        Err(error) => Err(error),
    };
    assert_eq!(outcome, Err(StoreError::Unavailable));
    assert_eq!(table.find_all(), vec![kept]);
}
