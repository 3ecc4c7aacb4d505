use crud_service::operation::Operation;
use crud_service::record::{Date, Item, Record, User};
use crud_service::reply::Reply;
use crud_service::table::{StoreError, Table};

fn user(name: &str) -> User {
    User { id: None, name: name.to_string() }
}

fn item(name: &str, price: i32) -> Item {
    Item {
        id: None,
        name: name.to_string(),
        user_id: Some(7),
        sell_price_cents: None,
        buy_price_cents: Some(price),
        buy_date: Date::new(2020, 2, 29).unwrap(),
        sell_date: Date::new(2020, 3, 1).unwrap(),
    }
}

#[test]
fn a_new_table_is_empty() {
    let table: Table<User> = Table::new();
    assert_eq!(table.len(), 0);
    assert_eq!(table.select_ids(), Vec::<i32>::new());
    assert_eq!(table.select_by_id(1), None);
}

#[test]
fn insert_assigns_ids_from_one_upwards() {
    let mut table: Table<User> = Table::new();
    assert_eq!(table.insert(&user("ann")), Ok(1));
    assert_eq!(table.insert(&user("bob")), Ok(1));
    assert_eq!(table.insert(&user("cid")), Ok(1));
    assert_eq!(table.len(), 3);
    assert_eq!(table.select_ids(), vec![1, 2, 3]);
    assert_eq!(table.select_by_id(2), Some(User { id: Some(2), name: "bob".to_string() }));
}

#[test]
fn insert_does_not_read_the_id_of_the_record() {
    let mut table: Table<User> = Table::new();
    let submitted = User { id: Some(40), name: "ann".to_string() };
    assert_eq!(table.insert(&submitted), Ok(1));
    assert_eq!(table.select_ids(), vec![1]);
    assert_eq!(table.select_by_id(40), None);
    assert_eq!(table.select_by_id(1), Some(User { id: Some(1), name: "ann".to_string() }));
}

#[test]
fn insert_starts_after_the_given_id() {
    let mut table: Table<Item> = Table::starting_after(-3);
    assert_eq!(table.insert(&item("pen", 120)), Ok(1));
    assert_eq!(table.insert(&item("ink", 450)), Ok(1));
    assert_eq!(table.select_ids(), vec![-2, -1]);
    assert_eq!(table.select_by_id(-1), Some(Item { id: Some(-1), ..item("ink", 450) }));
}

#[test]
fn insert_fails_when_no_id_is_left() {
    let mut table: Table<User> = Table::starting_after(i32::MAX - 1);
    assert_eq!(table.insert(&user("last")), Ok(1));
    assert_eq!(table.select_ids(), vec![i32::MAX]);
    assert_eq!(table.insert(&user("late")), Err(StoreError::Exhausted));
    assert_eq!(table.select_ids(), vec![i32::MAX]);
    assert_eq!(table.len(), 1);
}

#[test]
fn delete_by_id_affects_one_row_then_none() {
    let mut table: Table<User> = Table::new();
    for name in ["ann", "bob", "cid"] {
        assert_eq!(table.insert(&user(name)), Ok(1));
    }
    assert_eq!(table.delete_by_id(2), 1);
    assert_eq!(table.select_ids(), vec![1, 3]);
    assert_eq!(table.select_by_id(2), None);
    assert_eq!(table.delete_by_id(2), 0);
    assert_eq!(table.select_ids(), vec![1, 3]);
    assert_eq!(table.delete_by_id(9), 0);
}

#[test]
fn a_deleted_id_is_not_assigned_again() {
    let mut table: Table<User> = Table::new();
    assert_eq!(table.insert(&user("ann")), Ok(1));
    assert_eq!(table.insert(&user("bob")), Ok(1));
    assert_eq!(table.delete_by_id(2), 1);
    assert_eq!(table.insert(&user("cid")), Ok(1));
    assert_eq!(table.select_ids(), vec![1, 3]);
    assert_eq!(table.delete_all(), 2);
    assert_eq!(table.insert(&user("dan")), Ok(1));
    assert_eq!(table.select_ids(), vec![4]);
}

#[test]
fn delete_all_returns_the_number_of_rows() {
    let mut table: Table<Item> = Table::new();
    assert_eq!(table.delete_all(), 0);
    for i in 0..5 {
        assert_eq!(table.insert(&item("thing", i)), Ok(1));
    }
    assert_eq!(table.delete_all(), 5);
    assert_eq!(table.len(), 0);
    assert_eq!(table.delete_all(), 0);
}

#[test]
fn with_id_changes_the_id_only() {
    let pen = item("pen", 120);
    let stored = pen.with_id(Some(12));
    assert_eq!(stored.id(), Some(12));
    assert_eq!(stored, Item { id: Some(12), ..pen.clone() });
    assert_eq!(stored.with_id(None), pen);
    let ann = user("ann").with_id(Some(3));
    assert_eq!(ann.id(), Some(3));
    assert_eq!(ann.name, "ann");
}

#[test]
fn create_then_get_returns_what_was_submitted() {
    let mut table: Table<Item> = Table::new();
    let pen = item("pen", 120);
    assert_eq!(table.apply(Operation::Create(pen.clone())), Reply::Created(pen.clone()));
    let ids = match table.apply(Operation::List) {
        Reply::Listed(ids) => ids,
        other => panic!("no list: {:?}", other),
    };
    assert_eq!(ids, vec![1]);
    match table.apply(Operation::Get(ids[0])) {
        Reply::Found(found) => {
            assert_eq!(found.id, Some(1));
            assert_eq!(found.with_id(None), pen);
        }
        other => panic!("no item: {:?}", other),
    }
}

#[test]
fn list_counts_the_records_created_and_not_deleted() {
    let mut table: Table<User> = Table::new();
    let mut live = 0;
    let steps: Vec<Operation<User>> = vec![
        Operation::Create(user("a")),
        Operation::Create(user("b")),
        Operation::Delete(1),
        Operation::Delete(1),
        Operation::Get(2),
        Operation::Create(user("c")),
        Operation::Delete(7),
        Operation::Create(user("d")),
        Operation::Delete(3),
        Operation::List,
    ];
    let expected = [1, 2, 1, 1, 1, 2, 2, 3, 2, 2];
    for (step, want) in steps.into_iter().zip(expected) {
        let is_create = matches!(step, Operation::Create(_));
        let is_delete = matches!(step, Operation::Delete(_));
        let reply = table.apply(step);
        if is_create && matches!(reply, Reply::Created(_)) {
            live += 1;
        }
        if is_delete && reply == Reply::Done {
            live -= 1;
        }
        assert_eq!(live, want);
        match table.apply(Operation::List) {
            Reply::Listed(ids) => assert_eq!(ids.len(), want),
            other => panic!("no list: {:?}", other),
        }
    }
    assert_eq!(table.delete_all(), 2);
    assert_eq!(table.apply(Operation::List), Reply::Listed(vec![]));
}

#[test]
fn delete_succeeds_once_and_is_not_found_after() {
    let mut table: Table<User> = Table::new();
    assert_eq!(table.apply(Operation::Create(user("ann"))), Reply::Created(user("ann")));
    assert_eq!(table.apply(Operation::Create(user("bob"))), Reply::Created(user("bob")));
    assert_eq!(table.apply(Operation::Delete(1)), Reply::Done);
    assert_eq!(table.apply(Operation::List), Reply::Listed(vec![2]));
    assert_eq!(table.apply(Operation::Delete(1)), Reply::NotFound);
    assert_eq!(table.apply(Operation::List), Reply::Listed(vec![2]));
}

#[test]
fn get_of_an_id_that_is_not_listed_is_not_found() {
    let mut table: Table<User> = Table::new();
    assert_eq!(table.apply(Operation::Get(1)), Reply::NotFound);
    assert_eq!(table.apply(Operation::Create(user("ann"))), Reply::Created(user("ann")));
    assert_eq!(table.apply(Operation::List), Reply::Listed(vec![1]));
    for id in [0, 2, -1, i32::MAX, i32::MIN] {
        assert_eq!(table.apply(Operation::Get(id)), Reply::NotFound);
    }
    assert_eq!(
        table.apply(Operation::Get(1)),
        Reply::Found(User { id: Some(1), name: "ann".to_string() })
    );
}

#[test]
fn create_fails_on_a_table_without_ids_left() {
    let mut table: Table<User> = Table::starting_after(i32::MAX);
    let reply = table.apply(Operation::Create(user("late")));
    assert_eq!(reply, Reply::Failed(StoreError::Exhausted));
    assert_eq!(reply.status().code(), 500);
    assert_eq!(table.apply(Operation::List), Reply::Listed(vec![]));
}
