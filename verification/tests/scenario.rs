use crud_service::record::{Date, Item};
use crud_service::reply::{Reply, Status};
use crud_service::route::Method;
use crud_service::launch::Launch;
use crud_service::service::{stage, Body, Response, Service, Stage};
use crud_service::startup::Step;
use rand::Rng;

fn listed(response: Response) -> Vec<i32> {
    match response {
        Response::Items(Reply::Listed(ids)) => ids,
        other => panic!("no list of items: {:?}", other),
    }
}

fn client(stage: Stage) -> Service {
    let mut launch = Launch::new(stage);
    while launch.next() != Step::Serve {
        launch.advance(true);
    }
    match launch.serve() {
        Ok(service) => service,
        Err(_) => panic!("not serving"),
    }
}

fn test(base: &str, stage: Stage) {
    // Number of items we're going to create/read/delete.
    const N: usize = 20;

    let mut client = client(stage);
    let one = format!("{}/item", base);
    let all = format!("{}/items", base);

    // Clear everything from the database.
    assert_eq!(client.clear_items().status(), Status::Success);
    assert_eq!(listed(client.dispatch(Method::Get, &all, Body::Empty)), Vec::<i32>::new());

    // Add some random items, ensure they're listable and readable.
    for i in 1..=N {
        let name = format!("Item - {}", i);
        let mut rng = rand::thread_rng();
        let price: i32 = rng.gen();
        let item = Item {
            id: None,
            name: name.clone(),
            user_id: None,
            sell_price_cents: None,
            buy_price_cents: Some(price),
            buy_date: Date::new(2021, 6, 9).unwrap(),
            sell_date: Date::new(2021, 7, 1).unwrap(),
        };

        // Create a new item.
        let response = client.dispatch(Method::Post, &one, Body::Item(item.clone()));
        assert_eq!(response.status(), Status::Created);
        assert_eq!(response, Response::Items(Reply::Created(item.clone())));

        // Ensure the index shows one more item.
        let list = listed(client.dispatch(Method::Get, &all, Body::Empty));
        assert_eq!(list.len(), i);

        // The last in the index is the new one; ensure contents match.
        let last = list.last().unwrap();
        let response = client.dispatch(Method::Get, &format!("{}/{}", all, last), Body::Empty);
        assert_eq!(response.status(), Status::Success);
        match response {
            Response::Items(Reply::Found(found)) => {
                assert_eq!(found.id, Some(*last));
                assert_eq!(Item { id: None, ..found }, item);
            }
            other => panic!("no item: {:?}", other),
        }
    }

    // Now delete all of the items.
    for _ in 1..=N {
        // Get a valid ID from the index.
        let list = listed(client.dispatch(Method::Get, &all, Body::Empty));
        let id = list.get(0).expect("have item");

        // Delete that item.
        let response = client.dispatch(Method::Delete, &format!("{}/{}", all, id), Body::Empty);
        assert_eq!(response.status(), Status::Success);
    }

    // Ensure they're all gone.
    let list = listed(client.dispatch(Method::Get, &all, Body::Empty));
    assert!(list.is_empty());

    // Trying to delete should now 404.
    let response = client.dispatch(Method::Delete, &format!("{}/{}", all, 1), Body::Empty);
    assert_eq!(response.status(), Status::NotFound);
    assert_eq!(response.status().code(), 404);
}

#[test]
fn test_diesel() {
    test("/diesel", stage())
}

#[test]
fn clearing_an_empty_resource_succeeds_and_leaves_it_empty() {
    let mut service = client(stage());
    assert_eq!(service.clear_items(), Reply::Done);
    assert_eq!(service.list_items(), Reply::Listed(vec![]));
    assert_eq!(service.clear_items(), Reply::Done);
    assert_eq!(service.list_items(), Reply::Listed(vec![]));
    assert_eq!(service.clear_users(), Reply::Done);
    assert_eq!(service.list_users(), Reply::Listed(vec![]));
}
