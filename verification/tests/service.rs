use crud_service::operation::Operation;
use crud_service::record::{Date, Item, User};
use crud_service::reply::{Reply, Status};
use crud_service::route::{Method, Resource, Route};
use crud_service::launch::Launch;
use crud_service::service::{call, stage, Body, Call, Response, Service, Stage};

fn ann() -> User {
    User { id: None, name: "ann".to_string() }
}

fn pen() -> Item {
    Item {
        id: None,
        name: "pen".to_string(),
        user_id: None,
        sell_price_cents: Some(300),
        buy_price_cents: Some(120),
        buy_date: Date::new(2019, 12, 31).unwrap(),
        sell_date: Date::new(2020, 1, 1).unwrap(),
    }
}

fn launched(stage: Stage) -> Service {
    let mut launch = Launch::new(stage);
    launch.advance(true);
    launch.advance(true);
    match launch.serve() {
        Ok(service) => service,
        Err(_) => panic!("not serving"),
    }
}

fn serving() -> Service {
    launched(stage())
}

#[test]
fn a_service_keeps_the_stage_of_its_launch() {
    assert_eq!(serving().stage(), stage());
    assert_eq!(launched(Stage { base: "/v2" }).stage().base, "/v2");
}

#[test]
fn a_launched_service_holds_no_record() {
    let service = serving();
    assert_eq!(service.list_users(), Reply::Listed(vec![]));
    assert_eq!(service.list_items(), Reply::Listed(vec![]));
    assert_eq!(service.get_user(1), Reply::NotFound);
    assert_eq!(service.get_item(1), Reply::NotFound);
}

#[test]
fn the_handlers_of_the_users() {
    let mut service = serving();
    assert_eq!(service.create_user(ann()), Reply::Created(ann()));
    assert_eq!(service.list_users(), Reply::Listed(vec![1]));
    assert_eq!(service.get_user(1), Reply::Found(User { id: Some(1), name: "ann".to_string() }));
    assert_eq!(service.get_user(2), Reply::NotFound);
    assert_eq!(service.delete_user(2), Reply::NotFound);
    assert_eq!(service.delete_user(1), Reply::Done);
    assert_eq!(service.delete_user(1), Reply::NotFound);
    assert_eq!(service.list_users(), Reply::Listed(vec![]));
}

#[test]
fn the_handlers_of_the_items() {
    let mut service = serving();
    assert_eq!(service.create_item(pen()), Reply::Created(pen()));
    assert_eq!(service.create_item(pen()), Reply::Created(pen()));
    assert_eq!(service.list_items(), Reply::Listed(vec![1, 2]));
    assert_eq!(service.get_item(2), Reply::Found(Item { id: Some(2), ..pen() }));
    assert_eq!(service.delete_item(1), Reply::Done);
    assert_eq!(service.list_items(), Reply::Listed(vec![2]));
    assert_eq!(service.clear_items(), Reply::Done);
    assert_eq!(service.list_items(), Reply::Listed(vec![]));
}

#[test]
fn the_resources_do_not_touch_each_other() {
    let mut service = serving();
    assert_eq!(service.create_user(ann()), Reply::Created(ann()));
    assert_eq!(service.create_item(Item { user_id: Some(1), ..pen() }).status(), Status::Created);
    assert_eq!(service.delete_user(1), Reply::Done);
    assert_eq!(service.get_item(1), Reply::Found(Item { id: Some(1), user_id: Some(1), ..pen() }));
    assert_eq!(service.clear_items(), Reply::Done);
    assert_eq!(service.list_users(), Reply::Listed(vec![]));
    assert_eq!(service.create_user(ann()), Reply::Created(ann()));
    assert_eq!(service.list_users(), Reply::Listed(vec![2]));
}

#[test]
fn a_route_and_a_body_make_a_call() {
    assert_eq!(
        call(Route::Create(Resource::Users), Body::User(ann())),
        Some(Call::Users(Operation::Create(ann())))
    );
    assert_eq!(
        call(Route::Create(Resource::Items), Body::Item(pen())),
        Some(Call::Items(Operation::Create(pen())))
    );
    assert_eq!(call(Route::Create(Resource::Users), Body::Item(pen())), None);
    assert_eq!(call(Route::Create(Resource::Users), Body::Empty), None);
    assert_eq!(call(Route::Create(Resource::Items), Body::User(ann())), None);
    assert_eq!(call(Route::Create(Resource::Items), Body::Empty), None);
    assert_eq!(call(Route::List(Resource::Users), Body::Empty), Some(Call::Users(Operation::List)));
    assert_eq!(call(Route::List(Resource::Items), Body::User(ann())), Some(Call::Items(Operation::List)));
    assert_eq!(call(Route::Get(Resource::Users, 4), Body::Empty), Some(Call::Users(Operation::Get(4))));
    assert_eq!(call(Route::Get(Resource::Items, 4), Body::Empty), Some(Call::Items(Operation::Get(4))));
    assert_eq!(
        call(Route::Delete(Resource::Users, 4), Body::Empty),
        Some(Call::Users(Operation::Delete(4)))
    );
    assert_eq!(
        call(Route::Delete(Resource::Items, 4), Body::Empty),
        Some(Call::Items(Operation::Delete(4)))
    );
}

#[test]
fn perform_answers_for_the_resource_that_was_called() {
    let mut service = serving();
    assert_eq!(
        service.perform(Call::Users(Operation::Create(ann()))),
        Response::Users(Reply::Created(ann()))
    );
    assert_eq!(service.perform(Call::Items(Operation::List)), Response::Items(Reply::Listed(vec![])));
    assert_eq!(service.perform(Call::Users(Operation::List)), Response::Users(Reply::Listed(vec![1])));
    assert_eq!(service.perform(Call::Items(Operation::Get(1))), Response::Items(Reply::NotFound));
}

#[test]
fn dispatch_follows_the_table_of_routes() {
    let mut service = serving();
    let created = service.dispatch(Method::Post, "/diesel/user", Body::User(ann()));
    assert_eq!(created, Response::Users(Reply::Created(ann())));
    assert_eq!(created.status().code(), 201);

    let listed = service.dispatch(Method::Get, "/diesel/users", Body::Empty);
    assert_eq!(listed, Response::Users(Reply::Listed(vec![1])));
    assert_eq!(listed.status().code(), 200);

    let found = service.dispatch(Method::Get, "/diesel/users/1", Body::Empty);
    assert_eq!(found, Response::Users(Reply::Found(User { id: Some(1), name: "ann".to_string() })));
    assert_eq!(found.status().code(), 200);

    let missing = service.dispatch(Method::Get, "/diesel/users/2", Body::Empty);
    assert_eq!(missing, Response::Users(Reply::NotFound));
    assert_eq!(missing.status().code(), 404);

    let deleted = service.dispatch(Method::Delete, "/diesel/users/1", Body::Empty);
    assert_eq!(deleted, Response::Users(Reply::Done));
    assert_eq!(deleted.status().code(), 200);

    let again = service.dispatch(Method::Delete, "/diesel/users/1", Body::Empty);
    assert_eq!(again, Response::Users(Reply::NotFound));
    assert_eq!(again.status().code(), 404);
}

#[test]
fn dispatch_does_not_route_what_names_no_operation() {
    let mut service = serving();
    for (method, path) in [
        (Method::Get, "/"),
        (Method::Get, "/diesel"),
        (Method::Put, "/diesel/users/1"),
        (Method::Patch, "/diesel/user"),
        (Method::Post, "/diesel/users"),
        (Method::Delete, "/diesel/users"),
        (Method::Delete, "/diesel/items"),
        (Method::Get, "/diesel/users/one"),
        (Method::Get, "/users"),
    ] {
        let response = service.dispatch(method, path, Body::User(ann()));
        assert_eq!(response, Response::Unrouted);
        assert_eq!(response.status(), Status::NotFound);
    }
    assert_eq!(service.list_users(), Reply::Listed(vec![]));
}

#[test]
fn dispatch_rejects_a_body_that_is_no_record_of_the_resource() {
    let mut service = serving();
    let response = service.dispatch(Method::Post, "/diesel/user", Body::Item(pen()));
    assert_eq!(response, Response::Rejected);
    assert_eq!(response.status(), Status::UnprocessableEntity);
    assert_eq!(response.status().code(), 422);
    assert_eq!(service.dispatch(Method::Post, "/diesel/item", Body::Empty), Response::Rejected);
    assert_eq!(service.list_users(), Reply::Listed(vec![]));
    assert_eq!(service.list_items(), Reply::Listed(vec![]));
}

#[test]
fn dispatch_uses_the_mount_point_of_the_stage() {
    let mut service = launched(Stage { base: "/v2" });
    assert_eq!(service.dispatch(Method::Get, "/diesel/users", Body::Empty), Response::Unrouted);
    assert_eq!(
        service.dispatch(Method::Get, "/v2/users", Body::Empty),
        Response::Users(Reply::Listed(vec![]))
    );
}

#[test]
fn no_request_deletes_all_records() {
    let mut service = serving();
    assert_eq!(service.create_item(pen()), Reply::Created(pen()));
    assert_eq!(service.create_item(pen()), Reply::Created(pen()));
    for method in [Method::Delete, Method::Post, Method::Put, Method::Patch] {
        for path in ["/diesel/items", "/diesel/item", "/diesel", "/diesel/items/"] {
            let response = service.dispatch(method, path, Body::Empty);
            assert_ne!(response.status(), Status::Success, "{:?} {}", method, path);
        }
    }
    let response = service.dispatch(Method::Delete, "/diesel/items", Body::Empty);
    assert_eq!(response, Response::Unrouted);
    assert_eq!(response.status().code(), 404);
    assert_eq!(service.list_items(), Reply::Listed(vec![1, 2]));
}
