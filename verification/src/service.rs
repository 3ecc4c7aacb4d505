//! The service as a whole: the routes in front, and the two resources behind
//! them, held in memory.

use vstd::prelude::*;
use crate::operation::Operation;
use crate::record::{Item, ItemView, User, UserView};
use crate::reply::{clear, get, list, Reply, ReplyView, Status};
use crate::route::{resolve, route_of, Method, Resource, Route};
use crate::table::{Table, TableView};

verus! {

/// What is attached to a launch to make the service serve the two
/// resources.
#[derive(Clone, Copy, Debug, PartialEq, Eq)]
pub struct Stage {
    /// The mount point: the path below which the routes stand.
    pub base: &'static str,
}

/// The stage of the service, mounted at `/diesel`.
pub fn stage() -> (stage: Stage)
    ensures
        stage.base@ == "/diesel"@,
{
    Stage { base: "/diesel" }
}

/// The body of a request.
#[derive(Clone, Debug, PartialEq, Eq)]
pub enum Body {
    Empty,
    User(User),
    Item(Item),
}

/// What a [`Body`] holds.
pub enum BodyView {
    Empty,
    User(UserView),
    Item(ItemView),
}

impl View for Body {
    type V = BodyView;

    open spec fn view(&self) -> BodyView {
        match self {
            Body::Empty => BodyView::Empty,
            Body::User(user) => BodyView::User(user@),
            Body::Item(item) => BodyView::Item(item@),
        }
    }
}

/// An operation on one of the two resources.
#[derive(Clone, Debug, PartialEq, Eq)]
pub enum Call {
    Users(Operation<User>),
    Items(Operation<Item>),
}

/// What a [`Call`] holds.
pub enum CallView {
    Users(Operation<UserView>),
    Items(Operation<ItemView>),
}

impl View for Call {
    type V = CallView;

    open spec fn view(&self) -> CallView {
        match self {
            Call::Users(operation) => CallView::Users(operation@),
            Call::Items(operation) => CallView::Items(operation@),
        }
    }
}

/// The operation that a route and the body of the request make. There is
/// none where the route is to create a record and the body is no record of
/// the resource. The other routes do not read the body.
pub open spec fn call_of(route: Route, body: BodyView) -> Option<CallView> {
    match route {
        Route::Create(Resource::Users) => match body {
            BodyView::User(user) => Some(CallView::Users(Operation::Create(user))),
            _ => None,
        },
        Route::Create(Resource::Items) => match body {
            BodyView::Item(item) => Some(CallView::Items(Operation::Create(item))),
            _ => None,
        },
        Route::List(Resource::Users) => Some(CallView::Users(Operation::List)),
        Route::List(Resource::Items) => Some(CallView::Items(Operation::List)),
        Route::Get(Resource::Users, id) => Some(CallView::Users(Operation::Get(id))),
        Route::Get(Resource::Items, id) => Some(CallView::Items(Operation::Get(id))),
        Route::Delete(Resource::Users, id) => Some(CallView::Users(Operation::Delete(id))),
        Route::Delete(Resource::Items, id) => Some(CallView::Items(Operation::Delete(id))),
    }
}

/// The view of a call that may be absent.
pub open spec fn call_view(call: Option<Call>) -> Option<CallView> {
    match call {
        Some(call) => Some(call@),
        None => None,
    }
}

/// Makes the operation that a route names, with the body of the request.
pub fn call(route: Route, body: Body) -> (call: Option<Call>)
    ensures
        call_view(call) == call_of(route, body@),
{
    match route {
        Route::Create(Resource::Users) => match body {
            Body::User(user) => Some(Call::Users(Operation::Create(user))),
            _ => None,
        },
        Route::Create(Resource::Items) => match body {
            Body::Item(item) => Some(Call::Items(Operation::Create(item))),
            _ => None,
        },
        Route::List(Resource::Users) => Some(Call::Users(Operation::List)),
        Route::List(Resource::Items) => Some(Call::Items(Operation::List)),
        Route::Get(Resource::Users, id) => Some(Call::Users(Operation::Get(id))),
        Route::Get(Resource::Items, id) => Some(Call::Items(Operation::Get(id))),
        Route::Delete(Resource::Users, id) => Some(Call::Users(Operation::Delete(id))),
        Route::Delete(Resource::Items, id) => Some(Call::Items(Operation::Delete(id))),
    }
}

/// The answer to a request.
#[derive(Clone, Debug, PartialEq, Eq)]
pub enum Response {
    /// The answer to an operation on the users.
    Users(Reply<User>),
    /// The answer to an operation on the items.
    Items(Reply<Item>),
    /// Method and path name no operation.
    Unrouted,
    /// The body is not a record of the resource.
    Rejected,
}

/// What a [`Response`] holds.
pub enum ResponseView {
    Users(ReplyView<UserView>),
    Items(ReplyView<ItemView>),
    Unrouted,
    Rejected,
}

impl ResponseView {
    /// The status that the answer goes out with.
    pub open spec fn status(self) -> Status {
        match self {
            ResponseView::Users(reply) => reply.status(),
            ResponseView::Items(reply) => reply.status(),
            ResponseView::Unrouted => Status::NotFound,
            ResponseView::Rejected => Status::UnprocessableEntity,
        }
    }
}

impl View for Response {
    type V = ResponseView;

    open spec fn view(&self) -> ResponseView {
        match self {
            Response::Users(reply) => ResponseView::Users(reply@),
            Response::Items(reply) => ResponseView::Items(reply@),
            Response::Unrouted => ResponseView::Unrouted,
            Response::Rejected => ResponseView::Rejected,
        }
    }
}

impl Response {
    /// The status that the answer goes out with.
    pub fn status(&self) -> (status: Status)
        ensures
            status == self@.status(),
    {
        match self {
            Response::Users(reply) => reply.status(),
            Response::Items(reply) => reply.status(),
            Response::Unrouted => Status::NotFound,
            Response::Rejected => Status::UnprocessableEntity,
        }
    }
}

/// What a service holds: its mount point and its two tables.
pub struct ServiceView {
    pub base: Seq<char>,
    pub users: TableView<User>,
    pub items: TableView<Item>,
}

impl ServiceView {
    /// Both tables are well-formed.
    pub open spec fn wf(self) -> bool {
        self.users.wf() && self.items.wf()
    }

    /// The service mounted at `base`, with no record stored.
    pub open spec fn launched(base: Seq<char>) -> ServiceView {
        ServiceView { base, users: TableView::empty(0), items: TableView::empty(0) }
    }

    /// The service after the operation, and the answer to it. The other
    /// resource stays as it is.
    pub open spec fn perform(self, call: CallView) -> (ServiceView, ResponseView) {
        match call {
            CallView::Users(operation) => (
                ServiceView { users: self.users.apply(operation).0, ..self },
                ResponseView::Users(self.users.apply(operation).1),
            ),
            CallView::Items(operation) => (
                ServiceView { items: self.items.apply(operation).0, ..self },
                ResponseView::Items(self.items.apply(operation).1),
            ),
        }
    }

    /// The service after the request, and the answer to it. A request
    /// whose method and path name no operation is not routed, one whose
    /// body is not what the operation takes is rejected, and neither
    /// changes anything.
    pub open spec fn dispatch(self, method: Method, path: Seq<char>, body: BodyView) -> (
        ServiceView,
        ResponseView,
    ) {
        match route_of(self.base, method, path) {
            None => (self, ResponseView::Unrouted),
            Some(route) => match call_of(route, body) {
                None => (self, ResponseView::Rejected),
                Some(call) => self.perform(call),
            },
        }
    }
}

/// An operation on one resource leaves the records of the other as they
/// are: nothing is deleted along with a user, and nothing along with an
/// item.
pub proof fn law_resources_apart(service: ServiceView, call: CallView)
    ensures
        service.perform(call).0.base == service.base,
        call is Users ==> service.perform(call).0.items == service.items,
        call is Items ==> service.perform(call).0.users == service.users,
{
}

/// The service, with its records held in memory. There is no service but
/// one that a launch has handed out, after its startup had come to an end
/// with success.
pub struct Service {
    stage: Stage,
    users: Table<User>,
    items: Table<Item>,
}

impl View for Service {
    type V = ServiceView;

    closed spec fn view(&self) -> ServiceView {
        ServiceView { base: self.stage.base@, users: self.users@, items: self.items@ }
    }
}

impl Service {
    #[verifier::type_invariant]
    spec fn inv(self) -> bool {
        self@.wf()
    }

    /// A service with the given stage attached, and no record stored.
    pub(crate) fn new(stage: Stage) -> (service: Service)
        ensures
            service@ == ServiceView::launched(stage.base@),
            service@.wf(),
    {
        Service { stage, users: Table::new(), items: Table::new() }
    }

    /// The stage that is attached.
    pub fn stage(&self) -> (stage: Stage)
        ensures
            stage.base@ == self@.base,
    {
        self.stage
    }

    /// Carries out an operation on the users and answers it.
    fn on_users(&mut self, operation: Operation<User>) -> (reply: Reply<User>)
        ensures
            (final(self)@, ResponseView::Users(reply@)) == old(self)@.perform(
                CallView::Users(operation@),
            ),
            final(self)@.wf(),
    {
        proof {
            use_type_invariant(&*self);
        }
        let mut users: Table<User> = Table::new();
        std::mem::swap(&mut users, &mut self.users);
        let reply = users.apply(operation);
        self.users = users;
        reply
    }

    /// Carries out an operation on the items and answers it.
    fn on_items(&mut self, operation: Operation<Item>) -> (reply: Reply<Item>)
        ensures
            (final(self)@, ResponseView::Items(reply@)) == old(self)@.perform(
                CallView::Items(operation@),
            ),
            final(self)@.wf(),
    {
        proof {
            use_type_invariant(&*self);
        }
        let mut items: Table<Item> = Table::new();
        std::mem::swap(&mut items, &mut self.items);
        let reply = items.apply(operation);
        self.items = items;
        reply
    }

    /// Carries out the operation and answers it.
    pub fn perform(&mut self, call: Call) -> (response: Response)
        ensures
            (final(self)@, response@) == old(self)@.perform(call@),
            final(self)@.wf(),
    {
        match call {
            Call::Users(operation) => Response::Users(self.on_users(operation)),
            Call::Items(operation) => Response::Items(self.on_items(operation)),
        }
    }

    /// Answers a request: finds the operation that method and path name,
    /// gives it the body, carries it out and returns the answer.
    pub fn dispatch(&mut self, method: Method, path: &str, body: Body) -> (response: Response)
        ensures
            (final(self)@, response@) == old(self)@.dispatch(method, path@, body@),
            final(self)@.wf(),
    {
        proof {
            use_type_invariant(&*self);
        }
        match resolve(self.stage.base, method, path) {
            None => Response::Unrouted,
            Some(route) => match call(route, body) {
                None => Response::Rejected,
                Some(call) => self.perform(call),
            },
        }
    }

    /// Stores the user and returns it as it was submitted.
    pub fn create_user(&mut self, user: User) -> (reply: Reply<User>)
        ensures
            (final(self)@, ResponseView::Users(reply@)) == old(self)@.perform(
                CallView::Users(Operation::Create(user@)),
            ),
            final(self)@.wf(),
    {
        self.on_users(Operation::Create(user))
    }

    /// The ids of the users, oldest user first.
    pub fn list_users(&self) -> (reply: Reply<User>)
        ensures
            reply@ == self@.users.apply(Operation::List).1,
            self@.wf(),
    {
        proof {
            use_type_invariant(self);
        }
        list(Ok(self.users.select_ids()))
    }

    /// The user with the given id, or not found.
    pub fn get_user(&self, id: i32) -> (reply: Reply<User>)
        ensures
            reply@ == self@.users.apply(Operation::Get(id)).1,
            self@.wf(),
    {
        proof {
            use_type_invariant(self);
        }
        get(Ok(self.users.select_by_id(id)))
    }

    /// Deletes the user with the given id, or answers not found.
    pub fn delete_user(&mut self, id: i32) -> (reply: Reply<User>)
        ensures
            (final(self)@, ResponseView::Users(reply@)) == old(self)@.perform(
                CallView::Users(Operation::Delete(id)),
            ),
            final(self)@.wf(),
    {
        self.on_users(Operation::Delete(id))
    }

    /// Deletes all users. No request asks for this: it is for whoever holds
    /// the service, to begin anew.
    pub fn clear_users(&mut self) -> (reply: Reply<User>)
        ensures
            final(self)@ == (ServiceView { users: old(self)@.users.cleared(), ..old(self)@ }),
            reply@ == ReplyView::<UserView>::Done,
            final(self)@.wf(),
    {
        proof {
            use_type_invariant(&*self);
        }
        let mut users: Table<User> = Table::new();
        std::mem::swap(&mut users, &mut self.users);
        let reply = clear(Ok(users.delete_all()));
        self.users = users;
        reply
    }

    /// Stores the item and returns it as it was submitted.
    pub fn create_item(&mut self, item: Item) -> (reply: Reply<Item>)
        ensures
            (final(self)@, ResponseView::Items(reply@)) == old(self)@.perform(
                CallView::Items(Operation::Create(item@)),
            ),
            final(self)@.wf(),
    {
        self.on_items(Operation::Create(item))
    }

    /// The ids of the items, oldest item first.
    pub fn list_items(&self) -> (reply: Reply<Item>)
        ensures
            reply@ == self@.items.apply(Operation::List).1,
            self@.wf(),
    {
        proof {
            use_type_invariant(self);
        }
        list(Ok(self.items.select_ids()))
    }

    /// The item with the given id, or not found.
    pub fn get_item(&self, id: i32) -> (reply: Reply<Item>)
        ensures
            reply@ == self@.items.apply(Operation::Get(id)).1,
            self@.wf(),
    {
        proof {
            use_type_invariant(self);
        }
        get(Ok(self.items.select_by_id(id)))
    }

    /// Deletes the item with the given id, or answers not found.
    pub fn delete_item(&mut self, id: i32) -> (reply: Reply<Item>)
        ensures
            (final(self)@, ResponseView::Items(reply@)) == old(self)@.perform(
                CallView::Items(Operation::Delete(id)),
            ),
            final(self)@.wf(),
    {
        self.on_items(Operation::Delete(id))
    }

    /// Deletes all items. No request asks for this: it is for whoever holds
    /// the service, to begin anew.
    pub fn clear_items(&mut self) -> (reply: Reply<Item>)
        ensures
            final(self)@ == (ServiceView { items: old(self)@.items.cleared(), ..old(self)@ }),
            reply@ == ReplyView::<ItemView>::Done,
            final(self)@.wf(),
    {
        proof {
            use_type_invariant(&*self);
        }
        let mut items: Table<Item> = Table::new();
        std::mem::swap(&mut items, &mut self.items);
        let reply = clear(Ok(items.delete_all()));
        self.items = items;
        reply
    }
}

} // verus!
