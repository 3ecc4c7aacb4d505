//! The routes of the service: which operation a method and a path name.

use vstd::prelude::*;
use crate::text::{chars_of, holds_at, id_of, read_id, word_at};

verus! {

/// The method of a request.
#[derive(Clone, Copy, Debug, PartialEq, Eq, Structural)]
pub enum Method {
    Get,
    Put,
    Post,
    Delete,
    Options,
    Head,
    Trace,
    Connect,
    Patch,
}

/// One of the two kinds of record that the service keeps.
#[derive(Clone, Copy, Debug, PartialEq, Eq, Structural)]
pub enum Resource {
    Users,
    Items,
}

impl Resource {
    /// The path, below the mount point, to which a record is submitted.
    pub open spec fn record_path(self) -> Seq<char> {
        match self {
            Resource::Users => "/user"@,
            Resource::Items => "/item"@,
        }
    }

    /// The path, below the mount point, of the records of the resource. A
    /// record is found at this path followed by `/` and its id.
    pub open spec fn collection_path(self) -> Seq<char> {
        match self {
            Resource::Users => "/users"@,
            Resource::Items => "/items"@,
        }
    }

    /// The path, below the mount point, to which a record is submitted.
    pub fn record(self) -> (path: &'static str)
        ensures
            path@ == self.record_path(),
    {
        match self {
            Resource::Users => "/user",
            Resource::Items => "/item",
        }
    }

    /// The path, below the mount point, of the records of the resource.
    pub fn collection(self) -> (path: &'static str)
        ensures
            path@ == self.collection_path(),
    {
        match self {
            Resource::Users => "/users",
            Resource::Items => "/items",
        }
    }
}

/// An operation of the service, as a request names it.
#[derive(Clone, Copy, Debug, PartialEq, Eq, Structural)]
pub enum Route {
    /// Store the submitted record.
    Create(Resource),
    /// List the ids of all records.
    List(Resource),
    /// Return the record with the given id.
    Get(Resource, i32),
    /// Delete the record with the given id.
    Delete(Resource, i32),
}

/// The operation on `resource` that `method` and `rest` name, where `rest`
/// is the part of the path below the mount point.
///
/// | method | path | operation |
/// |---|---|---|
/// | POST | the record path | create |
/// | GET | the collection path | list |
/// | GET | the collection path, `/`, an id | get |
/// | DELETE | the collection path, `/`, an id | delete |
pub open spec fn route_on(resource: Resource, method: Method, rest: Seq<char>) -> Option<Route> {
    let collection = resource.collection_path();
    if rest == resource.record_path() {
        match method {
            Method::Post => Some(Route::Create(resource)),
            _ => None,
        }
    } else if rest == collection {
        match method {
            Method::Get => Some(Route::List(resource)),
            _ => None,
        }
    } else if holds_at(rest, 0, collection.push('/')) {
        match (method, id_of(rest.skip(collection.len() as int + 1))) {
            (Method::Get, Some(id)) => Some(Route::Get(resource, id)),
            (Method::Delete, Some(id)) => Some(Route::Delete(resource, id)),
            _ => None,
        }
    } else {
        None
    }
}

/// The operation that `method` and `path` name in a service mounted at
/// `base`, if they name one.
pub open spec fn route_of(base: Seq<char>, method: Method, path: Seq<char>) -> Option<Route> {
    if holds_at(path, 0, base) {
        let rest = path.skip(base.len() as int);
        match route_on(Resource::Users, method, rest) {
            Some(route) => Some(route),
            None => route_on(Resource::Items, method, rest),
        }
    } else {
        None
    }
}

/// The routes are four for each resource, and there is no other: a route is
/// named by its own method, on its own path below the mount point, and a
/// path names a record by an id that is written as [`id_of`] reads it.
pub proof fn law_routes(base: Seq<char>, method: Method, path: Seq<char>)
    ensures
        match route_of(base, method, path) {
            Some(Route::Create(resource)) => {
                &&& method == Method::Post
                &&& path == base + resource.record_path()
            },
            Some(Route::List(resource)) => {
                &&& method == Method::Get
                &&& path == base + resource.collection_path()
            },
            Some(Route::Get(resource, id)) => {
                &&& method == Method::Get
                &&& exists|word: Seq<char>|
                    path == base + resource.collection_path().push('/') + word && #[trigger] id_of(
                        word,
                    ) == Some(id)
            },
            Some(Route::Delete(resource, id)) => {
                &&& method == Method::Delete
                &&& exists|word: Seq<char>|
                    path == base + resource.collection_path().push('/') + word && #[trigger] id_of(
                        word,
                    ) == Some(id)
            },
            None => true,
        },
{
    if holds_at(path, 0, base) {
        let rest = path.skip(base.len() as int);
        assert(path =~= base + rest);
        let resource = if route_on(Resource::Users, method, rest) is Some {
            Resource::Users
        } else {
            Resource::Items
        };
        let slash = resource.collection_path().push('/');
        if holds_at(rest, 0, slash) {
            let word = rest.skip(slash.len() as int);
            assert(rest =~= slash + word);
            assert(path =~= base + slash + word);
        }
    }
}

/// The operation on `resource` that `method` and the part of `path` from
/// position `at` on name.
fn resolve_on(resource: Resource, method: Method, path: &Vec<char>, at: usize) -> (route: Option<
    Route,
>)
    requires
        at <= path.len(),
    ensures
        route == route_on(resource, method, path@.skip(at as int)),
{
    let ghost rest = path@.skip(at as int);
    let record = chars_of(resource.record());
    let records = chars_of(resource.collection());
    let left = path.len() - at;
    proof {
        // What the path holds from `at` on, the rest holds from its start
        // on, and the rest is a word that it holds and that is as long.
        assert forall|word: Seq<char>| #[trigger]
            holds_at(path@, at as int, word) == holds_at(rest, 0, word) by {
            if at + word.len() <= path.len() {
                assert(path@.subrange(at as int, at + word.len()) =~= rest.subrange(
                    0,
                    word.len() as int,
                ));
            }
        }
        assert forall|word: Seq<char>|
            (#[trigger] holds_at(rest, 0, word) && word.len() == rest.len()) == (rest == word) by {
            assert(rest.subrange(0, rest.len() as int) =~= rest);
        }
    }
    if left == record.len() && word_at(path, at, &record) {
        match method {
            Method::Post => Some(Route::Create(resource)),
            _ => None,
        }
    } else if left == records.len() && word_at(path, at, &records) {
        match method {
            Method::Get => Some(Route::List(resource)),
            _ => None,
        }
    } else if left > records.len() && path[at + records.len()] == '/' && word_at(
        path,
        at,
        &records,
    ) {
        let from = at + records.len() + 1;
        proof {
            assert(rest.subrange(0, records@.len() as int + 1) =~= records@.push('/'));
            assert(path@.skip(from as int) =~= rest.skip(records@.len() as int + 1));
        }
        match (method, read_id(path, from)) {
            (Method::Get, Some(id)) => Some(Route::Get(resource, id)),
            (Method::Delete, Some(id)) => Some(Route::Delete(resource, id)),
            _ => None,
        }
    } else {
        proof {
            // The rest does not begin with the collection path and `/`:
            // else it would be longer than that path, begin with it, and
            // hold `/` behind it.
            let slash = records@.push('/');
            if holds_at(rest, 0, slash) {
                assert(rest.subrange(0, records@.len() as int) =~= slash.subrange(
                    0,
                    records@.len() as int,
                ));
                assert(slash.subrange(0, records@.len() as int) =~= records@);
                assert(rest[records@.len() as int] == slash[records@.len() as int]);
            }
        }
        None
    }
}

/// The operation that `method` and `path` name in a service mounted at
/// `base`, if they name one.
pub fn resolve(base: &str, method: Method, path: &str) -> (route: Option<Route>)
    ensures
        route == route_of(base@, method, path@),
{
    let base = chars_of(base);
    let path = chars_of(path);
    if !word_at(&path, 0, &base) {
        return None;
    }
    match resolve_on(Resource::Users, method, &path, base.len()) {
        Some(route) => Some(route),
        None => resolve_on(Resource::Items, method, &path, base.len()),
    }
}

} // verus!
