//! The routing table as data: the method and path of every endpoint
//! the server mounts under the burgers resource. The embedding program
//! binds each entry to its handler; there is no entry for the root
//! path, so a request to `/` finds nothing.

use vstd::prelude::*;

use vstd::string::StringExecFns;

verus! {

/// An HTTP method an endpoint answers to.
#[derive(Debug, PartialEq, Eq, Structural, Clone, Copy)]
pub enum HttpMethod {
    Get,
    Post,
    Put,
    Delete,
}

/// One mounted endpoint: a method and a path pattern, where `<id>`
/// names a row identifier segment and `<name>` a search fragment.
#[derive(Debug)]
pub struct Route {
    pub method: HttpMethod,
    pub path: String,
}

/// The seven endpoints of the burgers resource, in mounting order:
/// list, get by identifier, search by name fragment, random pick,
/// create, update, delete.
pub fn create_routes() -> (r: Vec<Route>)
    ensures
        r@.len() == 7,
        r@[0].method == HttpMethod::Get && r@[0].path@ == "/burgers"@,
        r@[1].method == HttpMethod::Get && r@[1].path@ == "/burgers/<id>"@,
        r@[2].method == HttpMethod::Get && r@[2].path@ == "/burgers/name/<name>"@,
        r@[3].method == HttpMethod::Get && r@[3].path@ == "/burgers/random"@,
        r@[4].method == HttpMethod::Post && r@[4].path@ == "/burgers"@,
        r@[5].method == HttpMethod::Put && r@[5].path@ == "/burgers/<id>"@,
        r@[6].method == HttpMethod::Delete && r@[6].path@ == "/burgers/<id>"@,
{
    let mut r: Vec<Route> = Vec::new();
    r.push(Route { method: HttpMethod::Get, path: String::from_str("/burgers") });
    r.push(Route { method: HttpMethod::Get, path: String::from_str("/burgers/<id>") });
    r.push(Route { method: HttpMethod::Get, path: String::from_str("/burgers/name/<name>") });
    r.push(Route { method: HttpMethod::Get, path: String::from_str("/burgers/random") });
    r.push(Route { method: HttpMethod::Post, path: String::from_str("/burgers") });
    r.push(Route { method: HttpMethod::Put, path: String::from_str("/burgers/<id>") });
    r.push(Route { method: HttpMethod::Delete, path: String::from_str("/burgers/<id>") });
    r
}

} // verus!
