//! How a request that did not succeed is answered.

use vstd::prelude::*;
use crate::access::PermissionDenied;
use crate::stats::PersistenceError;

verus! {

/// Why a request got no content.
#[derive(Clone, Copy, Debug, PartialEq, Eq, Structural)]
pub enum RequestFailure {
    /// The principal may not see what was asked for.
    Denied(PermissionDenied),
    /// What was asked for is not there.
    NotFound,
    /// The store failed.
    Persistence(PersistenceError),
    /// The template could not be rendered.
    Render,
}

/// The status of the answer to a denied request.
pub const STATUS_FORBIDDEN: u16 = 403;

/// The status of the answer to a request for what is not there.
pub const STATUS_NOT_FOUND: u16 = 404;

/// The status of the answer to a request on which the server failed.
pub const STATUS_SERVER_ERROR: u16 = 500;

/// The status that answers a failure: a denial and a missing object are the
/// client's, all else the server's.
pub open spec fn status_of(failure: RequestFailure) -> u16 {
    match failure {
        RequestFailure::Denied(_) => STATUS_FORBIDDEN,
        RequestFailure::NotFound => STATUS_NOT_FOUND,
        RequestFailure::Persistence(_) => STATUS_SERVER_ERROR,
        RequestFailure::Render => STATUS_SERVER_ERROR,
    }
}

/// What a lookup of one object comes to: the object, or the failure that
/// tells an object that is not there from a store that failed.
pub open spec fn looked_up<T>(lookup: Result<Option<T>, PersistenceError>) -> Result<
    T,
    RequestFailure,
> {
    match lookup {
        Ok(Some(object)) => Ok(object),
        Ok(None) => Err(RequestFailure::NotFound),
        Err(error) => Err(RequestFailure::Persistence(error)),
    }
}

/// What a lookup of a list comes to where the page shows the list as empty
/// rather than fail: the list, or no entries where the store failed.
pub open spec fn listed<T>(lookup: Result<Seq<T>, PersistenceError>) -> Seq<T> {
    match lookup {
        Ok(list) => list,
        Err(_) => Seq::<T>::empty(),
    }
}

impl From<PermissionDenied> for RequestFailure {
    fn from(denied: PermissionDenied) -> (failure: RequestFailure) {
        RequestFailure::Denied(denied)
    }
}

impl vstd::std_specs::convert::FromSpecImpl<PermissionDenied> for RequestFailure {
    open spec fn obeys_from_spec() -> bool {
        true
    }

    open spec fn from_spec(denied: PermissionDenied) -> RequestFailure {
        RequestFailure::Denied(denied)
    }
}

impl From<PersistenceError> for RequestFailure {
    fn from(error: PersistenceError) -> (failure: RequestFailure) {
        RequestFailure::Persistence(error)
    }
}

impl vstd::std_specs::convert::FromSpecImpl<PersistenceError> for RequestFailure {
    open spec fn obeys_from_spec() -> bool {
        true
    }

    open spec fn from_spec(error: PersistenceError) -> RequestFailure {
        RequestFailure::Persistence(error)
    }
}

/// The status that answers `failure`.
pub fn status_code(failure: RequestFailure) -> (status: u16)
    ensures
        status == status_of(failure),
{
    match failure {
        RequestFailure::Denied(_) => STATUS_FORBIDDEN,
        RequestFailure::NotFound => STATUS_NOT_FOUND,
        RequestFailure::Persistence(_) => STATUS_SERVER_ERROR,
        RequestFailure::Render => STATUS_SERVER_ERROR,
    }
}

/// The body of the answer to a denied request, the same for every denial.
pub fn denial_body() -> (body: &'static str)
    ensures
        body@ == "Permission Denied"@,
{
    "Permission Denied"
}

/// The object that a lookup found, or why there is none.
pub fn found_or_failure<T>(lookup: Result<Option<T>, PersistenceError>) -> (r: Result<
    T,
    RequestFailure,
>)
    ensures
        r == looked_up(lookup),
{
    match lookup {
        Ok(Some(object)) => Ok(object),
        Ok(None) => Err(RequestFailure::NotFound),
        Err(error) => Err(RequestFailure::Persistence(error)),
    }
}

/// The list that a lookup gave, or the empty list where the store failed.
pub fn list_or_empty<T>(lookup: Result<Vec<T>, PersistenceError>) -> (list: Vec<T>)
    ensures
        list@ == listed(
            match lookup {
                Ok(found) => Ok(found@),
                Err(error) => Err(error),
            },
        ),
{
    match lookup {
        Ok(found) => found,
        Err(_) => Vec::new(),
    }
}

/// One page of a list with the number of the page that follows, or the
/// empty page with no page to follow where the store failed.
pub fn page_or_empty<T>(lookup: Result<(Vec<T>, i32), PersistenceError>) -> (page: (Vec<T>, i32))
    ensures
        match lookup {
            Ok(found) => page == found,
            Err(_) => page.0@ == Seq::<T>::empty() && page.1 == 0,
        },
{
    match lookup {
        Ok(found) => found,
        Err(_) => (Vec::new(), 0),
    }
}

/// Every denial gets the same status, and no other failure gets it; what is
/// not there is told from what the server failed on.
pub proof fn lemma_failure_statuses(failure: RequestFailure)
    ensures
        status_of(failure) == STATUS_FORBIDDEN <==> failure is Denied,
        status_of(failure) == STATUS_NOT_FOUND <==> failure is NotFound,
        status_of(failure) == STATUS_SERVER_ERROR <==> failure is Persistence || failure is Render,
{
}

/// A lookup fails as not found exactly when the store answered and had no
/// object, and as a failure of the store exactly when the store failed.
pub proof fn lemma_not_found_is_no_store_failure<T>(lookup: Result<Option<T>, PersistenceError>)
    ensures
        looked_up(lookup) is Ok <==> lookup matches Ok(Some(_)),
        looked_up(lookup) == Err::<T, RequestFailure>(RequestFailure::NotFound) <==> lookup
            matches Ok(None),
        looked_up(lookup) matches Err(RequestFailure::Persistence(_)) <==> lookup is Err,
{
}

} // verus!
