use vstd::prelude::*;

use crate::advice::Advice;
use crate::ident::{decimal_i64, parse_i64};
use crate::store::{lists_exactly, Store};

verus! {

/// A listing, or the version, was returned.
pub const STATUS_OK: u16 = 200;

/// A record was created.
pub const STATUS_CREATED: u16 = 201;

/// A record was deleted.
pub const STATUS_NO_CONTENT: u16 = 204;

/// The request named no valid identifier.
pub const STATUS_BAD_REQUEST: u16 = 400;

/// The named record does not exist.
pub const STATUS_NOT_FOUND: u16 = 404;

/// The request ran out of time.
pub const STATUS_REQUEST_TIMEOUT: u16 = 408;

/// An unexpected failure.
pub const STATUS_INTERNAL_SERVER_ERROR: u16 = 500;

/// The advice provider failed.
pub const STATUS_BAD_GATEWAY: u16 = 502;

/// The ways a request can fail.
#[derive(PartialEq, Eq, Structural, Clone, Copy, Debug)]
pub enum ServiceError {
    /// The advice provider could not be reached, or sent no usable record.
    Upstream,
    /// The path segment of a delete is not an integer.
    InvalidIdentifier,
    /// A delete names an identifier that the store does not hold.
    NotFound,
    /// The request ran past its time budget.
    RequestTimeout,
    /// Any other failure.
    Internal,
}

/// The HTTP status that reports the failure `e`.
pub open spec fn status_of(e: ServiceError) -> u16 {
    match e {
        ServiceError::Upstream => STATUS_BAD_GATEWAY,
        ServiceError::InvalidIdentifier => STATUS_BAD_REQUEST,
        ServiceError::NotFound => STATUS_NOT_FOUND,
        ServiceError::RequestTimeout => STATUS_REQUEST_TIMEOUT,
        ServiceError::Internal => STATUS_INTERNAL_SERVER_ERROR,
    }
}

impl ServiceError {
    /// The HTTP status that reports this failure.
    pub fn status_code(&self) -> (r: u16)
        ensures
            r == status_of(*self),
    {
        match self {
            ServiceError::Upstream => STATUS_BAD_GATEWAY,
            ServiceError::InvalidIdentifier => STATUS_BAD_REQUEST,
            ServiceError::NotFound => STATUS_NOT_FOUND,
            ServiceError::RequestTimeout => STATUS_REQUEST_TIMEOUT,
            ServiceError::Internal => STATUS_INTERNAL_SERVER_ERROR,
        }
    }
}

/// The failure that a request which did not complete is reported as: a
/// timeout if the time budget ran out, an internal error otherwise.
pub fn failure_for(timed_out: bool) -> (e: ServiceError)
    ensures
        timed_out ==> e == ServiceError::RequestTimeout,
        !timed_out ==> e == ServiceError::Internal,
{
    if timed_out {
        ServiceError::RequestTimeout
    } else {
        ServiceError::Internal
    }
}

/// All records of the store, for the listing endpoint.
pub fn advices_index(store: &Store) -> (r: Vec<Advice>)
    requires
        store.wf(),
    ensures
        lists_exactly(r@, store@),
{
    store.list()
}

/// Stores the record that the provider sent, if it sent one, and returns it;
/// without a record the store is left as it was.
pub fn advices_create(store: &mut Store, fetched: Option<Advice>) -> (r: Result<Advice, ServiceError>)
    requires
        old(store).wf(),
    ensures
        final(store).wf(),
        match fetched {
            Some(a) => {
                &&& r is Ok
                &&& r->Ok_0@ == a@
                &&& final(store)@ == old(store)@.insert(a.id, a.advice@)
            },
            None => {
                &&& r == Err::<Advice, ServiceError>(ServiceError::Upstream)
                &&& final(store)@ == old(store)@
            },
        },
{
    match fetched {
        Some(a) => {
            let reply = a.clone();
            store.insert(a);
            Ok(reply)
        },
        None => Err(ServiceError::Upstream),
    }
}

/// The HTTP status of the outcome of a create.
pub fn create_status(r: &Result<Advice, ServiceError>) -> (s: u16)
    ensures
        s == match r {
            Ok(_) => STATUS_CREATED,
            Err(e) => status_of(*e),
        },
{
    match r {
        Ok(_) => STATUS_CREATED,
        Err(e) => e.status_code(),
    }
}

/// What a delete of the path segment `segment` answers on a store `m`.
pub open spec fn delete_outcome(m: Map<i64, Seq<char>>, segment: Seq<char>) -> Result<
    (),
    ServiceError,
> {
    match decimal_i64(segment) {
        None => Err(ServiceError::InvalidIdentifier),
        Some(id) => if m.contains_key(id) {
            Ok(())
        } else {
            Err(ServiceError::NotFound)
        },
    }
}

/// Deletes the record whose identifier is written in `segment`.
pub fn advices_delete(store: &mut Store, segment: &str) -> (r: Result<(), ServiceError>)
    requires
        old(store).wf(),
    ensures
        final(store).wf(),
        r == delete_outcome(old(store)@, segment@),
        match decimal_i64(segment@) {
            Some(id) => final(store)@ == old(store)@.remove(id),
            None => final(store)@ == old(store)@,
        },
{
    match parse_i64(segment) {
        None => Err(ServiceError::InvalidIdentifier),
        Some(id) => {
            if store.remove(id) {
                Ok(())
            } else {
                Err(ServiceError::NotFound)
            }
        },
    }
}

/// The HTTP status that answers a delete with outcome `r`.
pub open spec fn delete_status_of(r: Result<(), ServiceError>) -> u16 {
    match r {
        Ok(_) => STATUS_NO_CONTENT,
        Err(e) => status_of(e),
    }
}

/// The HTTP status of the outcome of a delete.
pub fn delete_status(r: &Result<(), ServiceError>) -> (s: u16)
    ensures
        s == delete_status_of(*r),
{
    match r {
        Ok(_) => STATUS_NO_CONTENT,
        Err(e) => e.status_code(),
    }
}

} // verus!
