//! Result envelopes for the flat call boundary, in the error-count
//! convention: every boundary call returns the number of errors raised on the
//! calling thread during that call (0 means success), read and reset from the
//! thread's counter as the call returns.

use crate::error_handler::{
    dispatch_err, reset_tls_err_count, ErrorDelivery, ErrorHub, ThreadErrorCounter,
};
use vstd::prelude::*;

verus! {

/// Envelope of a boundary call that carries no payload.
pub struct ApiResult {
    pub err_count: usize,
}

impl ApiResult {
    pub fn from_err_count(err_count: usize) -> (r: Self)
        ensures
            r.err_count == err_count,
    {
        Self { err_count }
    }
}

/// Envelope of a boundary call that hands an owned value out on success and
/// nothing on failure.
pub struct ApiBoxResult<T> {
    pub err_count: usize,
    pub value: Option<Box<T>>,
}

impl<T> ApiBoxResult<T> {
    pub fn ok(value: Box<T>) -> (r: Self)
        ensures
            r.err_count == 0,
            r.value == Some(value),
    {
        Self { err_count: 0, value: Some(value) }
    }

    pub fn err(err_count: usize) -> (r: Self)
        requires
            err_count != 0,
        ensures
            r.err_count == err_count,
            r.value is None,
    {
        Self { err_count, value: None }
    }
}

/// Envelope of a boundary call that carries a plain value: the payload on
/// success, the type's default on failure.
pub struct ApiValueResult<T> {
    pub err_count: usize,
    pub value: T,
}

impl<T: Default> ApiValueResult<T> {
    pub fn ok(value: T) -> (r: Self)
        ensures
            r.err_count == 0,
            r.value == value,
    {
        Self { err_count: 0, value }
    }

    pub fn err(err_count: usize) -> (r: Self)
        requires
            err_count != 0,
        ensures
            r.err_count == err_count,
            call_ensures(T::default, (), r.value),
    {
        Self { err_count, value: T::default() }
    }
}

/// Close a boundary call that carries no payload: report the errors counted
/// on this thread during the call and reset the counter for the next one.
pub fn make_result(counter: &mut ThreadErrorCounter) -> (r: ApiResult)
    ensures
        r.err_count == old(counter).count,
        final(counter).count == 0,
{
    let err_count = reset_tls_err_count(counter);
    ApiResult::from_err_count(err_count)
}

/// Close a boundary call that produced an owned value: hand the value out
/// when no error was counted during the call, else report the count and
/// withhold the value.
pub fn make_box_result<T>(counter: &mut ThreadErrorCounter, value: Box<T>) -> (r: ApiBoxResult<T>)
    ensures
        r.err_count == old(counter).count,
        old(counter).count == 0 ==> r.value == Some(value),
        old(counter).count != 0 ==> r.value is None,
        final(counter).count == 0,
{
    let err_count = reset_tls_err_count(counter);
    if err_count == 0 {
        ApiBoxResult::ok(value)
    } else {
        ApiBoxResult::err(err_count)
    }
}

/// Close a failed boundary call that would have produced an owned value:
/// dispatch the error, then report a count that includes it. The returned
/// delivery carries the message for the caller to perform.
pub fn error_box_result<T>(
    hub: &mut ErrorHub,
    counter: &mut ThreadErrorCounter,
    err: &str,
) -> (r: (ApiBoxResult<T>, ErrorDelivery))
    requires
        old(hub).wf(),
        old(hub).next_id < usize::MAX,
        old(counter).count < usize::MAX,
    ensures
        final(hub).wf(),
        r.0.err_count == old(counter).count + 1,
        r.0.value is None,
        final(counter).count == 0,
        r.1.spec_message() == crate::error_handler::strip_ansi(err@),
        r.1 is Dispatched <==> old(hub).dispatcher_registered,
{
    let delivery = dispatch_err(hub, counter, err);
    let err_count = reset_tls_err_count(counter);
    (ApiBoxResult::err(err_count), delivery)
}

/// Close a boundary call that produced a plain value, as `make_box_result`
/// does for owned ones.
pub fn make_value_result<T: Default>(counter: &mut ThreadErrorCounter, value: T) -> (r:
    ApiValueResult<T>)
    ensures
        r.err_count == old(counter).count,
        old(counter).count == 0 ==> r.value == value,
        old(counter).count != 0 ==> call_ensures(T::default, (), r.value),
        final(counter).count == 0,
{
    let err_count = reset_tls_err_count(counter);
    if err_count == 0 {
        ApiValueResult::ok(value)
    } else {
        ApiValueResult::err(err_count)
    }
}

/// Close a failed boundary call that would have produced a plain value, as
/// `error_box_result` does for owned ones.
pub fn error_value_result<T: Default>(
    hub: &mut ErrorHub,
    counter: &mut ThreadErrorCounter,
    err: &str,
) -> (r: (ApiValueResult<T>, ErrorDelivery))
    requires
        old(hub).wf(),
        old(hub).next_id < usize::MAX,
        old(counter).count < usize::MAX,
    ensures
        final(hub).wf(),
        r.0.err_count == old(counter).count + 1,
        call_ensures(T::default, (), r.0.value),
        final(counter).count == 0,
        r.1.spec_message() == crate::error_handler::strip_ansi(err@),
        r.1 is Dispatched <==> old(hub).dispatcher_registered,
{
    let delivery = dispatch_err(hub, counter, err);
    let err_count = reset_tls_err_count(counter);
    (ApiValueResult::err(err_count), delivery)
}

} // verus!
