//! Result envelopes for the flat call boundary, in the status-flag
//! convention: a boundary call reports bare success or failure, and on
//! failure leaves the formatted error in the calling thread's last-error
//! slot, from which the host retrieves it with a separate call.

use vstd::prelude::*;
use vstd::string::StringSliceAdditionalSpecFns;
use vstd::utf8::encode_utf8;

verus! {

/// Per-thread slot holding the last error message; the empty string means
/// none. Owned by the thread whose errors it holds.
pub struct ThreadLastError {
    pub message: String,
}

impl ThreadLastError {
    /// An empty slot, as a thread starts with.
    pub fn new() -> (s: Self)
        ensures
            s.message@ == Seq::<char>::empty(),
    {
        Self { message: String::new() }
    }
}

/// Put a formatted error message into the slot, replacing what was there.
pub fn set_tls_last_error(slot: &mut ThreadLastError, err: String)
    ensures
        final(slot).message@ == err@,
{
    slot.message = err;
}

/// Take the message out of the slot, leaving it empty.
pub fn take_tls_last_error(slot: &mut ThreadLastError) -> (message: String)
    ensures
        message@ == old(slot).message@,
        final(slot).message@ == Seq::<char>::empty(),
{
    let message = slot.message.clone();
    slot.message = String::new();
    message
}

/// The byte length of the message in the slot, which the host uses to size
/// the buffer it retrieves the message into.
pub fn get_tls_last_error_len(slot: &ThreadLastError) -> (len: usize)
    ensures
        len == encode_utf8(slot.message@).len() as usize,
{
    let s = slot.message.as_str();
    let len = s.len();
    proof {
        assert(s.spec_bytes() == encode_utf8(slot.message@));
    }
    len
}

/// Envelope of a boundary call that carries no payload.
pub struct ApiResult {
    pub success: bool,
}

impl ApiResult {
    /// Close a boundary call: report success, or store the error in the
    /// calling thread's slot and report failure.
    pub fn ok_or_set_error(result: Result<(), String>, slot: &mut ThreadLastError) -> (r: Self)
        ensures
            r.success <==> result is Ok,
            result is Ok ==> final(slot).message@ == old(slot).message@,
            result matches Err(e) ==> final(slot).message@ == e@,
    {
        match result {
            Ok(_) => Self::ok(),
            Err(err) => {
                set_tls_last_error(slot, err);
                Self::err()
            },
        }
    }

    pub fn ok() -> (r: Self)
        ensures
            r.success,
    {
        Self { success: true }
    }

    pub fn err() -> (r: Self)
        ensures
            !r.success,
    {
        Self { success: false }
    }
}

/// Envelope of a boundary call that hands an owned value out on success and
/// nothing on failure.
pub struct ApiBoxResult<T> {
    pub success: bool,
    pub value: Option<Box<T>>,
}

impl<T> ApiBoxResult<T> {
    /// Close a boundary call: hand the value out, or store the error in the
    /// calling thread's slot and report failure.
    pub fn ok_or_set_error(result: Result<Box<T>, String>, slot: &mut ThreadLastError) -> (r: Self)
        ensures
            r.success <==> result is Ok,
            result matches Ok(v) ==> r.value == Some(v) && final(slot).message@ == old(
                slot,
            ).message@,
            result matches Err(e) ==> r.value is None && final(slot).message@ == e@,
    {
        match result {
            Ok(value) => Self::ok(value),
            Err(err) => {
                set_tls_last_error(slot, err);
                Self::err()
            },
        }
    }

    pub fn ok(value: Box<T>) -> (r: Self)
        ensures
            r.success,
            r.value == Some(value),
    {
        Self { success: true, value: Some(value) }
    }

    pub fn err() -> (r: Self)
        ensures
            !r.success,
            r.value is None,
    {
        Self { success: false, value: None }
    }
}

/// Envelope of a boundary call that carries a plain value: the payload on
/// success, the type's default on failure.
pub struct ApiValueResult<T> {
    pub success: bool,
    pub value: T,
}

impl<T: Default> ApiValueResult<T> {
    /// Close a boundary call: carry the value, or store the error in the
    /// calling thread's slot and report failure with a default payload.
    pub fn ok_or_set_error(result: Result<T, String>, slot: &mut ThreadLastError) -> (r: Self)
        ensures
            r.success <==> result is Ok,
            result matches Ok(v) ==> r.value == v && final(slot).message@ == old(slot).message@,
            result matches Err(e) ==> final(slot).message@ == e@ && call_ensures(
                T::default,
                (),
                r.value,
            ),
    {
        match result {
            Ok(value) => Self::ok(value),
            Err(err) => {
                set_tls_last_error(slot, err);
                Self::err()
            },
        }
    }

    pub fn ok(value: T) -> (r: Self)
        ensures
            r.success,
            r.value == value,
    {
        Self { success: true, value }
    }

    pub fn err() -> (r: Self)
        ensures
            !r.success,
            call_ensures(T::default, (), r.value),
    {
        Self { success: false, value: T::default() }
    }
}

} // verus!
