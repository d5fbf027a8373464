use elffycore::status_envelope::{
    get_tls_last_error_len, set_tls_last_error, take_tls_last_error, ApiBoxResult, ApiResult,
    ApiValueResult, ThreadLastError,
};

#[test]
fn last_error_slot_holds_one_message() {
    let mut slot = ThreadLastError::new();
    assert_eq!(get_tls_last_error_len(&slot), 0);
    set_tls_last_error(&mut slot, String::from("no adapter"));
    assert_eq!(get_tls_last_error_len(&slot), 10);
    // The length is in bytes, as the host sizes a byte buffer with it.
    set_tls_last_error(&mut slot, String::from("héllo"));
    assert_eq!(get_tls_last_error_len(&slot), 6);
    assert_eq!(take_tls_last_error(&mut slot), "héllo");
    assert_eq!(get_tls_last_error_len(&slot), 0);
    assert_eq!(take_tls_last_error(&mut slot), "");
}

#[test]
fn plain_envelope_reports_success_or_stores_the_error() {
    let mut slot = ThreadLastError::new();
    let ok = ApiResult::ok_or_set_error(Ok(()), &mut slot);
    assert!(ok.success);
    assert_eq!(get_tls_last_error_len(&slot), 0);

    let failed = ApiResult::ok_or_set_error(Err(String::from("window failed")), &mut slot);
    assert!(!failed.success);
    assert_eq!(take_tls_last_error(&mut slot), "window failed");

    assert!(ApiResult::ok().success);
    assert!(!ApiResult::err().success);
}

#[test]
fn box_envelope_hands_the_value_out_only_on_success() {
    let mut slot = ThreadLastError::new();
    let ok = ApiBoxResult::ok_or_set_error(Ok(Box::new(3u8)), &mut slot);
    assert!(ok.success);
    assert_eq!(ok.value.as_deref(), Some(&3));

    let failed: ApiBoxResult<u8> =
        ApiBoxResult::ok_or_set_error(Err(String::from("lost device")), &mut slot);
    assert!(!failed.success);
    assert!(failed.value.is_none());
    assert_eq!(take_tls_last_error(&mut slot), "lost device");
}

#[test]
fn value_envelope_defaults_its_payload_on_failure() {
    let mut slot = ThreadLastError::new();
    let ok = ApiValueResult::ok_or_set_error(Ok(41u32), &mut slot);
    assert!(ok.success);
    assert_eq!(ok.value, 41);

    let failed: ApiValueResult<u32> =
        ApiValueResult::ok_or_set_error(Err(String::from("bad size")), &mut slot);
    assert!(!failed.success);
    assert_eq!(failed.value, 0);
    assert_eq!(take_tls_last_error(&mut slot), "bad size");

    let direct_ok = ApiValueResult::ok(7i64);
    assert!(direct_ok.success);
    let direct_err: ApiValueResult<i64> = ApiValueResult::err();
    assert!(!direct_err.success);
    assert_eq!(direct_err.value, 0);
}
