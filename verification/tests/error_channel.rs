use elffycore::envelope::{error_box_result, make_box_result, make_result, make_value_result};
use elffycore::error_handler::{
    dispatch_err, generate_message_id, get_err_dispatcher, increment_tls_err_count,
    reset_tls_err_count, set_err_dispatcher, ErrorDelivery, ErrorHub, ThreadErrorCounter,
    ABSENT_ERR_MESSAGE_ID,
};

fn delivery_parts(d: ErrorDelivery) -> (usize, String, bool) {
    match d {
        ErrorDelivery::Dispatched { id, message } => (id.0, message, true),
        ErrorDelivery::Diagnostic { id, message } => (id.0, message, false),
    }
}

#[test]
fn counter_increments_and_resets() {
    let mut counter = ThreadErrorCounter::new();
    assert_eq!(counter.count, 0);
    assert_eq!(increment_tls_err_count(&mut counter), 1);
    assert_eq!(increment_tls_err_count(&mut counter), 2);
    assert_eq!(reset_tls_err_count(&mut counter), 2);
    assert_eq!(counter.count, 0);
}

#[test]
fn message_ids_are_distinct_and_never_absent() {
    let mut hub = ErrorHub::new();
    let a = generate_message_id(&mut hub);
    let b = generate_message_id(&mut hub);
    let c = generate_message_id(&mut hub);
    assert_ne!(a.0, b.0);
    assert_ne!(b.0, c.0);
    assert_ne!(a.0, c.0);
    assert_ne!(a.0, ABSENT_ERR_MESSAGE_ID);
    assert_ne!(b.0, ABSENT_ERR_MESSAGE_ID);
    assert_ne!(c.0, ABSENT_ERR_MESSAGE_ID);
}

#[test]
fn dispatch_goes_to_diagnostic_without_dispatcher() {
    let mut hub = ErrorHub::new();
    let mut counter = ThreadErrorCounter::new();
    assert!(!get_err_dispatcher(&hub));
    let d = dispatch_err(&mut hub, &mut counter, "plain failure");
    let (id, message, dispatched) = delivery_parts(d);
    assert!(!dispatched);
    assert_eq!(id, 1);
    assert_eq!(message, "plain failure");
    assert_eq!(counter.count, 1);
}

#[test]
fn dispatch_goes_to_dispatcher_once_registered() {
    let mut hub = ErrorHub::new();
    let mut counter = ThreadErrorCounter::new();
    set_err_dispatcher(&mut hub);
    assert!(get_err_dispatcher(&hub));
    let d = dispatch_err(&mut hub, &mut counter, "boom");
    let (_, _, dispatched) = delivery_parts(d);
    assert!(dispatched);
}

#[test]
fn dispatch_strips_escape_decorations() {
    let mut hub = ErrorHub::new();
    let mut counter = ThreadErrorCounter::new();
    let d = dispatch_err(&mut hub, &mut counter, "\u{1b}[31mred\u{1b}[0m and \u{1b}[1;32mbold\u{1b}[m end");
    let (_, message, _) = delivery_parts(d);
    assert_eq!(message, "red and bold end");
}

#[test]
fn dispatch_keeps_text_without_decorations() {
    let mut hub = ErrorHub::new();
    let mut counter = ThreadErrorCounter::new();
    let d = dispatch_err(&mut hub, &mut counter, "\u{1b}[31q not a decoration");
    let (_, message, _) = delivery_parts(d);
    assert_eq!(message, "\u{1b}[31q not a decoration");
}

#[test]
fn each_call_reports_its_own_error_count() {
    let mut hub = ErrorHub::new();
    let mut counter = ThreadErrorCounter::new();

    // First call: two errors.
    dispatch_err(&mut hub, &mut counter, "one");
    dispatch_err(&mut hub, &mut counter, "two");
    let r1 = make_result(&mut counter);
    assert_eq!(r1.err_count, 2);

    // Second call: no error.
    let r2 = make_result(&mut counter);
    assert_eq!(r2.err_count, 0);

    // Third call: one error.
    dispatch_err(&mut hub, &mut counter, "three");
    let r3 = make_result(&mut counter);
    assert_eq!(r3.err_count, 1);
}

#[test]
fn box_result_carries_value_only_on_success() {
    let mut hub = ErrorHub::new();
    let mut counter = ThreadErrorCounter::new();

    let ok = make_box_result(&mut counter, Box::new(7u32));
    assert_eq!(ok.err_count, 0);
    assert_eq!(ok.value.as_deref(), Some(&7));

    dispatch_err(&mut hub, &mut counter, "lost");
    let failed = make_box_result(&mut counter, Box::new(8u32));
    assert_eq!(failed.err_count, 1);
    assert!(failed.value.is_none());
}

#[test]
fn error_box_result_counts_the_dispatched_error() {
    let mut hub = ErrorHub::new();
    let mut counter = ThreadErrorCounter::new();
    let (r, d): (elffycore::envelope::ApiBoxResult<u32>, _) =
        error_box_result(&mut hub, &mut counter, "no adapter");
    assert_eq!(r.err_count, 1);
    assert!(r.value.is_none());
    let (_, message, _) = delivery_parts(d);
    assert_eq!(message, "no adapter");
    assert_eq!(counter.count, 0);
}

#[test]
fn value_result_defaults_on_failure() {
    let mut hub = ErrorHub::new();
    let mut counter = ThreadErrorCounter::new();

    let ok = make_value_result(&mut counter, 5u64);
    assert_eq!(ok.err_count, 0);
    assert_eq!(ok.value, 5);

    dispatch_err(&mut hub, &mut counter, "gone");
    let failed = make_value_result(&mut counter, 5u64);
    assert_eq!(failed.err_count, 1);
    assert_eq!(failed.value, 0);
}
