//! Reading integers out of the broker's property values.

use audio_thread_priority::bus::BusValue;
use audio_thread_priority::bus::item_as_i64;
use audio_thread_priority::errors::PromotionError;
use audio_thread_priority::snapshot::RtPriorityHandleInternal;

#[test]
fn int32_property_reads_as_i64() {
    assert_eq!(item_as_i64(BusValue::Int32(7)).unwrap(), 7);
    assert_eq!(item_as_i64(BusValue::Int32(-3)).unwrap(), -3);
    assert_eq!(item_as_i64(BusValue::Int32(i32::MIN)).unwrap(), i32::MIN as i64);
}

#[test]
fn int64_property_reads_as_itself() {
    assert_eq!(item_as_i64(BusValue::Int64(1_000_000_000_000)).unwrap(), 1_000_000_000_000);
    assert_eq!(item_as_i64(BusValue::Int64(i64::MIN)).unwrap(), i64::MIN);
}

#[test]
fn non_integer_property_is_rejected() {
    match item_as_i64(BusValue::Other) {
        Err(e) => assert!(e == PromotionError::BrokerQueryFailure),
        Ok(_) => panic!("a non-integer property must not read as an integer"),
    }
}

#[test]
fn blank_handle_is_zeroed() {
    let h = RtPriorityHandleInternal::new();
    assert_eq!(h.snapshot.policy, 0);
    assert_eq!(h.snapshot.priority, 0);
}
