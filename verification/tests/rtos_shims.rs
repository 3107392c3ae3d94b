use esp_idf::driver::{bit, GpioSel};
use esp_idf::freertos::{queue_op_succeeded, QueueCopyPosition, QueueType, PORT_MAX_DELAY};

#[test]
fn bit_sets_the_nth_bit() {
    assert_eq!(bit(0), 1);
    assert_eq!(bit(3), 8);
    assert_eq!(bit(10), 1024);
    assert_eq!(bit(63), 1u64 << 63);
}

#[test]
fn gpio_selection_masks_are_one_hot() {
    assert_eq!(GpioSel::Sel3.value(), 1 << 3);
    assert_eq!(GpioSel::Sel4.value(), 1 << 4);
    assert_eq!(GpioSel::Sel5.value(), 1 << 5);
    assert_eq!(GpioSel::Sel6.value(), 1 << 6);
    assert_eq!(GpioSel::Sel7.value(), 1 << 7);
    assert_eq!(GpioSel::Sel8.value(), 1 << 8);
    assert_eq!(GpioSel::Sel9.value(), 1 << 9);
    assert_eq!(GpioSel::Sel10.value(), 1 << 10);
}

#[test]
fn queue_constants_match_the_vendor_values() {
    assert_eq!(QueueType::Base.value(), 0);
    assert_eq!(QueueType::Mutex.value(), 1);
    assert_eq!(QueueType::CountingSemaphore.value(), 2);
    assert_eq!(QueueType::BinarySemaphore.value(), 3);
    assert_eq!(QueueType::RecursiveMutex.value(), 4);
    assert_eq!(QueueCopyPosition::SendToBack.value(), 0);
    assert_eq!(QueueCopyPosition::SendToFront.value(), 1);
    assert_eq!(QueueCopyPosition::Overwrite.value(), 2);
    assert_eq!(PORT_MAX_DELAY, u32::MAX);
}

#[test]
fn queue_returns_are_truthy() {
    assert!(queue_op_succeeded(1));
    assert!(queue_op_succeeded(-1));
    assert!(!queue_op_succeeded(0));
}
