use esp_idf::error::Error;
use esp_idf::mqtt::{as_nul_terminated, message_id_from_return, topic_buffer, Client};

#[test]
fn failure_sentinel_maps_to_absent_identifier() {
    assert_eq!(message_id_from_return(-1), None);
}

#[test]
fn non_sentinel_returns_map_to_that_exact_identifier() {
    assert_eq!(message_id_from_return(0), Some(0));
    assert_eq!(message_id_from_return(1), Some(1));
    assert_eq!(message_id_from_return(42), Some(42));
    assert_eq!(message_id_from_return(i32::MAX), Some(i32::MAX));
    assert_eq!(message_id_from_return(-2), Some(-2));
}

#[test]
fn client_rejects_a_null_handle() {
    assert!(matches!(Client::init(0), Err(Error::InvalidArgument)));
}

#[test]
fn client_keeps_the_handle_it_was_bound_to() {
    let c = Client::init(0x1000).unwrap();
    assert_eq!(c.handle(), 0x1000);
}

#[test]
fn topic_buffer_holds_the_topic_a_terminator_and_zero_padding() {
    let buf = topic_buffer("sensors/temp").unwrap();
    let mut expected = vec![0u8; 128];
    expected[..12].copy_from_slice(b"sensors/temp");
    assert_eq!(buf, expected);
}

#[test]
fn topic_buffer_accepts_the_largest_fitting_topic() {
    let topic = "t".repeat(127);
    let buf = topic_buffer(&topic).unwrap();
    let mut expected = vec![b't'; 128];
    expected[127] = 0;
    assert_eq!(buf, expected);
}

#[test]
fn topic_buffer_rejects_a_topic_that_cannot_fit_with_its_terminator() {
    let topic = "t".repeat(128);
    assert_eq!(topic_buffer(&topic), None);
    let longer = "t".repeat(200);
    assert_eq!(topic_buffer(&longer), None);
}

#[test]
fn marshalling_writes_the_exact_bytes_and_terminator() {
    let mut buffer = vec![0xAAu8; 16];
    as_nul_terminated("abc", &mut buffer);
    assert_eq!(
        buffer,
        vec![b'a', b'b', b'c', 0, 0xAA, 0xAA, 0xAA, 0xAA, 0xAA, 0xAA, 0xAA, 0xAA, 0xAA, 0xAA, 0xAA, 0xAA]
    );
}
