use firmware::{Message, PayloadOverflow};

#[test]
fn new_message_has_id_and_empty_payload() {
    let m = Message::new(0x1234);
    assert_eq!(m.id, 0x1234);
    assert_eq!(m.payload_len(), 0);
    assert_eq!(m.payload.len(), 0);
}

#[test]
fn serialize_layout_id_big_endian_then_length_then_payload() {
    let mut m = Message::new(0xABCD);
    m.add_data(&[1, 2, 3]).unwrap();
    let wire = m.serialize();
    assert_eq!(&wire[..], &[0xAB, 0xCD, 3, 1, 2, 3]);
}

#[test]
fn serialize_length_is_three_plus_payload_for_every_payload_length() {
    for len in 0usize..=64 {
        let mut m = Message::new(0x0102);
        let data = vec![0xEEu8; len];
        m.add_data(&data).unwrap();
        let wire = m.serialize();
        assert_eq!(wire.len(), 3 + len);
        assert_eq!(wire[0], 0x01);
        assert_eq!(wire[1], 0x02);
        assert_eq!(wire[2], len as u8);
        assert_eq!(&wire[3..], &data[..]);
    }
}

#[test]
fn serialize_of_empty_payload_is_three_bytes() {
    let m = Message::new(0x00FF);
    let wire = m.serialize();
    assert_eq!(&wire[..], &[0x00, 0xFF, 0x00]);
}

#[test]
fn add_data_beyond_capacity_fails_and_message_is_unchanged() {
    let mut m = Message::new(7);
    let full: Vec<u8> = (0u8..64).collect();
    m.add_data(&full).unwrap();
    assert_eq!(m.payload_len(), 64);
    let before = m.serialize();

    assert_eq!(m.add_data(&[99]), Err(PayloadOverflow));
    assert_eq!(m.payload_len(), 64);
    assert_eq!(&m.serialize()[..], &before[..]);

    // failing again changes nothing either: the failure is idempotent
    assert_eq!(m.add_data(&[99]), Err(PayloadOverflow));
    assert_eq!(&m.serialize()[..], &before[..]);
}

#[test]
fn add_data_is_atomic_on_partial_overflow() {
    let mut m = Message::new(7);
    m.add_data(&vec![1u8; 60]).unwrap();
    // 60 + 8 > 64: nothing of the 8 bytes may be taken
    assert_eq!(m.add_data(&[2u8; 8]), Err(PayloadOverflow));
    assert_eq!(m.payload_len(), 60);
    let wire = m.serialize();
    assert_eq!(wire.len(), 63);
    assert!(wire[3..].iter().all(|&b| b == 1));
}

#[test]
fn add_data_appends_incrementally() {
    let mut m = Message::new(0x0A0B);
    m.add_data(&[1, 2]).unwrap();
    m.add_data(&[3]).unwrap();
    m.add_data(&[]).unwrap();
    let wire = m.serialize();
    assert_eq!(&wire[..], &[0x0A, 0x0B, 3, 1, 2, 3]);
}
