use bytes::Bytes;
use fred::types::{RedisKey, RedisValue};
use tile_relay::codec::{DecodeError, TileId};
use tile_relay::relay::{CloseStep, Connections, Inbox};

#[test]
fn published_tile_is_received_once() {
    let sent = TileId { z: 5, x: 2, y: 3 };
    let payload: RedisValue = sent.into();
    let mut inbox = Inbox::new();
    assert_eq!(inbox.receive_value(&payload), Ok(sent));
    assert_eq!(inbox.decoded, vec![TileId { z: 5, x: 2, y: 3 }]);
    assert!(inbox.errors.is_empty());
}

#[test]
fn raw_short_payload_is_reported() {
    let payload = RedisValue::Bytes(Bytes::from(vec![1u8, 2, 3, 4]));
    let mut inbox = Inbox::new();
    assert_eq!(inbox.receive_value(&payload), Err(DecodeError::InvalidLength));
    assert!(inbox.decoded.is_empty());
    assert_eq!(inbox.errors, vec![DecodeError::InvalidLength]);
}

#[test]
fn value_without_bytes_is_reported() {
    let payload = RedisValue::Integer(42);
    let mut inbox = Inbox::new();
    assert_eq!(inbox.receive_value(&payload), Err(DecodeError::MalformedPayload));
    assert!(inbox.decoded.is_empty());
    assert_eq!(inbox.errors, vec![DecodeError::MalformedPayload]);
}

#[test]
fn string_payload_is_decoded_by_its_bytes() {
    let text = String::from_utf8(vec![0u8, 0, 0, 7, 0, 0, 0, 8, 0, 0, 0, 9]).unwrap();
    let payload = RedisValue::from(text);
    assert_eq!(TileId::from_value(&payload), Ok(TileId { z: 7, x: 8, y: 9 }));
}

#[test]
fn inbox_keeps_arrival_order() {
    let mut inbox = Inbox::new();
    let a = TileId { z: 1, x: 1, y: 1 };
    let b = TileId { z: 2, x: 2, y: 2 };
    assert_eq!(inbox.receive(&a.to_bytes()), Ok(a));
    assert_eq!(inbox.receive(&[9u8; 13]), Err(DecodeError::InvalidLength));
    assert_eq!(inbox.receive_bytes(&b.to_bytes()), Ok(b));
    assert_eq!(inbox.receive(&[]), Err(DecodeError::InvalidLength));
    assert_eq!(inbox.decoded, vec![a, b]);
    assert_eq!(inbox.errors, vec![DecodeError::InvalidLength, DecodeError::InvalidLength]);
}

#[test]
fn key_holds_encoding() {
    let key: RedisKey = TileId { z: 0, x: 1, y: 0 }.into();
    assert_eq!(key.as_bytes(), &[0u8, 0, 0, 0, 0, 0, 0, 1, 0, 0, 0, 0][..]);
}

#[test]
fn closing_subscriber_twice_is_harmless() {
    let mut c = Connections::new();
    assert_eq!(c.close_subscriber(), CloseStep::Release);
    assert_eq!(c.close_subscriber(), CloseStep::AlreadyClosed);
    assert!(c.publisher_open);
    assert!(!c.subscriber_open);
    assert_eq!(c.close_publisher(), CloseStep::Release);
    assert_eq!(c.close_publisher(), CloseStep::AlreadyClosed);
    assert!(c.is_released());
}

#[test]
fn closing_in_either_order_releases_both() {
    let mut a = Connections::new();
    assert_eq!(a.close_publisher(), CloseStep::Release);
    assert!(!a.is_released());
    assert_eq!(a.close_subscriber(), CloseStep::Release);
    let mut b = Connections::new();
    assert_eq!(b.close_subscriber(), CloseStep::Release);
    assert!(!b.is_released());
    assert_eq!(b.close_publisher(), CloseStep::Release);
    assert_eq!(a, b);
    assert!(a.is_released());
}

#[test]
fn value_conversion_unchanged_after_partial_shutdown() {
    let id = TileId { z: 5, x: 2, y: 3 };
    let mut c = Connections::new();
    c.close_subscriber();
    c.close_subscriber();
    assert!(c.publisher_open);
    let value: RedisValue = id.into();
    assert_eq!(value, RedisValue::Bytes(Bytes::from(vec![0u8, 0, 0, 5, 0, 0, 0, 2, 0, 0, 0, 3])));
}
