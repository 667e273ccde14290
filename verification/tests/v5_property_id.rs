use mqtt_codec::v5::property_id::{
    PROPERTY_AUTHENTICATION_DATA, PROPERTY_CONTENT_TYPE, PROPERTY_MAXIMUM_QOS,
    PROPERTY_RECEIVE_MAXIMUM, PROPERTY_SESSION_EXPIRY_INTERVAL, PROPERTY_SUBSCRIPTION_IDENTIFIER,
    PROPERTY_TOPIC_ALIAS, PROPERTY_USER_PROPERTY,
};
use mqtt_codec::v5::PropertyType;
use mqtt_codec::MqttError;

#[test]
fn property_identifiers_map_to_wire_formats() {
    assert_eq!(PropertyType::from_id(PROPERTY_MAXIMUM_QOS), Some(PropertyType::Byte));
    assert_eq!(PropertyType::from_id(PROPERTY_RECEIVE_MAXIMUM), Some(PropertyType::TwoByteInteger));
    assert_eq!(
        PropertyType::from_id(PROPERTY_SESSION_EXPIRY_INTERVAL),
        Some(PropertyType::FourByteInteger)
    );
    assert_eq!(
        PropertyType::from_id(PROPERTY_SUBSCRIPTION_IDENTIFIER),
        Some(PropertyType::VariableByteInteger)
    );
    assert_eq!(PropertyType::from_id(PROPERTY_CONTENT_TYPE), Some(PropertyType::Utf8String));
    assert_eq!(PropertyType::from_id(PROPERTY_USER_PROPERTY), Some(PropertyType::Utf8StringPair));
    assert_eq!(PropertyType::from_id(PROPERTY_AUTHENTICATION_DATA), Some(PropertyType::BinaryData));
    assert_eq!(PropertyType::from_id(0x00), None);
    assert_eq!(PropertyType::from_id(0x2B), None);
}

fn incomplete(r: Result<(), MqttError>) -> (usize, usize) {
    match r {
        Err(MqttError::IncompletePacket { expected, actual }) => (expected, actual),
        other => panic!("expected an incomplete packet error, got {:?}", other),
    }
}

#[test]
fn skipping_fixed_size_values() {
    let buf = [0x01u8, 0x02, 0x03, 0x04, 0x05];
    assert_eq!(PropertyType::Byte.skip_value(&buf, 4).0, 5);
    assert!(PropertyType::Byte.skip_value(&buf, 4).1.is_ok());
    let (pos, r) = PropertyType::Byte.skip_value(&buf, 5);
    assert_eq!((pos, incomplete(r)), (5, (1, 0)));
    let (pos, r) = PropertyType::TwoByteInteger.skip_value(&buf, 3);
    assert_eq!(pos, 5);
    assert!(r.is_ok());
    let (pos, r) = PropertyType::FourByteInteger.skip_value(&buf, 2);
    assert_eq!((pos, incomplete(r)), (2, (4, 3)));
}

#[test]
fn skipping_variable_byte_integers() {
    let (pos, r) = PropertyType::VariableByteInteger.skip_value(&[0x80, 0x80, 0x01, 0xAA], 0);
    assert_eq!(pos, 3);
    assert!(r.is_ok());
    let (pos, r) = PropertyType::VariableByteInteger.skip_value(&[0xFF, 0xFF], 0);
    assert_eq!((pos, incomplete(r)), (2, (1, 0)));
}

#[test]
fn skipping_strings_and_binary_data() {
    let s = [0x00u8, 0x02, b'a', b'b', 0xEE];
    let (pos, r) = PropertyType::Utf8String.skip_value(&s, 0);
    assert_eq!(pos, 4);
    assert!(r.is_ok());
    let (pos, r) = PropertyType::BinaryData.skip_value(&[0x00, 0x03, 0x01, 0x02], 0);
    assert_eq!((pos, incomplete(r)), (0, (5, 4)));
    let pair = [0x00u8, 0x01, b'k', 0x00, 0x01, b'v'];
    let (pos, r) = PropertyType::Utf8StringPair.skip_value(&pair, 0);
    assert_eq!(pos, 6);
    assert!(r.is_ok());
    let (pos, r) = PropertyType::Utf8StringPair.skip_value(&pair[..5], 0);
    assert_eq!((pos, incomplete(r)), (3, (3, 2)));
}

#[test]
fn topic_alias_is_a_variable_byte_integer() {
    assert_eq!(
        PropertyType::from_id(PROPERTY_TOPIC_ALIAS),
        Some(PropertyType::VariableByteInteger)
    );
    let (pos, r) = PropertyType::from_id(PROPERTY_TOPIC_ALIAS)
        .unwrap()
        .skip_value(&[0x85, 0x01, 0x26], 0);
    assert_eq!(pos, 2);
    assert!(r.is_ok());
}
