use mediator::msg_types::{
    kind_from_str, parse_message_type, parse_protocol, protocol_as_str, DecodeError,
    PushNotificationsFCMType, PushNotificationsFCMTypeV1, PushNotificationsFCMTypeV1_0,
};

fn v1_0() -> PushNotificationsFCMType {
    PushNotificationsFCMType::V1(PushNotificationsFCMTypeV1::new_v1_0())
}

#[test]
fn test_protocol_push_notifications_fcm() {
    assert_eq!(
        protocol_as_str(v1_0()),
        "https://didcomm.org/push-notifications-fcm/1.0"
    );
    assert_eq!(
        parse_protocol("https://didcomm.org/push-notifications-fcm/1.0"),
        Ok(v1_0())
    );
}

#[test]
fn test_version_resolution_push_notifications_fcm() {
    assert_eq!(
        parse_protocol("https://didcomm.org/push-notifications-fcm/1.188"),
        Ok(v1_0())
    );
}

#[test]
#[should_panic]
fn test_unsupported_version_push_notifications_fcm() {
    parse_protocol("https://didcomm.org/push-notifications-fcm/2.0").unwrap();
}

#[test]
fn test_msg_type_device_info() {
    let (protocol, kind) =
        parse_message_type("https://didcomm.org/push-notifications-fcm/1.0/device_info").unwrap();
    assert_eq!(protocol, v1_0());
    assert_eq!(kind, "device_info");
}

#[test]
fn test_msg_type_set_device_info() {
    let (protocol, kind) =
        parse_message_type("https://didcomm.org/push-notifications-fcm/1.0/set_device_info")
            .unwrap();
    assert_eq!(protocol, v1_0());
    assert_eq!(kind, "set_device_info");
}

#[test]
fn test_msg_type_get_device_info() {
    let (protocol, kind) =
        parse_message_type("https://didcomm.org/push-notifications-fcm/1.0/get_device_info")
            .unwrap();
    assert_eq!(protocol, v1_0());
    assert_eq!(kind, "get_device_info");
}

#[test]
fn unknown_protocol_name_is_refused() {
    assert_eq!(
        parse_protocol("https://didcomm.org/basicmessage/1.0"),
        Err(DecodeError::UnknownProtocol)
    );
    assert_eq!(
        parse_message_type("no-slashes-here"),
        Err(DecodeError::UnknownProtocol)
    );
}

#[test]
fn unsupported_major_version_is_refused() {
    assert_eq!(
        parse_protocol("https://didcomm.org/push-notifications-fcm/2.0"),
        Err(DecodeError::UnsupportedVersion)
    );
    assert_eq!(
        parse_protocol("https://didcomm.org/push-notifications-fcm/0.1"),
        Err(DecodeError::UnsupportedVersion)
    );
}

#[test]
fn malformed_version_tag_is_refused() {
    assert_eq!(
        parse_protocol("https://didcomm.org/push-notifications-fcm/1"),
        Err(DecodeError::MalformedContent)
    );
    assert_eq!(
        parse_protocol("https://didcomm.org/push-notifications-fcm/1.x"),
        Err(DecodeError::MalformedContent)
    );
    assert_eq!(
        parse_protocol("https://didcomm.org/push-notifications-fcm/.5"),
        Err(DecodeError::MalformedContent)
    );
}

#[test]
fn major_version_tolerates_leading_zeros() {
    assert_eq!(
        parse_protocol("https://didcomm.org/push-notifications-fcm/01.7"),
        Ok(v1_0())
    );
}

#[test]
fn kebab_case_kind_tags_resolve() {
    assert_eq!(
        kind_from_str("device-info"),
        Ok(PushNotificationsFCMTypeV1_0::DeviceInfo)
    );
    assert_eq!(
        kind_from_str("set-device-info"),
        Ok(PushNotificationsFCMTypeV1_0::SetDeviceInfo)
    );
    assert_eq!(
        kind_from_str("get-device-info"),
        Ok(PushNotificationsFCMTypeV1_0::GetDeviceInfo)
    );
    assert_eq!(
        kind_from_str("report-problem"),
        Ok(PushNotificationsFCMTypeV1_0::ReportProblem)
    );
    assert_eq!(kind_from_str("device_info"), Err(DecodeError::UnknownKind));
}
