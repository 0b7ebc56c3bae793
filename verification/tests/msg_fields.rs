use mediator::codec::{decode, encode};
use mediator::msg_parts::{MsgParts, Thread};
use mediator::push_notifications_fcm::{
    DeviceInfoContent, DeviceInfoDecorators, GetDeviceInfoContent, GetDeviceInfoDecorators,
    PushNotificationsFCM, SetDeviceInfoContent, SetDeviceInfoDecorators,
};

fn make_extended_thread() -> Thread {
    Thread {
        thid: "test".to_string(),
    }
}

#[test]
fn test_minimal_device_info() {
    let content = DeviceInfoContent {
        device_token: String::new(),
        device_platform: String::new(),
    };
    let decorators = DeviceInfoDecorators {
        thread: Some(make_extended_thread()),
    };
    let msg = PushNotificationsFCM::DeviceInfo(MsgParts {
        id: "test-id".to_string(),
        content: content.clone(),
        decorators: decorators.clone(),
    });

    let env = encode(&msg);
    assert_eq!(
        env.msg_type,
        "https://didcomm.org/push-notifications-fcm/1.0/device-info"
    );
    assert_eq!(env.device_token, Some(content.device_token));
    assert_eq!(env.device_platform, Some(content.device_platform));
    assert_eq!(env.thread_thid, Some("test".to_string()));
    assert_eq!(decode(&env), Ok(msg));
}

#[test]
fn test_extended_device_info() {
    let content = DeviceInfoContent {
        device_token: "test_token".to_owned(),
        device_platform: "test_platform".to_owned(),
    };
    let decorators = DeviceInfoDecorators {
        thread: Some(make_extended_thread()),
    };
    let msg = PushNotificationsFCM::DeviceInfo(MsgParts {
        id: "test-id".to_string(),
        content: content.clone(),
        decorators: decorators.clone(),
    });

    let env = encode(&msg);
    assert_eq!(
        env.msg_type,
        "https://didcomm.org/push-notifications-fcm/1.0/device-info"
    );
    assert_eq!(env.device_token, Some(content.device_token));
    assert_eq!(env.device_platform, Some(content.device_platform));
    assert_eq!(env.thread_thid, Some("test".to_string()));
    assert_eq!(decode(&env), Ok(msg));
}

#[test]
fn test_minimal_get_device_info() {
    let content = GetDeviceInfoContent {};
    let decorators = GetDeviceInfoDecorators { thread: None };
    let msg = PushNotificationsFCM::GetDeviceInfo(MsgParts {
        id: "test-id".to_string(),
        content,
        decorators,
    });

    let env = encode(&msg);
    assert_eq!(
        env.msg_type,
        "https://didcomm.org/push-notifications-fcm/1.0/get-device-info"
    );
    assert_eq!(env.device_token, None);
    assert_eq!(env.device_platform, None);
    assert_eq!(env.thread_thid, None);
    assert_eq!(env.problem_code, None);
    assert_eq!(env.explain, None);
    assert_eq!(decode(&env), Ok(msg));
}

#[test]
fn test_minimal_set_device_info() {
    let content = SetDeviceInfoContent {
        device_token: None,
        device_platform: None,
    };
    let decorators = SetDeviceInfoDecorators { thread: None };
    let msg = PushNotificationsFCM::SetDeviceInfo(MsgParts {
        id: "test-id".to_string(),
        content,
        decorators,
    });

    let env = encode(&msg);
    assert_eq!(
        env.msg_type,
        "https://didcomm.org/push-notifications-fcm/1.0/set-device-info"
    );
    assert_eq!(env.device_token, None);
    assert_eq!(env.device_platform, None);
    assert_eq!(env.thread_thid, None);
    assert_eq!(decode(&env), Ok(msg));
}

#[test]
fn test_extended_set_device_info() {
    let content = SetDeviceInfoContent {
        device_token: Some("test_token".to_owned()),
        device_platform: Some("test_platform".to_owned()),
    };
    let decorators = SetDeviceInfoDecorators { thread: None };
    let msg = PushNotificationsFCM::SetDeviceInfo(MsgParts {
        id: "test-id".to_string(),
        content: content.clone(),
        decorators,
    });

    let env = encode(&msg);
    assert_eq!(
        env.msg_type,
        "https://didcomm.org/push-notifications-fcm/1.0/set-device-info"
    );
    assert_eq!(env.device_token, content.device_token);
    assert_eq!(env.device_platform, content.device_platform);
    assert_eq!(decode(&env), Ok(msg));
}
