use mediator::codec::{decode, encode, Envelope};
use mediator::msg_parts::{MsgParts, Thread};
use mediator::msg_types::DecodeError;
use mediator::push_notifications_fcm::{
    ProblemCode, ProblemReportContent, ProblemReportDecorators, PushNotificationsFCM,
};

fn empty_envelope(msg_type: &str) -> Envelope {
    Envelope {
        msg_type: msg_type.to_string(),
        id: "id-1".to_string(),
        thread_thid: None,
        device_token: None,
        device_platform: None,
        problem_code: None,
        explain: None,
    }
}

#[test]
fn report_problem_round_trip() {
    let msg = PushNotificationsFCM::ReportProblem(MsgParts {
        id: "id-9".to_string(),
        content: ProblemReportContent {
            problem_code: ProblemCode::ResponseProcessingError,
            explain: "Failed to set device info".to_string(),
        },
        decorators: ProblemReportDecorators {
            thread: Some(Thread {
                thid: "req-3".to_string(),
            }),
        },
    });
    let env = encode(&msg);
    assert_eq!(
        env.msg_type,
        "https://didcomm.org/push-notifications-fcm/1.0/report-problem"
    );
    assert_eq!(env.problem_code, Some("response-processing-error".to_string()));
    assert_eq!(env.explain, Some("Failed to set device info".to_string()));
    assert_eq!(env.thread_thid, Some("req-3".to_string()));
    assert_eq!(decode(&env), Ok(msg));
}

#[test]
fn decode_refuses_unknown_protocol() {
    let env = empty_envelope("https://didcomm.org/basicmessage/1.0/message");
    assert_eq!(decode(&env), Err(DecodeError::UnknownProtocol));
}

#[test]
fn decode_refuses_unsupported_major() {
    let env = empty_envelope("https://didcomm.org/push-notifications-fcm/2.0/device-info");
    assert_eq!(decode(&env), Err(DecodeError::UnsupportedVersion));
}

#[test]
fn decode_refuses_unknown_kind() {
    let env = empty_envelope("https://didcomm.org/push-notifications-fcm/1.0/ring-bell");
    assert_eq!(decode(&env), Err(DecodeError::UnknownKind));
}

#[test]
fn decode_tolerates_any_minor_version() {
    let env = empty_envelope("https://didcomm.org/push-notifications-fcm/1.188/get-device-info");
    let decoded = decode(&env).unwrap();
    assert!(matches!(decoded, PushNotificationsFCM::GetDeviceInfo(_)));
}

#[test]
fn decode_refuses_missing_required_fields() {
    // device-info without its token and platform fields
    let env = empty_envelope("https://didcomm.org/push-notifications-fcm/1.0/device-info");
    assert_eq!(decode(&env), Err(DecodeError::MalformedContent));

    // report-problem with an unregistered code tag
    let mut env = empty_envelope("https://didcomm.org/push-notifications-fcm/1.0/report-problem");
    env.problem_code = Some("sky-fell".to_string());
    env.explain = Some("?".to_string());
    assert_eq!(decode(&env), Err(DecodeError::MalformedContent));

    // report-problem without an explanation
    let mut env = empty_envelope("https://didcomm.org/push-notifications-fcm/1.0/report-problem");
    env.problem_code = Some("request-not-accepted".to_string());
    assert_eq!(decode(&env), Err(DecodeError::MalformedContent));
}

#[test]
fn set_device_info_ignores_foreign_fields() {
    // a set-device-info envelope may carry no token or platform at all
    let mut env = empty_envelope("https://didcomm.org/push-notifications-fcm/1.0/set-device-info");
    env.explain = Some("ignored".to_string());
    let decoded = decode(&env).unwrap();
    match decoded {
        PushNotificationsFCM::SetDeviceInfo(m) => {
            assert_eq!(m.content.device_token, None);
            assert_eq!(m.content.device_platform, None);
        }
        other => panic!("wrong kind decoded: {other:?}"),
    }
}
