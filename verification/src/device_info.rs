//! Device-info handler: turns a decoded push-notification message plus
//! the caller's authentication key into exactly one outbound message —
//! a `device-info` answer or an in-band `report-problem`. Every input
//! variant maps to exactly one outbound message; there is no
//! unhandled-input path.

use vstd::prelude::*;

use crate::msg_parts::{MsgParts, new_msg_id};
use crate::persistence::{MediatorPersistence, StorageEvent, StorageOp};
use crate::push_notifications_fcm::{
    DeviceInfoContent, DeviceInfoDecorators, ProblemCode, ProblemReport, ProblemReportContent,
    ProblemReportDecorators, PushNotificationsFCM, SetDeviceInfo,
};
use crate::strings::{opt_or_empty, spec_opt_or_empty, str_eq};

verus! {

/// Is `r` a thread-less report-problem answer with this code and text?
pub open spec fn spec_is_problem_report(
    r: PushNotificationsFCM,
    code: ProblemCode,
    explain: Seq<char>,
) -> bool {
    &&& r matches PushNotificationsFCM::ReportProblem(p)
    &&& p.content.problem_code == code
    &&& p.content.explain@ == explain
    &&& p.decorators.thread is None
}

/// Build the in-band error answer of the device-info protocol.
pub fn report_problem(code: ProblemCode, message: &str) -> (r: ProblemReport)
    ensures
        r.content.problem_code == code,
        r.content.explain@ == message@,
        r.decorators.thread is None,
{
    MsgParts {
        id: new_msg_id(),
        content: ProblemReportContent { problem_code: code, explain: message.to_owned() },
        decorators: ProblemReportDecorators { thread: None },
    }
}

/// What answering a get-device-info request means: on a stored record,
/// a device-info answer echoing it with absent fields as empty strings;
/// on a miss, a report-problem answer; either way one retrieval is
/// logged against the caller's account.
pub open spec fn spec_get_device_info_response<P: MediatorPersistence>(
    pre: P,
    post: P,
    auth: Seq<char>,
    r: PushNotificationsFCM,
) -> bool {
    &&& post.log() == pre.log().push(
        StorageEvent {
            op: StorageOp::RetrieveDeviceInfo { auth },
            ok: pre.device_record(auth) is Some,
        },
    )
    &&& pre.device_record(auth) matches Some(rec) ==> {
        &&& r matches PushNotificationsFCM::DeviceInfo(d)
        &&& d.content.device_token@ == spec_opt_or_empty(rec.token)
        &&& d.content.device_platform@ == spec_opt_or_empty(rec.platform)
        &&& d.decorators.thread is None
    }
    &&& pre.device_record(auth) is None ==> spec_is_problem_report(
        r,
        ProblemCode::RequestNotAccepted,
        "Device info not found"@,
    )
}

/// Answer a get-device-info request from the stored record.
pub fn handle_get_device_info<P: MediatorPersistence>(storage: &mut P, auth_pubkey: &str) -> (r:
    PushNotificationsFCM)
    ensures
        spec_get_device_info_response(*old(storage), *final(storage), auth_pubkey@, r),
{
    match storage.retrieve_device_info(auth_pubkey) {
        Ok(info) => {
            let token = opt_or_empty(&info.token);
            let platform = opt_or_empty(&info.platform);
            PushNotificationsFCM::DeviceInfo(
                MsgParts {
                    id: new_msg_id(),
                    content: DeviceInfoContent {
                        device_token: token,
                        device_platform: platform,
                    },
                    decorators: DeviceInfoDecorators { thread: None },
                },
            )
        },
        Err(_) => {
            PushNotificationsFCM::ReportProblem(
                report_problem(ProblemCode::RequestNotAccepted, "Device info not found"),
            )
        },
    }
}

/// Token and platform must be given or omitted together; a partial
/// update is rejected before it reaches persistence.
pub open spec fn spec_pairing_invalid(token: Option<Seq<char>>, platform: Option<Seq<char>>) -> bool {
    (token is None && platform is Some) || (token is Some && platform is None)
}

/// A platform, when given, must be exactly `android` or `ios`.
pub open spec fn spec_platform_invalid(platform: Option<Seq<char>>) -> bool {
    platform matches Some(p) && p != "android"@ && p != "ios"@
}

/// What answering a set-device-info request means: invalid input is
/// answered in-band without touching persistence; valid input logs one
/// store whose outcome decides between the echoing device-info answer
/// and a report-problem answer.
pub open spec fn spec_set_device_info_response<P: MediatorPersistence>(
    pre: P,
    post: P,
    auth: Seq<char>,
    token: Option<Seq<char>>,
    platform: Option<Seq<char>>,
    r: PushNotificationsFCM,
) -> bool {
    &&& spec_pairing_invalid(token, platform) ==> {
        &&& spec_is_problem_report(
            r,
            ProblemCode::RequestNotAccepted,
            "Both device token and platform must be provided or omitted together."@,
        )
        &&& post.log() == pre.log()
    }
    &&& !spec_pairing_invalid(token, platform) && spec_platform_invalid(platform) ==> {
        &&& spec_is_problem_report(
            r,
            ProblemCode::RequestNotAccepted,
            "Device platform must be one of: android, ios"@,
        )
        &&& post.log() == pre.log()
    }
    &&& !spec_pairing_invalid(token, platform) && !spec_platform_invalid(platform) ==> {
        &&& post.log() == pre.log().push(
            StorageEvent {
                op: StorageOp::SetDeviceInfo { auth, token, platform },
                ok: r is DeviceInfo,
            },
        )
        &&& r matches PushNotificationsFCM::DeviceInfo(d) ==> {
            &&& d.content.device_token@ == spec_opt_or_empty(token)
            &&& d.content.device_platform@ == spec_opt_or_empty(platform)
            &&& d.decorators.thread is None
            &&& post.device_record(auth) == Some(
                crate::persistence::DeviceInfoRecordV { token, platform },
            )
        }
        &&& !(r is DeviceInfo) ==> spec_is_problem_report(
            r,
            ProblemCode::ResponseProcessingError,
            "Failed to set device info"@,
        )
    }
}

/// Validate and store a set-device-info request, answering in-band.
pub fn handle_set_device_info<P: MediatorPersistence>(
    storage: &mut P,
    set_device_info: SetDeviceInfo,
    auth_pubkey: &str,
) -> (r: PushNotificationsFCM)
    ensures
        spec_set_device_info_response(
            *old(storage),
            *final(storage),
            auth_pubkey@,
            set_device_info.content.device_token.deep_view(),
            set_device_info.content.device_platform.deep_view(),
            r,
        ),
{
    let token = set_device_info.content.device_token;
    let platform = set_device_info.content.device_platform;

    if (token.is_none() && platform.is_some()) || (token.is_some() && platform.is_none()) {
        let problem_report = report_problem(
            ProblemCode::RequestNotAccepted,
            "Both device token and platform must be provided or omitted together.",
        );
        return PushNotificationsFCM::ReportProblem(problem_report);
    }

    if let Some(platform_value) = &platform {
        if !(str_eq(platform_value.as_str(), "android") || str_eq(
            platform_value.as_str(),
            "ios",
        )) {
            let problem_report = report_problem(
                ProblemCode::RequestNotAccepted,
                "Device platform must be one of: android, ios",
            );
            return PushNotificationsFCM::ReportProblem(problem_report);
        }
    }

    match storage.set_device_info(auth_pubkey, &token, &platform) {
        Ok(_) => {
            let content = DeviceInfoContent {
                device_token: opt_or_empty(&token),
                device_platform: opt_or_empty(&platform),
            };
            PushNotificationsFCM::DeviceInfo(
                MsgParts {
                    id: new_msg_id(),
                    content,
                    decorators: DeviceInfoDecorators { thread: None },
                },
            )
        },
        Err(_e) => {
            let problem_report = report_problem(
                ProblemCode::ResponseProcessingError,
                "Failed to set device info",
            );
            PushNotificationsFCM::ReportProblem(problem_report)
        },
    }
}

/// The one answer each inbound push-notification message gets: an
/// inbound `device-info` is a protocol violation, an inbound
/// `report-problem` is not supported here, and the two requests are
/// answered from storage as their own contracts say.
pub open spec fn spec_device_info_dispatch<P: MediatorPersistence>(
    pre: P,
    post: P,
    auth: Seq<char>,
    msg: PushNotificationsFCM,
    r: PushNotificationsFCM,
) -> bool {
    &&& msg is DeviceInfo ==> (spec_is_problem_report(
        r,
        ProblemCode::RequestNotAccepted,
        "DeviceInfo message should not be handled here."@,
    ) && post.log() == pre.log())
    &&& msg is GetDeviceInfo ==> spec_get_device_info_response(pre, post, auth, r)
    &&& msg matches PushNotificationsFCM::SetDeviceInfo(s) ==> spec_set_device_info_response(
        pre,
        post,
        auth,
        s.content.device_token.deep_view(),
        s.content.device_platform.deep_view(),
        r,
    )
    &&& msg is ReportProblem ==> (spec_is_problem_report(
        r,
        ProblemCode::RequestProcessingError,
        "This operation is not supported in the current context."@,
    ) && post.log() == pre.log())
}

/// Dispatch one decoded push-notification message to its handler. A
/// `device-info` answer arriving as a request is a protocol violation;
/// a `report-problem` arriving as input is not supported here; both are
/// answered in-band, and every variant yields exactly one answer.
pub fn handle_device_info<P: MediatorPersistence>(
    storage: &mut P,
    push_notification_fcm: PushNotificationsFCM,
    auth_pubkey: &str,
) -> (r: PushNotificationsFCM)
    ensures
        spec_device_info_dispatch(
            *old(storage),
            *final(storage),
            auth_pubkey@,
            push_notification_fcm,
            r,
        ),
{
    match push_notification_fcm {
        PushNotificationsFCM::DeviceInfo(_) => {
            let problem_report = report_problem(
                ProblemCode::RequestNotAccepted,
                "DeviceInfo message should not be handled here.",
            );
            PushNotificationsFCM::ReportProblem(problem_report)
        },
        PushNotificationsFCM::GetDeviceInfo(_) => handle_get_device_info(storage, auth_pubkey),
        PushNotificationsFCM::SetDeviceInfo(set_device_info) => {
            handle_set_device_info(storage, set_device_info, auth_pubkey)
        },
        PushNotificationsFCM::ReportProblem(_) => {
            let problem_report = report_problem(
                ProblemCode::RequestProcessingError,
                "This operation is not supported in the current context.",
            );
            PushNotificationsFCM::ReportProblem(problem_report)
        },
    }
}

/// The push-notification protocol entry point the transport layer
/// calls; the answer is always produced, so the result is always `Ok`.
pub fn handle_push_notification_fcm_protocol<P: MediatorPersistence>(
    storage: &mut P,
    push_notification: PushNotificationsFCM,
    auth_pubkey: &str,
) -> (r: Result<PushNotificationsFCM, String>)
    ensures
        r matches Ok(resp) && spec_device_info_dispatch(
            *old(storage),
            *final(storage),
            auth_pubkey@,
            push_notification,
            resp,
        ),
{
    let response = handle_device_info(storage, push_notification, auth_pubkey);
    Ok(response)
}

} // verus!
