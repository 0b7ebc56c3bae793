//! Wire codec of the push-notification protocol: turns a typed message
//! into a flat envelope (the field set of its JSON object form) and back.
//! The envelope keeps the fully qualified `type` tag, the message id, the
//! optional thread decorator, and the union of the content fields of the
//! registered kinds; absent optional fields stay absent.

use vstd::prelude::*;

use crate::msg_parts::{MsgParts, Thread, ThreadV};
use crate::msg_types::{
    spec_kind_from_str, spec_kind_str, spec_msg_type_uri, spec_parse_message_type,
    lemma_msg_type_uri_round_trip, kind_from_str, msg_type_uri, parse_message_type, DecodeError,
    PushNotificationsFCMTypeV1_0,
};
use crate::push_notifications_fcm::{
    DeviceInfoContent, DeviceInfoContentV, DeviceInfoDecorators, DeviceInfoDecoratorsV,
    GetDeviceInfoContent, GetDeviceInfoContentV, GetDeviceInfoDecorators, GetDeviceInfoDecoratorsV,
    ProblemCode, ProblemReportContent, ProblemReportContentV, ProblemReportDecorators,
    ProblemReportDecoratorsV, PushNotificationsFCM, PushNotificationsFCMV, SetDeviceInfoContent,
    SetDeviceInfoContentV, SetDeviceInfoDecorators, SetDeviceInfoDecoratorsV,
};
use crate::strings::{clone_opt_string, str_eq};

verus! {

/// The flat wire form of a message: `type` tag, id, thread decorator,
/// and every content field any registered kind may carry.
#[derive(Clone, Debug, PartialEq)]
pub struct Envelope {
    pub msg_type: String,
    pub id: String,
    pub thread_thid: Option<String>,
    pub device_token: Option<String>,
    pub device_platform: Option<String>,
    pub problem_code: Option<String>,
    pub explain: Option<String>,
}

pub struct EnvelopeV {
    pub msg_type: Seq<char>,
    pub id: Seq<char>,
    pub thread_thid: Option<Seq<char>>,
    pub device_token: Option<Seq<char>>,
    pub device_platform: Option<Seq<char>>,
    pub problem_code: Option<Seq<char>>,
    pub explain: Option<Seq<char>>,
}

impl View for Envelope {
    type V = EnvelopeV;

    open spec fn view(&self) -> EnvelopeV {
        EnvelopeV {
            msg_type: self.msg_type@,
            id: self.id@,
            thread_thid: self.thread_thid.deep_view(),
            device_token: self.device_token.deep_view(),
            device_platform: self.device_platform.deep_view(),
            problem_code: self.problem_code.deep_view(),
            explain: self.explain.deep_view(),
        }
    }
}

impl DeepView for Envelope {
    type V = EnvelopeV;

    open spec fn deep_view(&self) -> EnvelopeV {
        self@
    }
}

// ------------------------------------------------------------- problem codes

/// The wire tag of a problem code.
pub open spec fn spec_problem_code_str(c: ProblemCode) -> Seq<char> {
    match c {
        ProblemCode::RequestNotAccepted => "request-not-accepted"@,
        ProblemCode::RequestProcessingError => "request-processing-error"@,
        ProblemCode::ResponseProcessingError => "response-processing-error"@,
    }
}

pub open spec fn spec_problem_code_from_str(s: Seq<char>) -> Option<ProblemCode> {
    if s == "request-not-accepted"@ {
        Some(ProblemCode::RequestNotAccepted)
    } else if s == "request-processing-error"@ {
        Some(ProblemCode::RequestProcessingError)
    } else if s == "response-processing-error"@ {
        Some(ProblemCode::ResponseProcessingError)
    } else {
        None
    }
}

pub fn problem_code_as_str(c: ProblemCode) -> (r: &'static str)
    ensures
        r@ == spec_problem_code_str(c),
{
    match c {
        ProblemCode::RequestNotAccepted => "request-not-accepted",
        ProblemCode::RequestProcessingError => "request-processing-error",
        ProblemCode::ResponseProcessingError => "response-processing-error",
    }
}

pub fn problem_code_from_str(s: &str) -> (r: Option<ProblemCode>)
    ensures
        r == spec_problem_code_from_str(s@),
{
    if str_eq(s, "request-not-accepted") {
        Some(ProblemCode::RequestNotAccepted)
    } else if str_eq(s, "request-processing-error") {
        Some(ProblemCode::RequestProcessingError)
    } else if str_eq(s, "response-processing-error") {
        Some(ProblemCode::ResponseProcessingError)
    } else {
        None
    }
}

/// Every problem-code tag resolves back to the code it was printed from.
pub proof fn lemma_problem_code_round_trip(c: ProblemCode)
    ensures
        spec_problem_code_from_str(spec_problem_code_str(c)) == Some(c),
{
    reveal_strlit("request-not-accepted");
    reveal_strlit("request-processing-error");
    reveal_strlit("response-processing-error");
    match c {
        ProblemCode::RequestNotAccepted => {},
        ProblemCode::RequestProcessingError => {
            assert("request-processing-error"@ != "request-not-accepted"@) by {
                assert("request-processing-error"@.len() != "request-not-accepted"@.len());
            }
        },
        ProblemCode::ResponseProcessingError => {
            assert("response-processing-error"@ != "request-not-accepted"@) by {
                assert("response-processing-error"@.len() != "request-not-accepted"@.len());
            }
            assert("response-processing-error"@ != "request-processing-error"@) by {
                assert("response-processing-error"@.len() != "request-processing-error"@.len());
            }
        },
    }
}

// ------------------------------------------------------------------ the spec

pub open spec fn spec_thid_of(t: Option<ThreadV>) -> Option<Seq<char>> {
    match t {
        Some(th) => Some(th.thid),
        None => None,
    }
}

pub open spec fn spec_thread_of(thid: Option<Seq<char>>) -> Option<ThreadV> {
    match thid {
        Some(s) => Some(ThreadV { thid: s }),
        None => None,
    }
}

/// What encoding a message produces, field for field.
pub open spec fn spec_encode(m: PushNotificationsFCMV) -> EnvelopeV {
    match m {
        PushNotificationsFCMV::DeviceInfo(p) => EnvelopeV {
            msg_type: spec_msg_type_uri(PushNotificationsFCMTypeV1_0::DeviceInfo),
            id: p.id,
            thread_thid: spec_thid_of(p.decorators.thread),
            device_token: Some(p.content.device_token),
            device_platform: Some(p.content.device_platform),
            problem_code: None,
            explain: None,
        },
        PushNotificationsFCMV::GetDeviceInfo(p) => EnvelopeV {
            msg_type: spec_msg_type_uri(PushNotificationsFCMTypeV1_0::GetDeviceInfo),
            id: p.id,
            thread_thid: spec_thid_of(p.decorators.thread),
            device_token: None,
            device_platform: None,
            problem_code: None,
            explain: None,
        },
        PushNotificationsFCMV::SetDeviceInfo(p) => EnvelopeV {
            msg_type: spec_msg_type_uri(PushNotificationsFCMTypeV1_0::SetDeviceInfo),
            id: p.id,
            thread_thid: spec_thid_of(p.decorators.thread),
            device_token: p.content.device_token,
            device_platform: p.content.device_platform,
            problem_code: None,
            explain: None,
        },
        PushNotificationsFCMV::ReportProblem(p) => EnvelopeV {
            msg_type: spec_msg_type_uri(PushNotificationsFCMTypeV1_0::ReportProblem),
            id: p.id,
            thread_thid: spec_thid_of(p.decorators.thread),
            device_token: None,
            device_platform: None,
            problem_code: Some(spec_problem_code_str(p.content.problem_code)),
            explain: Some(p.content.explain),
        },
    }
}

/// What an envelope decodes to: resolve the type tag, then demand
/// exactly the fields the resolved kind requires.
pub open spec fn spec_decode(e: EnvelopeV) -> Result<PushNotificationsFCMV, DecodeError> {
    match spec_parse_message_type(e.msg_type) {
        Err(err) => Err(err),
        Ok((_protocol, kind_tag)) => match spec_kind_from_str(kind_tag) {
            Err(err) => Err(err),
            Ok(kind) => match kind {
                PushNotificationsFCMTypeV1_0::DeviceInfo => {
                    if e.device_token is Some && e.device_platform is Some {
                        Ok(
                            PushNotificationsFCMV::DeviceInfo(
                                crate::msg_parts::MsgPartsV {
                                    id: e.id,
                                    content: DeviceInfoContentV {
                                        device_token: e.device_token->0,
                                        device_platform: e.device_platform->0,
                                    },
                                    decorators: DeviceInfoDecoratorsV {
                                        thread: spec_thread_of(e.thread_thid),
                                    },
                                },
                            ),
                        )
                    } else {
                        Err(DecodeError::MalformedContent)
                    }
                },
                PushNotificationsFCMTypeV1_0::GetDeviceInfo => {
                    Ok(
                        PushNotificationsFCMV::GetDeviceInfo(
                            crate::msg_parts::MsgPartsV {
                                id: e.id,
                                content: GetDeviceInfoContentV {},
                                decorators: GetDeviceInfoDecoratorsV {
                                    thread: spec_thread_of(e.thread_thid),
                                },
                            },
                        ),
                    )
                },
                PushNotificationsFCMTypeV1_0::SetDeviceInfo => {
                    Ok(
                        PushNotificationsFCMV::SetDeviceInfo(
                            crate::msg_parts::MsgPartsV {
                                id: e.id,
                                content: SetDeviceInfoContentV {
                                    device_token: e.device_token,
                                    device_platform: e.device_platform,
                                },
                                decorators: SetDeviceInfoDecoratorsV {
                                    thread: spec_thread_of(e.thread_thid),
                                },
                            },
                        ),
                    )
                },
                PushNotificationsFCMTypeV1_0::ReportProblem => {
                    if e.problem_code matches Some(code_tag) && spec_problem_code_from_str(code_tag)
                        is Some && e.explain is Some {
                        Ok(
                            PushNotificationsFCMV::ReportProblem(
                                crate::msg_parts::MsgPartsV {
                                    id: e.id,
                                    content: ProblemReportContentV {
                                        problem_code: spec_problem_code_from_str(
                                            e.problem_code->0,
                                        )->0,
                                        explain: e.explain->0,
                                    },
                                    decorators: ProblemReportDecoratorsV {
                                        thread: spec_thread_of(e.thread_thid),
                                    },
                                },
                            ),
                        )
                    } else {
                        Err(DecodeError::MalformedContent)
                    }
                },
            },
        },
    }
}

// ------------------------------------------------------------------ the exec

fn thid_of(t: &Option<Thread>) -> (r: Option<String>)
    ensures
        r.deep_view() == spec_thid_of(t.deep_view()),
{
    match t {
        Some(th) => Some(th.thid.clone()),
        None => None,
    }
}

fn thread_of(thid: &Option<String>) -> (r: Option<Thread>)
    ensures
        r.deep_view() == spec_thread_of(thid.deep_view()),
{
    match thid {
        Some(s) => Some(Thread { thid: s.clone() }),
        None => None,
    }
}

/// Encode a typed message into its wire envelope. Always succeeds; the
/// canonical type tag of the message's variant is emitted and absent
/// optional fields stay absent.
pub fn encode(m: &PushNotificationsFCM) -> (env: Envelope)
    ensures
        env@ == spec_encode(m@),
{
    match m {
        PushNotificationsFCM::DeviceInfo(p) => Envelope {
            msg_type: msg_type_uri(PushNotificationsFCMTypeV1_0::DeviceInfo),
            id: p.id.clone(),
            thread_thid: thid_of(&p.decorators.thread),
            device_token: Some(p.content.device_token.clone()),
            device_platform: Some(p.content.device_platform.clone()),
            problem_code: None,
            explain: None,
        },
        PushNotificationsFCM::GetDeviceInfo(p) => Envelope {
            msg_type: msg_type_uri(PushNotificationsFCMTypeV1_0::GetDeviceInfo),
            id: p.id.clone(),
            thread_thid: thid_of(&p.decorators.thread),
            device_token: None,
            device_platform: None,
            problem_code: None,
            explain: None,
        },
        PushNotificationsFCM::SetDeviceInfo(p) => Envelope {
            msg_type: msg_type_uri(PushNotificationsFCMTypeV1_0::SetDeviceInfo),
            id: p.id.clone(),
            thread_thid: thid_of(&p.decorators.thread),
            device_token: clone_opt_string(&p.content.device_token),
            device_platform: clone_opt_string(&p.content.device_platform),
            problem_code: None,
            explain: None,
        },
        PushNotificationsFCM::ReportProblem(p) => Envelope {
            msg_type: msg_type_uri(PushNotificationsFCMTypeV1_0::ReportProblem),
            id: p.id.clone(),
            thread_thid: thid_of(&p.decorators.thread),
            device_token: None,
            device_platform: None,
            problem_code: Some(problem_code_as_str(p.content.problem_code).to_owned()),
            explain: Some(p.content.explain.clone()),
        },
    }
}

/// Decode a wire envelope into a typed message, or say exactly why it
/// cannot be: unregistered protocol name, unregistered major version,
/// unregistered kind tag, or content fields that do not match the
/// resolved kind.
pub fn decode(env: &Envelope) -> (r: Result<PushNotificationsFCM, DecodeError>)
    ensures
        r matches Ok(m) ==> spec_decode(env@) == Ok::<PushNotificationsFCMV, DecodeError>(m@),
        r matches Err(e) ==> spec_decode(env@) == Err::<PushNotificationsFCMV, DecodeError>(e),
{
    let parsed = match parse_message_type(env.msg_type.as_str()) {
        Ok(p) => p,
        Err(e) => {
            return Err(e);
        },
    };
    let kind = match kind_from_str(parsed.1.as_str()) {
        Ok(k) => k,
        Err(e) => {
            return Err(e);
        },
    };
    match kind {
        PushNotificationsFCMTypeV1_0::DeviceInfo => {
            match (&env.device_token, &env.device_platform) {
                (Some(token), Some(platform)) => Ok(
                    PushNotificationsFCM::DeviceInfo(
                        MsgParts {
                            id: env.id.clone(),
                            content: DeviceInfoContent {
                                device_token: token.clone(),
                                device_platform: platform.clone(),
                            },
                            decorators: DeviceInfoDecorators {
                                thread: thread_of(&env.thread_thid),
                            },
                        },
                    ),
                ),
                _ => Err(DecodeError::MalformedContent),
            }
        },
        PushNotificationsFCMTypeV1_0::GetDeviceInfo => Ok(
            PushNotificationsFCM::GetDeviceInfo(
                MsgParts {
                    id: env.id.clone(),
                    content: GetDeviceInfoContent {},
                    decorators: GetDeviceInfoDecorators { thread: thread_of(&env.thread_thid) },
                },
            ),
        ),
        PushNotificationsFCMTypeV1_0::SetDeviceInfo => Ok(
            PushNotificationsFCM::SetDeviceInfo(
                MsgParts {
                    id: env.id.clone(),
                    content: SetDeviceInfoContent {
                        device_token: clone_opt_string(&env.device_token),
                        device_platform: clone_opt_string(&env.device_platform),
                    },
                    decorators: SetDeviceInfoDecorators { thread: thread_of(&env.thread_thid) },
                },
            ),
        ),
        PushNotificationsFCMTypeV1_0::ReportProblem => {
            match (&env.problem_code, &env.explain) {
                (Some(code_tag), Some(explain)) => {
                    match problem_code_from_str(code_tag.as_str()) {
                        Some(code) => Ok(
                            PushNotificationsFCM::ReportProblem(
                                MsgParts {
                                    id: env.id.clone(),
                                    content: ProblemReportContent {
                                        problem_code: code,
                                        explain: explain.clone(),
                                    },
                                    decorators: ProblemReportDecorators {
                                        thread: thread_of(&env.thread_thid),
                                    },
                                },
                            ),
                        ),
                        None => Err(DecodeError::MalformedContent),
                    }
                },
                _ => Err(DecodeError::MalformedContent),
            }
        },
    }
}

// ------------------------------------------------------------------- the law

/// Reading the thread decorator back from its wire field restores it.
proof fn lemma_thread_round_trip(t: Option<ThreadV>)
    ensures
        spec_thread_of(spec_thid_of(t)) == t,
{
    match t {
        Some(th) => {
            assert(ThreadV { thid: th.thid } == th);
        },
        None => {},
    }
}

/// Round-trip: decoding the encoding of any typed message yields that
/// message again, every content and decorator field and the id included.
pub proof fn lemma_codec_round_trip(m: PushNotificationsFCMV)
    ensures
        spec_decode(spec_encode(m)) == Ok::<PushNotificationsFCMV, DecodeError>(m),
{
    match m {
        PushNotificationsFCMV::DeviceInfo(p) => {
            lemma_msg_type_uri_round_trip(PushNotificationsFCMTypeV1_0::DeviceInfo);
            lemma_thread_round_trip(p.decorators.thread);
            assert(DeviceInfoContentV {
                device_token: p.content.device_token,
                device_platform: p.content.device_platform,
            } == p.content);
            assert(DeviceInfoDecoratorsV { thread: p.decorators.thread } == p.decorators);
            assert(crate::msg_parts::MsgPartsV {
                id: p.id,
                content: p.content,
                decorators: p.decorators,
            } == p);
        },
        PushNotificationsFCMV::GetDeviceInfo(p) => {
            lemma_msg_type_uri_round_trip(PushNotificationsFCMTypeV1_0::GetDeviceInfo);
            lemma_thread_round_trip(p.decorators.thread);
            assert(GetDeviceInfoContentV {} == p.content);
            assert(GetDeviceInfoDecoratorsV { thread: p.decorators.thread } == p.decorators);
            assert(crate::msg_parts::MsgPartsV {
                id: p.id,
                content: p.content,
                decorators: p.decorators,
            } == p);
        },
        PushNotificationsFCMV::SetDeviceInfo(p) => {
            lemma_msg_type_uri_round_trip(PushNotificationsFCMTypeV1_0::SetDeviceInfo);
            lemma_thread_round_trip(p.decorators.thread);
            assert(SetDeviceInfoContentV {
                device_token: p.content.device_token,
                device_platform: p.content.device_platform,
            } == p.content);
            assert(SetDeviceInfoDecoratorsV { thread: p.decorators.thread } == p.decorators);
            assert(crate::msg_parts::MsgPartsV {
                id: p.id,
                content: p.content,
                decorators: p.decorators,
            } == p);
        },
        PushNotificationsFCMV::ReportProblem(p) => {
            lemma_msg_type_uri_round_trip(PushNotificationsFCMTypeV1_0::ReportProblem);
            lemma_problem_code_round_trip(p.content.problem_code);
            lemma_thread_round_trip(p.decorators.thread);
            assert(ProblemReportContentV {
                problem_code: p.content.problem_code,
                explain: p.content.explain,
            } == p.content);
            assert(ProblemReportDecoratorsV { thread: p.decorators.thread } == p.decorators);
            assert(crate::msg_parts::MsgPartsV {
                id: p.id,
                content: p.content,
                decorators: p.decorators,
            } == p);
        },
    }
}

} // verus!
