//! Typed message shapes of the push-notification device-info protocol:
//! `device-info`, `get-device-info`, `set-device-info` and `report-problem`.

use vstd::prelude::*;

use crate::msg_parts::{MsgParts, MsgPartsV, Thread, ThreadV};

verus! {

// ---------------------------------------------------------------- device-info

/// Content of a `device-info` message: the stored token and platform,
/// empty strings when nothing is stored.
#[derive(Clone, Debug, PartialEq)]
pub struct DeviceInfoContent {
    pub device_token: String,
    pub device_platform: String,
}

pub struct DeviceInfoContentV {
    pub device_token: Seq<char>,
    pub device_platform: Seq<char>,
}

impl View for DeviceInfoContent {
    type V = DeviceInfoContentV;

    open spec fn view(&self) -> DeviceInfoContentV {
        DeviceInfoContentV {
            device_token: self.device_token@,
            device_platform: self.device_platform@,
        }
    }
}

impl DeepView for DeviceInfoContent {
    type V = DeviceInfoContentV;

    open spec fn deep_view(&self) -> DeviceInfoContentV {
        self@
    }
}

#[derive(Clone, Debug, PartialEq)]
pub struct DeviceInfoDecorators {
    pub thread: Option<Thread>,
}

pub struct DeviceInfoDecoratorsV {
    pub thread: Option<ThreadV>,
}

impl View for DeviceInfoDecorators {
    type V = DeviceInfoDecoratorsV;

    open spec fn view(&self) -> DeviceInfoDecoratorsV {
        DeviceInfoDecoratorsV { thread: self.thread.deep_view() }
    }
}

impl DeepView for DeviceInfoDecorators {
    type V = DeviceInfoDecoratorsV;

    open spec fn deep_view(&self) -> DeviceInfoDecoratorsV {
        self@
    }
}

pub type DeviceInfo = MsgParts<DeviceInfoContent, DeviceInfoDecorators>;

// ------------------------------------------------------------ get-device-info

/// Content of a `get-device-info` request: it carries no fields.
#[derive(Clone, Debug, PartialEq)]
pub struct GetDeviceInfoContent {}

pub struct GetDeviceInfoContentV {}

impl View for GetDeviceInfoContent {
    type V = GetDeviceInfoContentV;

    open spec fn view(&self) -> GetDeviceInfoContentV {
        GetDeviceInfoContentV {}
    }
}

impl DeepView for GetDeviceInfoContent {
    type V = GetDeviceInfoContentV;

    open spec fn deep_view(&self) -> GetDeviceInfoContentV {
        self@
    }
}

#[derive(Clone, Debug, PartialEq)]
pub struct GetDeviceInfoDecorators {
    pub thread: Option<Thread>,
}

pub struct GetDeviceInfoDecoratorsV {
    pub thread: Option<ThreadV>,
}

impl View for GetDeviceInfoDecorators {
    type V = GetDeviceInfoDecoratorsV;

    open spec fn view(&self) -> GetDeviceInfoDecoratorsV {
        GetDeviceInfoDecoratorsV { thread: self.thread.deep_view() }
    }
}

impl DeepView for GetDeviceInfoDecorators {
    type V = GetDeviceInfoDecoratorsV;

    open spec fn deep_view(&self) -> GetDeviceInfoDecoratorsV {
        self@
    }
}

pub type GetDeviceInfo = MsgParts<GetDeviceInfoContent, GetDeviceInfoDecorators>;

// ------------------------------------------------------------ set-device-info

/// Content of a `set-device-info` request. Token and platform must be
/// given or omitted together; both absent clears the stored record.
#[derive(Clone, Debug, PartialEq)]
pub struct SetDeviceInfoContent {
    pub device_token: Option<String>,
    pub device_platform: Option<String>,
}

pub struct SetDeviceInfoContentV {
    pub device_token: Option<Seq<char>>,
    pub device_platform: Option<Seq<char>>,
}

impl View for SetDeviceInfoContent {
    type V = SetDeviceInfoContentV;

    open spec fn view(&self) -> SetDeviceInfoContentV {
        SetDeviceInfoContentV {
            device_token: self.device_token.deep_view(),
            device_platform: self.device_platform.deep_view(),
        }
    }
}

impl DeepView for SetDeviceInfoContent {
    type V = SetDeviceInfoContentV;

    open spec fn deep_view(&self) -> SetDeviceInfoContentV {
        self@
    }
}

#[derive(Clone, Debug, PartialEq)]
pub struct SetDeviceInfoDecorators {
    pub thread: Option<Thread>,
}

pub struct SetDeviceInfoDecoratorsV {
    pub thread: Option<ThreadV>,
}

impl View for SetDeviceInfoDecorators {
    type V = SetDeviceInfoDecoratorsV;

    open spec fn view(&self) -> SetDeviceInfoDecoratorsV {
        SetDeviceInfoDecoratorsV { thread: self.thread.deep_view() }
    }
}

impl DeepView for SetDeviceInfoDecorators {
    type V = SetDeviceInfoDecoratorsV;

    open spec fn deep_view(&self) -> SetDeviceInfoDecoratorsV {
        self@
    }
}

pub type SetDeviceInfo = MsgParts<SetDeviceInfoContent, SetDeviceInfoDecorators>;

// ------------------------------------------------------------- report-problem

/// Problem codes of the in-band `report-problem` answer.
#[derive(Clone, Copy, Debug, PartialEq, Eq, Structural)]
pub enum ProblemCode {
    RequestNotAccepted,
    RequestProcessingError,
    ResponseProcessingError,
}

#[derive(Clone, Debug, PartialEq)]
pub struct ProblemReportContent {
    pub problem_code: ProblemCode,
    pub explain: String,
}

pub struct ProblemReportContentV {
    pub problem_code: ProblemCode,
    pub explain: Seq<char>,
}

impl View for ProblemReportContent {
    type V = ProblemReportContentV;

    open spec fn view(&self) -> ProblemReportContentV {
        ProblemReportContentV { problem_code: self.problem_code, explain: self.explain@ }
    }
}

impl DeepView for ProblemReportContent {
    type V = ProblemReportContentV;

    open spec fn deep_view(&self) -> ProblemReportContentV {
        self@
    }
}

#[derive(Clone, Debug, PartialEq)]
pub struct ProblemReportDecorators {
    pub thread: Option<Thread>,
}

pub struct ProblemReportDecoratorsV {
    pub thread: Option<ThreadV>,
}

impl View for ProblemReportDecorators {
    type V = ProblemReportDecoratorsV;

    open spec fn view(&self) -> ProblemReportDecoratorsV {
        ProblemReportDecoratorsV { thread: self.thread.deep_view() }
    }
}

impl DeepView for ProblemReportDecorators {
    type V = ProblemReportDecoratorsV;

    open spec fn deep_view(&self) -> ProblemReportDecoratorsV {
        self@
    }
}

pub type ProblemReport = MsgParts<ProblemReportContent, ProblemReportDecorators>;

// ------------------------------------------------------------------- the enum

/// Any message of the push-notification protocol.
#[derive(Clone, Debug, PartialEq)]
pub enum PushNotificationsFCM {
    DeviceInfo(DeviceInfo),
    GetDeviceInfo(GetDeviceInfo),
    SetDeviceInfo(SetDeviceInfo),
    ReportProblem(ProblemReport),
}

pub enum PushNotificationsFCMV {
    DeviceInfo(MsgPartsV<DeviceInfoContentV, DeviceInfoDecoratorsV>),
    GetDeviceInfo(MsgPartsV<GetDeviceInfoContentV, GetDeviceInfoDecoratorsV>),
    SetDeviceInfo(MsgPartsV<SetDeviceInfoContentV, SetDeviceInfoDecoratorsV>),
    ReportProblem(MsgPartsV<ProblemReportContentV, ProblemReportDecoratorsV>),
}

impl View for PushNotificationsFCM {
    type V = PushNotificationsFCMV;

    open spec fn view(&self) -> PushNotificationsFCMV {
        match self {
            PushNotificationsFCM::DeviceInfo(m) => PushNotificationsFCMV::DeviceInfo(m@),
            PushNotificationsFCM::GetDeviceInfo(m) => PushNotificationsFCMV::GetDeviceInfo(m@),
            PushNotificationsFCM::SetDeviceInfo(m) => PushNotificationsFCMV::SetDeviceInfo(m@),
            PushNotificationsFCM::ReportProblem(m) => PushNotificationsFCMV::ReportProblem(m@),
        }
    }
}

impl DeepView for PushNotificationsFCM {
    type V = PushNotificationsFCMV;

    open spec fn deep_view(&self) -> PushNotificationsFCMV {
        self@
    }
}

} // verus!
