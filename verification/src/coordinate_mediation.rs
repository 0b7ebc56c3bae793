//! Typed message shapes of the mediation-coordination protocol:
//! mediate-request/grant/deny, keylist-query/keylist and
//! keylist-update/keylist-update-response.

use vstd::prelude::*;

use crate::msg_parts::{MsgParts, MsgPartsV, NoDecorators, NoDecoratorsV, Thread, ThreadV};

verus! {

// ------------------------------------------------------------ mediate-request

#[derive(Clone, Debug, PartialEq)]
pub struct MediateRequestContent {}

pub struct MediateRequestContentV {}

impl View for MediateRequestContent {
    type V = MediateRequestContentV;

    open spec fn view(&self) -> MediateRequestContentV {
        MediateRequestContentV {}
    }
}

impl DeepView for MediateRequestContent {
    type V = MediateRequestContentV;

    open spec fn deep_view(&self) -> MediateRequestContentV {
        self@
    }
}

pub type MediateRequest = MsgParts<MediateRequestContent, NoDecorators>;

// -------------------------------------------------------------- mediate-grant

/// Content of a grant: where the client's contacts should send messages,
/// and through which routing keys.
#[derive(Clone, Debug, PartialEq)]
pub struct MediateGrantContent {
    pub endpoint: String,
    pub routing_keys: Vec<String>,
}

pub struct MediateGrantContentV {
    pub endpoint: Seq<char>,
    pub routing_keys: Seq<Seq<char>>,
}

impl View for MediateGrantContent {
    type V = MediateGrantContentV;

    open spec fn view(&self) -> MediateGrantContentV {
        MediateGrantContentV {
            endpoint: self.endpoint@,
            routing_keys: self.routing_keys.deep_view(),
        }
    }
}

impl DeepView for MediateGrantContent {
    type V = MediateGrantContentV;

    open spec fn deep_view(&self) -> MediateGrantContentV {
        self@
    }
}

#[derive(Clone, Debug, PartialEq)]
pub struct MediateGrantDecorators {
    pub thread: Option<Thread>,
}

pub struct MediateGrantDecoratorsV {
    pub thread: Option<ThreadV>,
}

impl View for MediateGrantDecorators {
    type V = MediateGrantDecoratorsV;

    open spec fn view(&self) -> MediateGrantDecoratorsV {
        MediateGrantDecoratorsV { thread: self.thread.deep_view() }
    }
}

impl DeepView for MediateGrantDecorators {
    type V = MediateGrantDecoratorsV;

    open spec fn deep_view(&self) -> MediateGrantDecoratorsV {
        self@
    }
}

pub type MediateGrant = MsgParts<MediateGrantContent, MediateGrantDecorators>;

// --------------------------------------------------------------- mediate-deny

#[derive(Clone, Debug, PartialEq)]
pub struct MediateDenyContent {}

pub struct MediateDenyContentV {}

impl View for MediateDenyContent {
    type V = MediateDenyContentV;

    open spec fn view(&self) -> MediateDenyContentV {
        MediateDenyContentV {}
    }
}

impl DeepView for MediateDenyContent {
    type V = MediateDenyContentV;

    open spec fn deep_view(&self) -> MediateDenyContentV {
        self@
    }
}

#[derive(Clone, Debug, PartialEq)]
pub struct MediateDenyDecorators {
    pub thread: Option<Thread>,
}

pub struct MediateDenyDecoratorsV {
    pub thread: Option<ThreadV>,
}

impl View for MediateDenyDecorators {
    type V = MediateDenyDecoratorsV;

    open spec fn view(&self) -> MediateDenyDecoratorsV {
        MediateDenyDecoratorsV { thread: self.thread.deep_view() }
    }
}

impl DeepView for MediateDenyDecorators {
    type V = MediateDenyDecoratorsV;

    open spec fn deep_view(&self) -> MediateDenyDecoratorsV {
        self@
    }
}

pub type MediateDeny = MsgParts<MediateDenyContent, MediateDenyDecorators>;

// -------------------------------------------------------------- keylist-query

/// Requested page of the keylist; the handler currently ignores it.
#[derive(Clone, Copy, Debug, PartialEq, Eq, Structural)]
pub struct KeylistQueryPaginate {
    pub limit: u64,
    pub offset: u64,
}

#[derive(Clone, Debug, PartialEq)]
pub struct KeylistQueryContent {
    pub paginate: Option<KeylistQueryPaginate>,
}

pub struct KeylistQueryContentV {
    pub paginate: Option<KeylistQueryPaginate>,
}

impl View for KeylistQueryContent {
    type V = KeylistQueryContentV;

    open spec fn view(&self) -> KeylistQueryContentV {
        KeylistQueryContentV { paginate: self.paginate }
    }
}

impl DeepView for KeylistQueryContent {
    type V = KeylistQueryContentV;

    open spec fn deep_view(&self) -> KeylistQueryContentV {
        self@
    }
}

pub type KeylistQuery = MsgParts<KeylistQueryContent, NoDecorators>;

// -------------------------------------------------------------------- keylist

#[derive(Clone, Debug, PartialEq)]
pub struct KeylistItem {
    pub recipient_key: String,
}

pub struct KeylistItemV {
    pub recipient_key: Seq<char>,
}

impl View for KeylistItem {
    type V = KeylistItemV;

    open spec fn view(&self) -> KeylistItemV {
        KeylistItemV { recipient_key: self.recipient_key@ }
    }
}

impl DeepView for KeylistItem {
    type V = KeylistItemV;

    open spec fn deep_view(&self) -> KeylistItemV {
        self@
    }
}

/// Pagination summary of a keylist answer; never produced here.
#[derive(Clone, Copy, Debug, PartialEq, Eq, Structural)]
pub struct KeylistPagination {
    pub count: u64,
    pub offset: u64,
    pub remaining: u64,
}

#[derive(Clone, Debug, PartialEq)]
pub struct KeylistContent {
    pub keys: Vec<KeylistItem>,
    pub pagination: Option<KeylistPagination>,
}

pub struct KeylistContentV {
    pub keys: Seq<KeylistItemV>,
    pub pagination: Option<KeylistPagination>,
}

impl View for KeylistContent {
    type V = KeylistContentV;

    open spec fn view(&self) -> KeylistContentV {
        KeylistContentV { keys: self.keys.deep_view(), pagination: self.pagination }
    }
}

impl DeepView for KeylistContent {
    type V = KeylistContentV;

    open spec fn deep_view(&self) -> KeylistContentV {
        self@
    }
}

#[derive(Clone, Debug, PartialEq)]
pub struct KeylistDecorators {
    pub thread: Option<Thread>,
}

pub struct KeylistDecoratorsV {
    pub thread: Option<ThreadV>,
}

impl View for KeylistDecorators {
    type V = KeylistDecoratorsV;

    open spec fn view(&self) -> KeylistDecoratorsV {
        KeylistDecoratorsV { thread: self.thread.deep_view() }
    }
}

impl DeepView for KeylistDecorators {
    type V = KeylistDecoratorsV;

    open spec fn deep_view(&self) -> KeylistDecoratorsV {
        self@
    }
}

pub type Keylist = MsgParts<KeylistContent, KeylistDecorators>;

// ------------------------------------------------------------- keylist-update

/// What a keylist-update item asks for.
#[derive(Clone, Copy, Debug, PartialEq, Eq, Structural)]
pub enum KeylistUpdateItemAction {
    Add,
    Remove,
}

#[derive(Clone, Debug, PartialEq)]
pub struct KeylistUpdateItem {
    pub recipient_key: String,
    pub action: KeylistUpdateItemAction,
}

pub struct KeylistUpdateItemV {
    pub recipient_key: Seq<char>,
    pub action: KeylistUpdateItemAction,
}

impl View for KeylistUpdateItem {
    type V = KeylistUpdateItemV;

    open spec fn view(&self) -> KeylistUpdateItemV {
        KeylistUpdateItemV { recipient_key: self.recipient_key@, action: self.action }
    }
}

impl DeepView for KeylistUpdateItem {
    type V = KeylistUpdateItemV;

    open spec fn deep_view(&self) -> KeylistUpdateItemV {
        self@
    }
}

#[derive(Clone, Debug, PartialEq)]
pub struct KeylistUpdateContent {
    pub updates: Vec<KeylistUpdateItem>,
}

pub struct KeylistUpdateContentV {
    pub updates: Seq<KeylistUpdateItemV>,
}

impl View for KeylistUpdateContent {
    type V = KeylistUpdateContentV;

    open spec fn view(&self) -> KeylistUpdateContentV {
        KeylistUpdateContentV { updates: self.updates.deep_view() }
    }
}

impl DeepView for KeylistUpdateContent {
    type V = KeylistUpdateContentV;

    open spec fn deep_view(&self) -> KeylistUpdateContentV {
        self@
    }
}

pub type KeylistUpdate = MsgParts<KeylistUpdateContent, NoDecorators>;

// ---------------------------------------------------- keylist-update-response

/// Per-item outcome reported back to the client.
#[derive(Clone, Copy, Debug, PartialEq, Eq, Structural)]
pub enum KeylistUpdateItemResult {
    Success,
    ServerError,
}

#[derive(Clone, Debug, PartialEq)]
pub struct KeylistUpdateResponseItem {
    pub recipient_key: String,
    pub action: KeylistUpdateItemAction,
    pub result: KeylistUpdateItemResult,
}

pub struct KeylistUpdateResponseItemV {
    pub recipient_key: Seq<char>,
    pub action: KeylistUpdateItemAction,
    pub result: KeylistUpdateItemResult,
}

impl View for KeylistUpdateResponseItem {
    type V = KeylistUpdateResponseItemV;

    open spec fn view(&self) -> KeylistUpdateResponseItemV {
        KeylistUpdateResponseItemV {
            recipient_key: self.recipient_key@,
            action: self.action,
            result: self.result,
        }
    }
}

impl DeepView for KeylistUpdateResponseItem {
    type V = KeylistUpdateResponseItemV;

    open spec fn deep_view(&self) -> KeylistUpdateResponseItemV {
        self@
    }
}

#[derive(Clone, Debug, PartialEq)]
pub struct KeylistUpdateResponseContent {
    pub updated: Vec<KeylistUpdateResponseItem>,
}

pub struct KeylistUpdateResponseContentV {
    pub updated: Seq<KeylistUpdateResponseItemV>,
}

impl View for KeylistUpdateResponseContent {
    type V = KeylistUpdateResponseContentV;

    open spec fn view(&self) -> KeylistUpdateResponseContentV {
        KeylistUpdateResponseContentV { updated: self.updated.deep_view() }
    }
}

impl DeepView for KeylistUpdateResponseContent {
    type V = KeylistUpdateResponseContentV;

    open spec fn deep_view(&self) -> KeylistUpdateResponseContentV {
        self@
    }
}

#[derive(Clone, Debug, PartialEq)]
pub struct KeylistUpdateResponseDecorators {
    pub thread: Option<Thread>,
}

pub struct KeylistUpdateResponseDecoratorsV {
    pub thread: Option<ThreadV>,
}

impl View for KeylistUpdateResponseDecorators {
    type V = KeylistUpdateResponseDecoratorsV;

    open spec fn view(&self) -> KeylistUpdateResponseDecoratorsV {
        KeylistUpdateResponseDecoratorsV { thread: self.thread.deep_view() }
    }
}

impl DeepView for KeylistUpdateResponseDecorators {
    type V = KeylistUpdateResponseDecoratorsV;

    open spec fn deep_view(&self) -> KeylistUpdateResponseDecoratorsV {
        self@
    }
}

pub type KeylistUpdateResponse = MsgParts<KeylistUpdateResponseContent, KeylistUpdateResponseDecorators>;

// ------------------------------------------------------------------- the enum

/// Any message of the mediation-coordination protocol.
#[derive(Clone, Debug, PartialEq)]
pub enum CoordinateMediation {
    MediateRequest(MediateRequest),
    MediateGrant(MediateGrant),
    MediateDeny(MediateDeny),
    KeylistQuery(KeylistQuery),
    Keylist(Keylist),
    KeylistUpdate(KeylistUpdate),
    KeylistUpdateResponse(KeylistUpdateResponse),
}

pub enum CoordinateMediationV {
    MediateRequest(MsgPartsV<MediateRequestContentV, NoDecoratorsV>),
    MediateGrant(MsgPartsV<MediateGrantContentV, MediateGrantDecoratorsV>),
    MediateDeny(MsgPartsV<MediateDenyContentV, MediateDenyDecoratorsV>),
    KeylistQuery(MsgPartsV<KeylistQueryContentV, NoDecoratorsV>),
    Keylist(MsgPartsV<KeylistContentV, KeylistDecoratorsV>),
    KeylistUpdate(MsgPartsV<KeylistUpdateContentV, NoDecoratorsV>),
    KeylistUpdateResponse(
        MsgPartsV<KeylistUpdateResponseContentV, KeylistUpdateResponseDecoratorsV>,
    ),
}

impl View for CoordinateMediation {
    type V = CoordinateMediationV;

    open spec fn view(&self) -> CoordinateMediationV {
        match self {
            CoordinateMediation::MediateRequest(m) => CoordinateMediationV::MediateRequest(m@),
            CoordinateMediation::MediateGrant(m) => CoordinateMediationV::MediateGrant(m@),
            CoordinateMediation::MediateDeny(m) => CoordinateMediationV::MediateDeny(m@),
            CoordinateMediation::KeylistQuery(m) => CoordinateMediationV::KeylistQuery(m@),
            CoordinateMediation::Keylist(m) => CoordinateMediationV::Keylist(m@),
            CoordinateMediation::KeylistUpdate(m) => CoordinateMediationV::KeylistUpdate(m@),
            CoordinateMediation::KeylistUpdateResponse(m) => {
                CoordinateMediationV::KeylistUpdateResponse(m@)
            },
        }
    }
}

impl DeepView for CoordinateMediation {
    type V = CoordinateMediationV;

    open spec fn deep_view(&self) -> CoordinateMediationV {
        self@
    }
}

} // verus!
