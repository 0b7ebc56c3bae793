//! The common shape of a protocol message: an `id` generated at
//! construction, protocol-specific `content`, and cross-protocol
//! `decorators` (currently just an optional thread-correlation id).

use vstd::prelude::*;

verus! {

/// Thread-correlation decorator: links a response back to the request
/// that caused it.
#[derive(Clone, Debug, PartialEq)]
pub struct Thread {
    pub thid: String,
}

pub struct ThreadV {
    pub thid: Seq<char>,
}

impl View for Thread {
    type V = ThreadV;

    open spec fn view(&self) -> ThreadV {
        ThreadV { thid: self.thid@ }
    }
}

impl DeepView for Thread {
    type V = ThreadV;

    open spec fn deep_view(&self) -> ThreadV {
        self@
    }
}

/// A complete message: unique id, content fields, decorator fields.
#[derive(Clone, Debug, PartialEq)]
pub struct MsgParts<C, D> {
    pub id: String,
    pub content: C,
    pub decorators: D,
}

pub struct MsgPartsV<CV, DV> {
    pub id: Seq<char>,
    pub content: CV,
    pub decorators: DV,
}

impl<C: DeepView, D: DeepView> View for MsgParts<C, D> {
    type V = MsgPartsV<<C as DeepView>::V, <D as DeepView>::V>;

    open spec fn view(&self) -> Self::V {
        MsgPartsV {
            id: self.id@,
            content: self.content.deep_view(),
            decorators: self.decorators.deep_view(),
        }
    }
}

impl<C: DeepView, D: DeepView> DeepView for MsgParts<C, D> {
    type V = MsgPartsV<<C as DeepView>::V, <D as DeepView>::V>;

    open spec fn deep_view(&self) -> Self::V {
        self@
    }
}

/// Relies on uuid::Uuid::new_v4, printed in its hyphenated form: a
/// fresh random message id. Nothing is promised of its value; an id is
/// not semantically meaningful beyond thread correlation.
#[verifier::external_body]
pub(crate) fn new_msg_id() -> String {
    uuid::Uuid::new_v4().to_string()
}

/// Decorator set of the messages that carry none.
#[derive(Clone, Debug, PartialEq)]
pub struct NoDecorators {}

pub struct NoDecoratorsV {}

impl View for NoDecorators {
    type V = NoDecoratorsV;

    open spec fn view(&self) -> NoDecoratorsV {
        NoDecoratorsV {}
    }
}

impl DeepView for NoDecorators {
    type V = NoDecoratorsV;

    open spec fn deep_view(&self) -> NoDecoratorsV {
        self@
    }
}

} // verus!
