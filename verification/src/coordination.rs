//! Mediation-coordination handlers: mediate-request into grant or deny,
//! keylist-query into keylist, keylist-update into its response, and an
//! explicit not-implemented error for every other coordination kind —
//! the transport layer decides policy instead of this core aborting.

use vstd::prelude::*;

use crate::coordinate_mediation::{
    CoordinateMediation, Keylist, KeylistContent, KeylistDecorators, KeylistItem,
    KeylistQueryContent, KeylistUpdate, KeylistUpdateItemAction, KeylistUpdateItemResult,
    KeylistUpdateItemV, KeylistUpdateResponse, KeylistUpdateResponseContent,
    KeylistUpdateResponseDecorators, KeylistUpdateResponseItem, MediateDenyContent,
    MediateDenyDecorators, MediateGrantContent, MediateGrantDecorators,
};
use crate::msg_parts::{MsgParts, Thread, new_msg_id};
use crate::normalize::{normalize, spec_normalize};
use crate::persistence::{MediatorPersistence, StorageError, StorageEvent, StorageOp};

verus! {

/// Why a coordination message could not be answered in-band; the
/// transport layer decides what to do with these.
#[derive(Clone, Copy, Debug, PartialEq, Eq, Structural)]
pub enum HandlerError {
    /// A mediate-request must go through its privileged entry point,
    /// not the generic handler of preregistered clients.
    UnexpectedMediateRequest,
    /// No handler exists for this coordination kind.
    NotImplemented,
    /// The keylist could not be read from persistence.
    Storage(StorageError),
}

/// The storage call a keylist-update item asks for: add or remove the
/// item's key, normalized to its canonical base58 form, for the
/// caller's account.
pub open spec fn spec_update_op(auth: Seq<char>, item: KeylistUpdateItemV) -> StorageOp {
    match item.action {
        KeylistUpdateItemAction::Add => StorageOp::AddRecipient {
            auth,
            key: spec_normalize(item.recipient_key),
        },
        KeylistUpdateItemAction::Remove => StorageOp::RemoveRecipient {
            auth,
            key: spec_normalize(item.recipient_key),
        },
    }
}

/// What answering a keylist-update means: one storage call per item in
/// request order, on the normalized key; a response item per request
/// item, in the same order, echoing the original key and action, whose
/// result reflects exactly that item's storage outcome; and the
/// response thread id copied from the request id.
pub open spec fn spec_keylist_update_response<P: MediatorPersistence>(
    pre: P,
    post: P,
    auth: Seq<char>,
    update: KeylistUpdate,
    r: CoordinateMediation,
) -> bool {
    &&& r matches CoordinateMediation::KeylistUpdateResponse(resp)
    &&& {
        let items = update.content.updates@;
        let resp = r->KeylistUpdateResponse_0;
        let out = resp.content.updated@;
        &&& out.len() == items.len()
        &&& forall|i: int| 0 <= i < items.len() ==> {
            let o = #[trigger] out[i];
            &&& o.recipient_key@ == items[i].recipient_key@
            &&& o.action == items[i].action
            &&& (o.result is Success || o.result is ServerError)
        }
        &&& post.log().len() == pre.log().len() + items.len()
        &&& post.log().take(pre.log().len() as int) == pre.log()
        &&& forall|i: int| 0 <= i < items.len() ==> post.log()[pre.log().len() + i]
            == StorageEvent {
                op: spec_update_op(auth, (#[trigger] items[i])@),
                ok: out[i].result is Success,
            }
        &&& resp.decorators.thread matches Some(t) && t.thid@ == update.id@
    }
}

/// Process a keylist-update: per-item processing is independent, one
/// item's failure does not abort its siblings, and the response
/// enumerates the per-item outcomes in request order.
pub fn handle_keylist_update<P: MediatorPersistence>(
    storage: &mut P,
    keylist_update_data: KeylistUpdate,
    auth_pubkey: &str,
) -> (r: CoordinateMediation)
    ensures
        spec_keylist_update_response(
            *old(storage),
            *final(storage),
            auth_pubkey@,
            keylist_update_data,
            r,
        ),
{
    let ghost pre_log = storage.log();
    let updates = &keylist_update_data.content.updates;
    let n = updates.len();
    let mut updated: Vec<KeylistUpdateResponseItem> = Vec::new();
    let mut idx: usize = 0;
    while idx < n
        invariant
            idx <= n,
            n == updates@.len(),
            updated@.len() == idx,
            forall|i: int| 0 <= i < idx ==> {
                let o = #[trigger] updated@[i];
                &&& o.recipient_key@ == updates@[i].recipient_key@
                &&& o.action == updates@[i].action
                &&& (o.result is Success || o.result is ServerError)
            },
            storage.log().len() == pre_log.len() + idx,
            storage.log().take(pre_log.len() as int) == pre_log,
            forall|i: int| 0 <= i < idx ==> storage.log()[pre_log.len() + i] == (StorageEvent {
                op: spec_update_op(auth_pubkey@, (#[trigger] updates@[i])@),
                ok: updated@[i].result is Success,
            }),
        decreases n - idx,
    {
        let ghost log_before = storage.log();
        let update_item = &updates[idx];
        let key_b58 = normalize(update_item.recipient_key.as_str());
        let result = match update_item.action {
            KeylistUpdateItemAction::Add => storage.add_recipient(auth_pubkey, key_b58.as_str()),
            KeylistUpdateItemAction::Remove => {
                storage.remove_recipient(auth_pubkey, key_b58.as_str())
            },
        };
        let update_item_result = match result {
            Ok(_) => KeylistUpdateItemResult::Success,
            Err(_msg) => KeylistUpdateItemResult::ServerError,
        };
        updated.push(
            KeylistUpdateResponseItem {
                recipient_key: update_item.recipient_key.clone(),
                action: update_item.action,
                result: update_item_result,
            },
        );
        proof {
            assert(storage.log() == log_before.push(
                StorageEvent {
                    op: spec_update_op(auth_pubkey@, updates@[idx as int]@),
                    ok: update_item_result is Success,
                },
            ));
            assert(storage.log().take(pre_log.len() as int) =~= pre_log);
        }
        idx += 1;
    }
    let decorators = KeylistUpdateResponseDecorators {
        thread: Some(Thread { thid: keylist_update_data.id.clone() }),
    };
    let keylist_update_response: KeylistUpdateResponse = MsgParts {
        id: new_msg_id(),
        content: KeylistUpdateResponseContent { updated },
        decorators,
    };
    CoordinateMediation::KeylistUpdateResponse(keylist_update_response)
}

/// What answering a keylist-query means: for an existing account, a
/// keylist carrying one item per stored key in storage order and no
/// pagination; otherwise the storage error, passed to the transport
/// layer; either way one listing is logged.
pub open spec fn spec_keylist_query_result<P: MediatorPersistence>(
    pre: P,
    post: P,
    auth: Seq<char>,
    r: Result<CoordinateMediation, HandlerError>,
) -> bool {
    &&& post.log() == pre.log().push(
        StorageEvent {
            op: StorageOp::ListRecipientKeys { auth },
            ok: pre.accounts().contains(auth),
        },
    )
    &&& pre.accounts().contains(auth) ==> {
        &&& r matches Ok(resp)
        &&& resp matches CoordinateMediation::Keylist(k)
        &&& k.content.keys@.len() == pre.recipient_keys(auth).len()
        &&& forall|i: int| 0 <= i < k.content.keys@.len() ==> (#[trigger] k.content.keys@[i]).recipient_key@
            == pre.recipient_keys(auth)[i]
        &&& k.content.pagination is None
        &&& k.decorators.thread is None
    }
    &&& !pre.accounts().contains(auth) ==> r matches Err(HandlerError::Storage(_))
}

/// Answer a keylist-query with the keys routed to the caller. The
/// query's own pagination wishes are not implemented and ignored.
pub fn handle_keylist_query<P: MediatorPersistence>(
    storage: &mut P,
    _keylist_query_data: KeylistQueryContent,
    auth_pubkey: &str,
) -> (r: Result<CoordinateMediation, HandlerError>)
    ensures
        spec_keylist_query_result(*old(storage), *final(storage), auth_pubkey@, r),
{
    let recipient_keys = match storage.list_recipient_keys(auth_pubkey) {
        Ok(keys) => keys,
        Err(err) => {
            return Err(HandlerError::Storage(err));
        },
    };
    let n = recipient_keys.len();
    let mut keylist_items: Vec<KeylistItem> = Vec::new();
    let mut i: usize = 0;
    while i < n
        invariant
            i <= n,
            n == recipient_keys@.len(),
            keylist_items@.len() == i,
            forall|j: int| 0 <= j < i ==> (#[trigger] keylist_items@[j]).recipient_key@
                == crate::strings::seq_views(recipient_keys@)[j],
        decreases n - i,
    {
        let recipient_key = recipient_keys[i].clone();
        keylist_items.push(KeylistItem { recipient_key });
        i += 1;
    }
    let keylist: Keylist = MsgParts {
        id: new_msg_id(),
        content: KeylistContent { keys: keylist_items, pagination: None },
        decorators: KeylistDecorators { thread: None },
    };
    Ok(CoordinateMediation::Keylist(keylist))
}

/// What answering a mediate-request means: one account creation is
/// attempted for the caller; success yields a grant carrying exactly
/// the caller-supplied content, failure a deny with empty content.
pub open spec fn spec_mediate_request_response<P: MediatorPersistence>(
    pre: P,
    post: P,
    auth: Seq<char>,
    signing_key: Seq<char>,
    did_doc: Seq<char>,
    grant_content: MediateGrantContent,
    r: CoordinateMediation,
) -> bool {
    &&& post.log() == pre.log().push(
        StorageEvent {
            op: StorageOp::CreateAccount { auth, signing_key, did_doc },
            ok: r is MediateGrant,
        },
    )
    &&& r is MediateGrant || r is MediateDeny
    &&& r matches CoordinateMediation::MediateGrant(g) ==> g.content@ == grant_content@
        && g.decorators.thread is None
    &&& r matches CoordinateMediation::MediateDeny(d) ==> d.decorators.thread is None
    &&& r is MediateGrant ==> post.accounts() == pre.accounts().insert(auth)
    &&& pre.accounts().contains(auth) ==> r is MediateDeny
}

/// Grant or deny mediation. Granting is privileged: the transport layer
/// supplies the signing key, the DID document and the grant content, so
/// this entry point stands apart from the generic coordination handler.
pub fn handle_mediate_request<P: MediatorPersistence>(
    storage: &mut P,
    auth_pubkey: &str,
    did_doc: &str,
    our_signing_key: &str,
    grant_content: MediateGrantContent,
) -> (r: CoordinateMediation)
    ensures
        spec_mediate_request_response(
            *old(storage),
            *final(storage),
            auth_pubkey@,
            our_signing_key@,
            did_doc@,
            grant_content,
            r,
        ),
{
    match storage.create_account(auth_pubkey, our_signing_key, did_doc) {
        Ok(()) => {
            let mediate_grant_msg = MsgParts {
                id: new_msg_id(),
                content: grant_content,
                decorators: MediateGrantDecorators { thread: None },
            };
            CoordinateMediation::MediateGrant(mediate_grant_msg)
        },
        Err(_msg) => {
            let mediate_deny_msg = MsgParts {
                id: new_msg_id(),
                content: MediateDenyContent {},
                decorators: MediateDenyDecorators { thread: None },
            };
            CoordinateMediation::MediateDeny(mediate_deny_msg)
        },
    }
}

/// The explicit answer for a coordination kind this mediator does not
/// handle; surfaced to the transport layer instead of being dropped.
pub fn handle_unimplemented() -> (r: Result<CoordinateMediation, HandlerError>)
    ensures
        r matches Err(e) && e == HandlerError::NotImplemented,
{
    Err(HandlerError::NotImplemented)
}

/// Dispatch one decoded coordination message from a preregistered,
/// authenticated client. A mediate-request is refused here — it needs
/// the privileged entry point — and the kinds without handlers are
/// answered with an explicit not-implemented error.
pub fn handle_coord_authenticated<P: MediatorPersistence>(
    storage: &mut P,
    message: CoordinateMediation,
    auth_pubkey: &str,
) -> (r: Result<CoordinateMediation, HandlerError>)
    ensures
        message is MediateRequest ==> (r matches Err(e) && e
            == HandlerError::UnexpectedMediateRequest && final(storage).log() == old(
            storage,
        ).log()),
        message matches CoordinateMediation::KeylistUpdate(u) ==> (r matches Ok(resp)
            && spec_keylist_update_response(
            *old(storage),
            *final(storage),
            auth_pubkey@,
            u,
            resp,
        )),
        message matches CoordinateMediation::KeylistQuery(q) ==> spec_keylist_query_result(
            *old(storage),
            *final(storage),
            auth_pubkey@,
            r,
        ),
        message is MediateGrant || message is MediateDeny || message is Keylist || message
            is KeylistUpdateResponse ==> (r matches Err(e) && e == HandlerError::NotImplemented
            && final(storage).log() == old(storage).log()),
{
    match message {
        CoordinateMediation::MediateRequest(_mediate_request) => {
            Err(HandlerError::UnexpectedMediateRequest)
        },
        CoordinateMediation::KeylistUpdate(keylist_update) => {
            Ok(handle_keylist_update(storage, keylist_update, auth_pubkey))
        },
        CoordinateMediation::KeylistQuery(keylist_query) => {
            handle_keylist_query(storage, keylist_query.content, auth_pubkey)
        },
        _ => handle_unimplemented(),
    }
}

} // verus!
