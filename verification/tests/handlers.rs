use mediator::coordinate_mediation::{
    CoordinateMediation, KeylistQueryContent, KeylistUpdateContent, KeylistUpdateItem,
    KeylistUpdateItemAction, KeylistUpdateItemResult, MediateGrantContent,
};
use mediator::coordination::{
    handle_coord_authenticated, handle_keylist_query, handle_keylist_update,
    handle_mediate_request, handle_unimplemented, HandlerError,
};
use mediator::device_info::{handle_device_info, handle_push_notification_fcm_protocol};
use mediator::msg_parts::{MsgParts, NoDecorators};
use mediator::persistence::{MediatorPersistence, MemoryPersistence, StorageError};
use mediator::push_notifications_fcm::{
    DeviceInfoContent, DeviceInfoDecorators, GetDeviceInfoContent, GetDeviceInfoDecorators,
    ProblemCode, PushNotificationsFCM, SetDeviceInfoContent, SetDeviceInfoDecorators,
};

const AUTH: &str = "auth-pubkey-1";

fn grant_content() -> MediateGrantContent {
    MediateGrantContent {
        endpoint: "https://mediator.example/didcomm".to_string(),
        routing_keys: vec!["routing-key-1".to_string()],
    }
}

fn storage_with_account() -> MemoryPersistence {
    let mut storage = MemoryPersistence::new();
    storage
        .create_account(AUTH, "our-signing-key", "did-doc")
        .unwrap();
    storage
}

fn set_device_info_msg(
    token: Option<&str>,
    platform: Option<&str>,
) -> PushNotificationsFCM {
    PushNotificationsFCM::SetDeviceInfo(MsgParts {
        id: "set-1".to_string(),
        content: SetDeviceInfoContent {
            device_token: token.map(str::to_string),
            device_platform: platform.map(str::to_string),
        },
        decorators: SetDeviceInfoDecorators { thread: None },
    })
}

fn get_device_info_msg() -> PushNotificationsFCM {
    PushNotificationsFCM::GetDeviceInfo(MsgParts {
        id: "get-1".to_string(),
        content: GetDeviceInfoContent {},
        decorators: GetDeviceInfoDecorators { thread: None },
    })
}

fn expect_problem(r: &PushNotificationsFCM, code: ProblemCode, explain: &str) {
    match r {
        PushNotificationsFCM::ReportProblem(p) => {
            assert_eq!(p.content.problem_code, code);
            assert_eq!(p.content.explain, explain);
        }
        other => panic!("expected a report-problem answer, got {other:?}"),
    }
}

// ------------------------------------------------------------ mediate-request

#[test]
fn mediate_request_grants_with_caller_content() {
    let mut storage = MemoryPersistence::new();
    let r = handle_mediate_request(&mut storage, AUTH, "did-doc", "our-signing-key", grant_content());
    match r {
        CoordinateMediation::MediateGrant(g) => {
            assert_eq!(g.content, grant_content());
            assert_eq!(g.decorators.thread, None);
        }
        other => panic!("expected a grant, got {other:?}"),
    }
}

#[test]
fn mediate_request_denies_when_creation_fails() {
    let mut storage = storage_with_account();
    // the account exists already, so creation fails and mediation is denied
    let r = handle_mediate_request(&mut storage, AUTH, "did-doc", "our-signing-key", grant_content());
    assert!(matches!(r, CoordinateMediation::MediateDeny(_)));
}

// -------------------------------------------------------------- keylist-query

#[test]
fn keylist_query_lists_stored_keys_in_order() {
    let mut storage = storage_with_account();
    storage.add_recipient(AUTH, "key-b").unwrap();
    storage.add_recipient(AUTH, "key-a").unwrap();
    let r = handle_keylist_query(&mut storage, KeylistQueryContent { paginate: None }, AUTH)
        .unwrap();
    match r {
        CoordinateMediation::Keylist(k) => {
            let keys: Vec<&str> = k
                .content
                .keys
                .iter()
                .map(|item| item.recipient_key.as_str())
                .collect();
            assert_eq!(keys, ["key-b", "key-a"]);
            assert_eq!(k.content.pagination, None);
        }
        other => panic!("expected a keylist, got {other:?}"),
    }
}

#[test]
fn keylist_query_for_unknown_account_is_a_storage_error() {
    let mut storage = MemoryPersistence::new();
    let r = handle_keylist_query(&mut storage, KeylistQueryContent { paginate: None }, AUTH);
    assert_eq!(r, Err(HandlerError::Storage(StorageError::NotFound)));
}

// ------------------------------------------------------------- keylist-update

fn update_msg(items: Vec<(&str, KeylistUpdateItemAction)>) -> MsgParts<KeylistUpdateContent, NoDecorators> {
    MsgParts {
        id: "update-req-1".to_string(),
        content: KeylistUpdateContent {
            updates: items
                .into_iter()
                .map(|(key, action)| KeylistUpdateItem {
                    recipient_key: key.to_string(),
                    action,
                })
                .collect(),
        },
        decorators: NoDecorators {},
    }
}

#[test]
fn keylist_update_keeps_request_order_and_per_item_outcomes() {
    let mut storage = storage_with_account();
    let update = update_msg(vec![
        ("key-1", KeylistUpdateItemAction::Add),
        ("key-2", KeylistUpdateItemAction::Remove), // not stored: this item alone fails
        ("key-3", KeylistUpdateItemAction::Add),
    ]);
    let r = handle_keylist_update(&mut storage, update, AUTH);
    match r {
        CoordinateMediation::KeylistUpdateResponse(resp) => {
            let items = &resp.content.updated;
            assert_eq!(items.len(), 3);
            assert_eq!(items[0].recipient_key, "key-1");
            assert_eq!(items[0].action, KeylistUpdateItemAction::Add);
            assert_eq!(items[0].result, KeylistUpdateItemResult::Success);
            assert_eq!(items[1].recipient_key, "key-2");
            assert_eq!(items[1].action, KeylistUpdateItemAction::Remove);
            assert_eq!(items[1].result, KeylistUpdateItemResult::ServerError);
            assert_eq!(items[2].recipient_key, "key-3");
            assert_eq!(items[2].action, KeylistUpdateItemAction::Add);
            assert_eq!(items[2].result, KeylistUpdateItemResult::Success);
            // thread id copied from the request id
            assert_eq!(
                resp.decorators.thread.as_ref().map(|t| t.thid.as_str()),
                Some("update-req-1")
            );
        }
        other => panic!("expected a keylist-update response, got {other:?}"),
    }
}

#[test]
fn keylist_update_normalizes_did_key_forms_before_storage() {
    let mut storage = storage_with_account();
    let raw = [5u8; 32];
    let mut prefixed = vec![0xedu8, 0x01];
    prefixed.extend_from_slice(&raw);
    let fingerprint = multibase::encode(multibase::Base::Base58Btc, &prefixed);
    let did_key = format!("did:key:{fingerprint}");
    let base58 = bs58::encode(&raw).into_string();

    let r = handle_keylist_update(
        &mut storage,
        update_msg(vec![(did_key.as_str(), KeylistUpdateItemAction::Add)]),
        AUTH,
    );
    match r {
        CoordinateMediation::KeylistUpdateResponse(resp) => {
            // the response echoes the original token, not the stored form
            assert_eq!(resp.content.updated[0].recipient_key, did_key);
            assert_eq!(resp.content.updated[0].result, KeylistUpdateItemResult::Success);
        }
        other => panic!("expected a keylist-update response, got {other:?}"),
    }
    // the stored key is the canonical base58 form, so removing by the
    // equivalent DID-key form succeeds
    assert_eq!(storage.list_recipient_keys(AUTH).unwrap(), [base58.clone()]);
    let r = handle_keylist_update(
        &mut storage,
        update_msg(vec![(did_key.as_str(), KeylistUpdateItemAction::Remove)]),
        AUTH,
    );
    match r {
        CoordinateMediation::KeylistUpdateResponse(resp) => {
            assert_eq!(resp.content.updated[0].result, KeylistUpdateItemResult::Success);
        }
        other => panic!("expected a keylist-update response, got {other:?}"),
    }
    assert_eq!(storage.list_recipient_keys(AUTH).unwrap(), Vec::<String>::new());
}

#[test]
fn duplicate_add_is_reported_as_server_error() {
    // this storage engine rejects a duplicate add as an internal error,
    // surfaced as that item's server-error result
    let mut storage = storage_with_account();
    let r = handle_keylist_update(
        &mut storage,
        update_msg(vec![
            ("key-1", KeylistUpdateItemAction::Add),
            ("key-1", KeylistUpdateItemAction::Add),
        ]),
        AUTH,
    );
    match r {
        CoordinateMediation::KeylistUpdateResponse(resp) => {
            assert_eq!(resp.content.updated[0].result, KeylistUpdateItemResult::Success);
            assert_eq!(resp.content.updated[1].result, KeylistUpdateItemResult::ServerError);
        }
        other => panic!("expected a keylist-update response, got {other:?}"),
    }
}

// --------------------------------------------------------- coordination entry

#[test]
fn coord_dispatch_refuses_mediate_request() {
    let mut storage = MemoryPersistence::new();
    let msg = CoordinateMediation::MediateRequest(MsgParts {
        id: "req-1".to_string(),
        content: mediator::coordinate_mediation::MediateRequestContent {},
        decorators: NoDecorators {},
    });
    let r = handle_coord_authenticated(&mut storage, msg, AUTH);
    assert_eq!(r, Err(HandlerError::UnexpectedMediateRequest));
}

#[test]
fn coord_dispatch_surfaces_unimplemented_kinds() {
    let mut storage = storage_with_account();
    let msg = CoordinateMediation::MediateDeny(MsgParts {
        id: "deny-1".to_string(),
        content: mediator::coordinate_mediation::MediateDenyContent {},
        decorators: mediator::coordinate_mediation::MediateDenyDecorators { thread: None },
    });
    let r = handle_coord_authenticated(&mut storage, msg, AUTH);
    assert_eq!(r, Err(HandlerError::NotImplemented));
    assert_eq!(handle_unimplemented(), Err(HandlerError::NotImplemented));
}

#[test]
fn coord_dispatch_routes_keylist_update() {
    let mut storage = storage_with_account();
    let msg = CoordinateMediation::KeylistUpdate(update_msg(vec![(
        "key-1",
        KeylistUpdateItemAction::Add,
    )]));
    let r = handle_coord_authenticated(&mut storage, msg, AUTH).unwrap();
    assert!(matches!(r, CoordinateMediation::KeylistUpdateResponse(_)));
    assert_eq!(storage.list_recipient_keys(AUTH).unwrap(), ["key-1"]);
}

// ----------------------------------------------------------------- device info

#[test]
fn set_device_info_rejects_partial_pairing() {
    let mut storage = storage_with_account();
    let r = handle_device_info(&mut storage, set_device_info_msg(Some("abc"), None), AUTH);
    expect_problem(
        &r,
        ProblemCode::RequestNotAccepted,
        "Both device token and platform must be provided or omitted together.",
    );
    let r = handle_device_info(&mut storage, set_device_info_msg(None, Some("android")), AUTH);
    expect_problem(
        &r,
        ProblemCode::RequestNotAccepted,
        "Both device token and platform must be provided or omitted together.",
    );
}

#[test]
fn set_device_info_rejects_unknown_platform() {
    let mut storage = storage_with_account();
    let r = handle_device_info(
        &mut storage,
        set_device_info_msg(Some("abc"), Some("windows")),
        AUTH,
    );
    expect_problem(
        &r,
        ProblemCode::RequestNotAccepted,
        "Device platform must be one of: android, ios",
    );
}

#[test]
fn set_device_info_clear_succeeds_with_empty_echo() {
    let mut storage = storage_with_account();
    let r = handle_device_info(&mut storage, set_device_info_msg(None, None), AUTH);
    match r {
        PushNotificationsFCM::DeviceInfo(d) => {
            assert_eq!(d.content.device_token, "");
            assert_eq!(d.content.device_platform, "");
        }
        other => panic!("expected a device-info answer, got {other:?}"),
    }
}

#[test]
fn set_device_info_storage_failure_is_reported() {
    // no account exists, so the store fails and the failure is in-band
    let mut storage = MemoryPersistence::new();
    let r = handle_device_info(
        &mut storage,
        set_device_info_msg(Some("abc"), Some("android")),
        AUTH,
    );
    expect_problem(&r, ProblemCode::ResponseProcessingError, "Failed to set device info");
}

#[test]
fn get_device_info_returns_stored_values() {
    let mut storage = storage_with_account();
    let r = handle_device_info(
        &mut storage,
        set_device_info_msg(Some("token-1"), Some("ios")),
        AUTH,
    );
    assert!(matches!(r, PushNotificationsFCM::DeviceInfo(_)));
    let r = handle_device_info(&mut storage, get_device_info_msg(), AUTH);
    match r {
        PushNotificationsFCM::DeviceInfo(d) => {
            assert_eq!(d.content.device_token, "token-1");
            assert_eq!(d.content.device_platform, "ios");
        }
        other => panic!("expected a device-info answer, got {other:?}"),
    }
}

#[test]
fn get_device_info_miss_is_not_accepted() {
    let mut storage = storage_with_account();
    let r = handle_device_info(&mut storage, get_device_info_msg(), AUTH);
    expect_problem(&r, ProblemCode::RequestNotAccepted, "Device info not found");
}

#[test]
fn inbound_device_info_is_a_protocol_violation() {
    let mut storage = storage_with_account();
    let msg = PushNotificationsFCM::DeviceInfo(MsgParts {
        id: "dev-1".to_string(),
        content: DeviceInfoContent {
            device_token: "t".to_string(),
            device_platform: "android".to_string(),
        },
        decorators: DeviceInfoDecorators { thread: None },
    });
    let r = handle_device_info(&mut storage, msg, AUTH);
    expect_problem(
        &r,
        ProblemCode::RequestNotAccepted,
        "DeviceInfo message should not be handled here.",
    );
}

#[test]
fn inbound_report_problem_is_not_supported() {
    let mut storage = storage_with_account();
    let msg = PushNotificationsFCM::ReportProblem(MsgParts {
        id: "rp-1".to_string(),
        content: mediator::push_notifications_fcm::ProblemReportContent {
            problem_code: ProblemCode::RequestNotAccepted,
            explain: "x".to_string(),
        },
        decorators: mediator::push_notifications_fcm::ProblemReportDecorators { thread: None },
    });
    let r = handle_push_notification_fcm_protocol(&mut storage, msg, AUTH).unwrap();
    expect_problem(
        &r,
        ProblemCode::RequestProcessingError,
        "This operation is not supported in the current context.",
    );
}
