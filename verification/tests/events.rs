use kukuri_client::storage::collection::Collection;
use kukuri_client::storage::events::{
    bytes_value, emission_for, event_name, handle_post_document_event,
    handle_user_document_event, is_active, normalize, payload, BridgeAction,
    DocumentSubscriptionService, Emission, NormalizedEvent, PeerStatus, SourceEvent, StreamItem,
    SubscriptionState, STREAM_ERROR_PAUSE_MS,
};

fn local() -> SourceEvent {
    SourceEvent::InsertLocal { key: b"post:1".to_vec(), author: "me".to_string() }
}

fn text(v: &serde_json::Value) -> String {
    serde_json::to_string(v).unwrap()
}

#[test]
fn every_known_kind_becomes_one_event() {
    assert_eq!(
        handle_user_document_event(local()),
        Some(Emission {
            name: "user-profile-updated".to_string(),
            event: NormalizedEvent::LocalInsert {
                key: b"post:1".to_vec(),
                author: "me".to_string()
            },
        })
    );
    assert_eq!(
        handle_post_document_event(SourceEvent::InsertRemote {
            key: vec![1, 2],
            author: "them".to_string(),
            from: "peer".to_string(),
        }),
        Some(Emission {
            name: "post-updated".to_string(),
            event: NormalizedEvent::RemoteInsert {
                key: vec![1, 2],
                author: "them".to_string(),
                from: "peer".to_string(),
            },
        })
    );
    assert_eq!(
        handle_user_document_event(SourceEvent::ContentReady { hash: "h".to_string() }),
        Some(Emission {
            name: "user-content-ready".to_string(),
            event: NormalizedEvent::ContentReady { hash: "h".to_string() },
        })
    );
    assert_eq!(
        handle_post_document_event(SourceEvent::ContentReady { hash: "h".to_string() })
            .map(|e| e.name),
        Some("post-content-ready".to_string())
    );
    assert_eq!(
        handle_post_document_event(SourceEvent::NeighborUp { node_id: "n".to_string() }),
        Some(Emission {
            name: "neighbor-status-changed".to_string(),
            event: NormalizedEvent::NeighborStatusChanged {
                node_id: "n".to_string(),
                status: PeerStatus::Up,
                document: Collection::Post,
            },
        })
    );
    assert_eq!(
        handle_user_document_event(SourceEvent::NeighborDown { node_id: "n".to_string() }),
        Some(Emission {
            name: "neighbor-status-changed".to_string(),
            event: NormalizedEvent::NeighborStatusChanged {
                node_id: "n".to_string(),
                status: PeerStatus::Down,
                document: Collection::User,
            },
        })
    );
    assert_eq!(
        handle_user_document_event(SourceEvent::SyncFinished { summary: "done".to_string() }),
        Some(Emission {
            name: "sync-finished".to_string(),
            event: NormalizedEvent::SyncFinished {
                document: Collection::User,
                event: "done".to_string()
            },
        })
    );
}

#[test]
fn an_unknown_kind_is_not_forwarded() {
    assert_eq!(handle_user_document_event(SourceEvent::Other), None);
    assert_eq!(handle_post_document_event(SourceEvent::Other), None);
    assert_eq!(normalize(Collection::Settings, SourceEvent::Other), None);
    assert_eq!(emission_for(Collection::Settings, SourceEvent::Other), None);
}

#[test]
fn event_names() {
    let insert = NormalizedEvent::LocalInsert { key: vec![], author: String::new() };
    assert_eq!(event_name(Collection::User, &insert), "user-profile-updated");
    assert_eq!(event_name(Collection::Post, &insert), "post-updated");
    assert_eq!(event_name(Collection::Settings, &insert), "settings-updated");
    let ready = NormalizedEvent::ContentReady { hash: String::new() };
    assert_eq!(event_name(Collection::Settings, &ready), "settings-content-ready");
    assert_eq!(Collection::User.tag(), "user");
    assert_eq!(Collection::Post.tag(), "post");
    assert_eq!(Collection::Settings.tag(), "settings");
    assert_eq!(Collection::User.key_prefix(), "user_profile:");
    assert_eq!(Collection::User.registry_name(), "users");
    assert_eq!(Collection::Post.registry_name(), "posts");
    assert_eq!(Collection::Settings.registry_name(), "settings");
}

#[test]
fn payloads() {
    assert_eq!(
        text(&payload(&NormalizedEvent::LocalInsert {
            key: vec![112, 0, 255],
            author: "me".to_string()
        })),
        "{\"author\":\"me\",\"key\":[112,0,255],\"type\":\"local_insert\"}"
    );
    assert_eq!(
        text(&payload(&NormalizedEvent::RemoteInsert {
            key: vec![],
            author: "a".to_string(),
            from: "peer".to_string()
        })),
        "{\"author\":\"a\",\"from\":\"peer\",\"key\":[],\"type\":\"remote_insert\"}"
    );
    assert_eq!(
        text(&payload(&NormalizedEvent::ContentReady { hash: "abc".to_string() })),
        "{\"hash\":\"abc\"}"
    );
    assert_eq!(
        text(&payload(&NormalizedEvent::NeighborStatusChanged {
            node_id: "n".to_string(),
            status: PeerStatus::Up,
            document: Collection::User
        })),
        "{\"document\":\"user\",\"node_id\":\"n\",\"status\":\"up\"}"
    );
    assert_eq!(
        text(&payload(&NormalizedEvent::NeighborStatusChanged {
            node_id: "n".to_string(),
            status: PeerStatus::Down,
            document: Collection::Post
        })),
        "{\"document\":\"post\",\"node_id\":\"n\",\"status\":\"down\"}"
    );
    assert_eq!(
        text(&payload(&NormalizedEvent::SyncFinished {
            document: Collection::Post,
            event: "Ok".to_string()
        })),
        "{\"document\":\"post\",\"event\":\"Ok\"}"
    );
    assert_eq!(text(&bytes_value(&vec![0, 1, 255])), "[0,1,255]");
}

#[test]
fn a_subscription_runs_from_start_to_end() {
    let mut service = DocumentSubscriptionService::new();
    assert_eq!(service.state(Collection::User), SubscriptionState::NotStarted);
    assert_eq!(service.state(Collection::Post), SubscriptionState::NotStarted);

    // Before it runs, a subscription ignores what it is handed.
    assert_eq!(
        service.on_item(Collection::User, StreamItem::Event(local())),
        BridgeAction::Ignore
    );

    assert!(service.start(Collection::User));
    assert_eq!(service.state(Collection::User), SubscriptionState::Subscribing);
    assert!(!service.start(Collection::User));
    service.subscribed(Collection::User, true);
    assert_eq!(service.state(Collection::User), SubscriptionState::Running);
    assert!(!service.start(Collection::User));
    assert_eq!(service.state(Collection::Post), SubscriptionState::NotStarted);

    // One event for each notification of a known kind.
    for _ in 0..3 {
        match service.on_item(Collection::User, StreamItem::Event(local())) {
            BridgeAction::Emit(e) => assert_eq!(e.name, "user-profile-updated"),
            other => panic!("unexpected action {:?}", other),
        }
    }
    assert_eq!(
        service.on_item(Collection::User, StreamItem::Event(SourceEvent::Other)),
        BridgeAction::Ignore
    );
    assert_eq!(service.state(Collection::User), SubscriptionState::Running);

    // The stream closes.
    assert_eq!(service.on_item(Collection::User, StreamItem::End), BridgeAction::Stop);
    assert_eq!(service.state(Collection::User), SubscriptionState::Ended);
    assert_eq!(
        service.on_item(Collection::User, StreamItem::Event(local())),
        BridgeAction::Ignore
    );

    // The caller may start again.
    assert!(service.start(Collection::User));
}

#[test]
fn a_stream_error_pauses_and_ends_the_subscription() {
    let mut service = DocumentSubscriptionService::new();
    service.start(Collection::Post);
    service.subscribed(Collection::Post, true);
    assert_eq!(
        service.on_item(Collection::Post, StreamItem::Failure("broken pipe".to_string())),
        BridgeAction::PauseThenStop { millis: 5000 }
    );
    assert_eq!(STREAM_ERROR_PAUSE_MS, 5000);
    assert_eq!(service.state(Collection::Post), SubscriptionState::Error);
    assert_eq!(
        service.on_item(Collection::Post, StreamItem::Event(local())),
        BridgeAction::Ignore
    );
    assert!(service.start(Collection::Post));
}

#[test]
fn a_subscription_that_cannot_be_set_up_is_in_error() {
    let mut service = DocumentSubscriptionService::new();
    service.start(Collection::User);
    service.subscribed(Collection::User, false);
    assert_eq!(service.state(Collection::User), SubscriptionState::Error);
    service.subscribed(Collection::User, true);
    assert_eq!(service.state(Collection::User), SubscriptionState::Error);
    service.subscribed(Collection::Post, true);
    assert_eq!(service.state(Collection::Post), SubscriptionState::NotStarted);
}

#[test]
fn stop_cancels_what_is_under_way() {
    let mut service = DocumentSubscriptionService::new();
    assert_eq!(service.stop(), vec![]);
    service.start(Collection::User);
    service.subscribed(Collection::User, true);
    service.start(Collection::Settings);
    service.start(Collection::Post);
    service.subscribed(Collection::Post, false);
    assert_eq!(service.stop(), vec![Collection::User, Collection::Settings]);
    assert_eq!(service.state(Collection::User), SubscriptionState::NotStarted);
    assert_eq!(service.state(Collection::Post), SubscriptionState::NotStarted);
    assert_eq!(service.state(Collection::Settings), SubscriptionState::NotStarted);
    assert_eq!(service.stop(), vec![]);
    assert!(is_active(SubscriptionState::Running));
    assert!(is_active(SubscriptionState::Subscribing));
    assert!(!is_active(SubscriptionState::Ended));
}
