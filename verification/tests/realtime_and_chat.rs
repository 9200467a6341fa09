//! Fan-out, notification delivery and chat flows.

use mission_engine::{
    should_render, AddMissionModel, CrewOperationUseCase, MembershipStore, MessageKind,
    MissionChatUseCase, MissionManagementUseCase, MissionRealtimeService, NotificationDispatcher,
};

fn seeded_mission(
    store: &mut MembershipStore,
) -> (usize, usize, usize) {
    let mgmt = MissionManagementUseCase::new();
    let chief = store.add_member("Chief".to_string(), Some("http://avatars/chief".to_string()));
    let anna = store.add_member("Anna".to_string(), None);
    let mission = mgmt
        .add(
            store,
            chief,
            AddMissionModel {
                name: "Signal test".to_string(),
                description: None,
                category: None,
                max_crew: 3,
            },
        )
        .unwrap();
    (mission, chief, anna)
}

#[test]
fn late_subscribers_never_see_earlier_events() {
    let mut store = MembershipStore::new();
    let mut rt = MissionRealtimeService::new();
    let chat = MissionChatUseCase::new();
    let (mission, chief, _anna) = seeded_mission(&mut store);

    let early = rt.subscribe(mission);
    chat.send_message(&mut store, &mut rt, mission, chief, "first".to_string()).unwrap();

    let late = rt.subscribe(mission);
    chat.send_message(&mut store, &mut rt, mission, chief, "second".to_string()).unwrap();

    // The early subscriber sees both events, in order.
    let e1 = rt.recv(&early).unwrap();
    let e2 = rt.recv(&early).unwrap();
    assert_eq!(e1.content, "first");
    assert_eq!(e2.content, "second");
    assert!(rt.recv(&early).is_none());

    // The late subscriber never receives the earlier event.
    let l1 = rt.recv(&late).unwrap();
    assert_eq!(l1.content, "second");
    assert!(rt.recv(&late).is_none());
}

#[test]
fn events_are_delivered_per_mission_only() {
    let mut store = MembershipStore::new();
    let mut rt = MissionRealtimeService::new();
    let chat = MissionChatUseCase::new();
    let mgmt = MissionManagementUseCase::new();
    let (mission, chief, _anna) = seeded_mission(&mut store);
    let other = mgmt
        .add(
            &mut store,
            chief,
            AddMissionModel {
                name: "Other room".to_string(),
                description: None,
                category: None,
                max_crew: 2,
            },
        )
        .unwrap();

    let sub_a = rt.subscribe(mission);
    let sub_b = rt.subscribe(other);
    chat.send_message(&mut store, &mut rt, mission, chief, "only here".to_string()).unwrap();

    assert_eq!(rt.recv(&sub_a).unwrap().content, "only here");
    assert!(rt.recv(&sub_b).is_none());
}

#[test]
fn chat_messages_are_persisted_and_listed_in_order() {
    let mut store = MembershipStore::new();
    let mut rt = MissionRealtimeService::new();
    let chat = MissionChatUseCase::new();
    let (mission, chief, anna) = seeded_mission(&mut store);

    chat.send_message(&mut store, &mut rt, mission, chief, "hello".to_string()).unwrap();
    chat.send_message(&mut store, &mut rt, mission, anna, "hi there".to_string()).unwrap();

    let listed = chat.get_messages(&store, mission).unwrap();
    assert_eq!(listed.len(), 2);
    assert_eq!(listed[0].content, "hello");
    assert_eq!(listed[0].user_id, Some(chief));
    assert_eq!(listed[0].user_display_name, Some("Chief".to_string()));
    assert_eq!(
        listed[0].user_avatar_url,
        Some("http://avatars/chief".to_string())
    );
    assert_eq!(listed[0].kind, MessageKind::Chat);
    assert_eq!(listed[1].content, "hi there");
    assert_eq!(listed[1].user_id, Some(anna));
    assert!(listed[0].id < listed[1].id);
}

#[test]
fn message_listing_is_capped_at_one_page() {
    let mut store = MembershipStore::new();
    let mut rt = MissionRealtimeService::new();
    let chat = MissionChatUseCase::new();
    let (mission, chief, _anna) = seeded_mission(&mut store);
    for i in 0..105 {
        chat.send_message(&mut store, &mut rt, mission, chief, format!("line {}", i)).unwrap();
    }
    let listed = chat.get_messages(&store, mission).unwrap();
    assert_eq!(listed.len(), 100);
    assert_eq!(listed[0].content, "line 0");
    assert_eq!(listed[99].content, "line 99");
}

#[test]
fn sending_to_an_unknown_mission_is_rejected() {
    let mut store = MembershipStore::new();
    let mut rt = MissionRealtimeService::new();
    let chat = MissionChatUseCase::new();
    let (_mission, chief, _anna) = seeded_mission(&mut store);
    assert_eq!(
        chat.send_message(&mut store, &mut rt, 99, chief, "void".to_string()),
        Err(mission_engine::EngineError::NotFound)
    );
}

#[test]
fn join_broadcasts_a_system_message_and_notifies_the_chief() {
    let mut store = MembershipStore::new();
    let mut rt = MissionRealtimeService::new();
    let mut nt = NotificationDispatcher::new();
    let crew = CrewOperationUseCase::new(true);
    let (mission, chief, anna) = seeded_mission(&mut store);

    let room = rt.subscribe(mission);
    let chief_slot = nt.subscribe(chief);
    crew.join(&mut store, &mut rt, &mut nt, mission, anna).unwrap();

    let joined = rt.recv(&room).unwrap();
    assert_eq!(joined.content, "Anna joined the mission");
    assert_eq!(joined.kind, MessageKind::System);
    assert_eq!(joined.user_id, None);

    let notice = nt.recv(chief_slot).unwrap();
    assert_eq!(notice.recipient_id, Some(chief));
    assert_eq!(notice.title, "New Crew Member");
    assert_eq!(notice.message, "Someone joined your mission: Signal test");
    assert_eq!(notice.metadata.mission_id, mission);
    assert_eq!(notice.metadata.joiner_id, Some(anna));
}

#[test]
fn notification_filtering_happens_at_the_delivery_edge() {
    let mut nt = NotificationDispatcher::new();
    let mut store = MembershipStore::new();
    let mut rt = MissionRealtimeService::new();
    let crew = CrewOperationUseCase::new(true);
    let (mission, _chief, anna) = seeded_mission(&mut store);

    let anna_slot = nt.subscribe(anna);
    let other = store.add_member("Omar".to_string(), None);
    let other_slot = nt.subscribe(other);

    crew.join(&mut store, &mut rt, &mut nt, mission, anna).unwrap();

    // Both subscribers receive the chief-addressed notification; only the
    // matching identity renders it.
    let at_anna = nt.recv(anna_slot).unwrap();
    assert!(!should_render(&at_anna, anna));
    let at_other = nt.recv(other_slot).unwrap();
    assert!(!should_render(&at_other, other));

    // A broadcast notification (no recipient) renders for everyone.
    let broadcast = mission_engine::Notification {
        recipient_id: None,
        title: "Maintenance".to_string(),
        message: "Back soon".to_string(),
        notification_type: mission_engine::NotificationType::MissionStatusUpdate,
        metadata: mission_engine::NotificationMetadata { mission_id: mission, joiner_id: None },
    };
    nt.send(broadcast);
    let b1 = nt.recv(anna_slot).unwrap();
    assert!(should_render(&b1, anna));
    let b2 = nt.recv(other_slot).unwrap();
    assert!(should_render(&b2, other));
}

#[test]
fn a_full_subscriber_queue_drops_the_oldest_event() {
    let mut store = MembershipStore::new();
    let mut rt = MissionRealtimeService::new();
    let chat = MissionChatUseCase::new();
    let (mission, chief, _anna) = seeded_mission(&mut store);
    let sub = rt.subscribe(mission);
    for i in 0..103 {
        chat.send_message(&mut store, &mut rt, mission, chief, format!("tick {}", i)).unwrap();
    }
    // Capacity is 100: the first three events were dropped.
    let first = rt.recv(&sub).unwrap();
    assert_eq!(first.content, "tick 3");
    let mut count = 1;
    while rt.recv(&sub).is_some() {
        count += 1;
    }
    assert_eq!(count, 100);
}
