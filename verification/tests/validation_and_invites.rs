//! Validation rules, the invite flow, and image payload acceptance.

use mission_engine::{
    AddMissionModel, Base64Img, CrewOperationUseCase, EditMissionModel, EngineError,
    InviteStatus, InviteUserPayload, KickModel, MembershipStore, MissionInviteUseCase,
    MissionManagementUseCase, MissionRealtimeService, MissionStatus, NotificationDispatcher,
};

fn seeded() -> (MembershipStore, usize, usize) {
    let mut store = MembershipStore::new();
    let chief = store.add_member("Chief".to_string(), None);
    let anna = store.add_member("Anna".to_string(), None);
    (store, chief, anna)
}

fn model(name: &str, max_crew: u32) -> AddMissionModel {
    AddMissionModel {
        name: name.to_string(),
        description: None,
        category: None,
        max_crew,
    }
}

#[test]
fn mission_names_must_have_three_characters_after_trimming() {
    let (mut store, chief, _anna) = seeded();
    let mgmt = MissionManagementUseCase::new();
    assert_eq!(
        mgmt.add(&mut store, chief, model("", 3)),
        Err(EngineError::ValidationError)
    );
    assert_eq!(
        mgmt.add(&mut store, chief, model("  ab  ", 3)),
        Err(EngineError::ValidationError)
    );
    // Untrimmed length would pass; the trimmed length decides.
    assert_eq!(
        mgmt.add(&mut store, chief, model("  a ", 3)),
        Err(EngineError::ValidationError)
    );
    assert!(mgmt.add(&mut store, chief, model("  abc ", 3)).is_ok());
}

#[test]
fn capacity_must_lie_between_two_and_ten() {
    let (mut store, chief, _anna) = seeded();
    let mgmt = MissionManagementUseCase::new();
    assert_eq!(
        mgmt.add(&mut store, chief, model("Too small", 1)),
        Err(EngineError::ValidationError)
    );
    assert_eq!(
        mgmt.add(&mut store, chief, model("Too big", 11)),
        Err(EngineError::ValidationError)
    );
    assert!(mgmt.add(&mut store, chief, model("Low bound", 2)).is_ok());
    assert!(mgmt.add(&mut store, chief, model("High bound", 10)).is_ok());
}

#[test]
fn missions_are_created_by_an_existing_chief() {
    let mut store = MembershipStore::new();
    let mgmt = MissionManagementUseCase::new();
    assert_eq!(
        mgmt.add(&mut store, 7, model("Ghost chief", 3)),
        Err(EngineError::NotFound)
    );
}

#[test]
fn editing_is_chief_only_and_open_only() {
    let (mut store, chief, anna) = seeded();
    let mgmt = MissionManagementUseCase::new();
    let mission = mgmt.add(&mut store, chief, model("Editable", 3)).unwrap();

    let rename = EditMissionModel {
        name: Some("  Renamed mission  ".to_string()),
        description: None,
        category: None,
        max_crew: None,
    };
    assert_eq!(
        mgmt.edit(&mut store, mission, anna, rename),
        Err(EngineError::NotFound)
    );

    let rename = EditMissionModel {
        name: Some("  Renamed mission  ".to_string()),
        description: Some("new words".to_string()),
        category: None,
        max_crew: None,
    };
    assert_eq!(mgmt.edit(&mut store, mission, chief, rename), Ok(mission));
    let m = store.get_one(mission, chief).unwrap();
    // A set name is stored trimmed.
    assert_eq!(m.name, "Renamed mission");
    assert_eq!(m.description, Some("new words".to_string()));
}

#[test]
fn capacity_cannot_fall_below_the_crew_size() {
    let (mut store, chief, anna) = seeded();
    let bram = store.add_member("Bram".to_string(), None);
    let mgmt = MissionManagementUseCase::new();
    let crew = CrewOperationUseCase::new(true);
    let mut rt = MissionRealtimeService::new();
    let mut nt = NotificationDispatcher::new();
    let mission = mgmt.add(&mut store, chief, model("Shrinking", 5)).unwrap();
    crew.join(&mut store, &mut rt, &mut nt, mission, anna).unwrap();
    crew.join(&mut store, &mut rt, &mut nt, mission, bram).unwrap();

    let shrink_too_far = EditMissionModel {
        name: None,
        description: None,
        category: None,
        max_crew: Some(1),
    };
    assert_eq!(
        mgmt.edit(&mut store, mission, chief, shrink_too_far),
        Err(EngineError::ValidationError)
    );
    let shrink_ok = EditMissionModel {
        name: None,
        description: None,
        category: None,
        max_crew: Some(2),
    };
    assert_eq!(mgmt.edit(&mut store, mission, chief, shrink_ok), Ok(mission));
    assert_eq!(store.get_one(mission, chief).unwrap().max_crew, 2);
}

#[test]
fn removal_is_a_soft_delete() {
    let (mut store, chief, _anna) = seeded();
    let mgmt = MissionManagementUseCase::new();
    let mission = mgmt.add(&mut store, chief, model("Ephemeral", 3)).unwrap();
    assert_eq!(mgmt.remove(&mut store, mission, chief), Ok(()));
    // The record stays readable; editing a deleted mission misses.
    assert!(store.get_one(mission, chief).is_ok());
    let rename = EditMissionModel {
        name: Some("Still here?".to_string()),
        description: None,
        category: None,
        max_crew: None,
    };
    assert_eq!(
        mgmt.edit(&mut store, mission, chief, rename),
        Err(EngineError::NotFound)
    );
    // Removing an unknown mission is still Ok, like the underlying delete.
    assert_eq!(mgmt.remove(&mut store, 99, chief), Ok(()));
}

#[test]
fn invite_accept_performs_the_join_side_effects() {
    let (mut store, chief, anna) = seeded();
    let mgmt = MissionManagementUseCase::new();
    let invites = MissionInviteUseCase::new();
    let mut rt = MissionRealtimeService::new();
    let mission = mgmt.add(&mut store, chief, model("By invitation", 3)).unwrap();

    let invite_id = invites.invite(&mut store, &mut rt, mission, chief, anna).unwrap();
    let pending = invites.get_my_pending_invites(&store, anna).unwrap();
    assert_eq!(pending.len(), 1);
    assert_eq!(pending[0].id, invite_id);
    assert_eq!(pending[0].mission_name, "By invitation");
    assert_eq!(pending[0].chief_name, "Chief");
    assert_eq!(pending[0].status, InviteStatus::Pending);

    let room = rt.subscribe(mission);
    assert_eq!(invites.accept(&mut store, &mut rt, invite_id, anna), Ok(()));
    assert!(store.is_member(mission, anna));
    assert_eq!(store.find_member(anna).unwrap().mission_join_count, 1);
    assert_eq!(rt.recv(&room).unwrap().content, "Anna joined the mission via invite");
    assert!(invites.get_my_pending_invites(&store, anna).unwrap().is_empty());

    // Accepting twice fails: the invite is no longer pending.
    assert_eq!(
        invites.accept(&mut store, &mut rt, invite_id, anna),
        Err(EngineError::InvalidTransition)
    );
}

#[test]
fn invites_are_rejected_for_members_and_duplicates() {
    let (mut store, chief, anna) = seeded();
    let mgmt = MissionManagementUseCase::new();
    let invites = MissionInviteUseCase::new();
    let crew = CrewOperationUseCase::new(true);
    let mut rt = MissionRealtimeService::new();
    let mut nt = NotificationDispatcher::new();
    let mission = mgmt.add(&mut store, chief, model("Exclusive", 3)).unwrap();

    invites.invite(&mut store, &mut rt, mission, chief, anna).unwrap();
    assert_eq!(
        invites.invite(&mut store, &mut rt, mission, chief, anna),
        Err(EngineError::AlreadyInvited)
    );

    let bram = store.add_member("Bram".to_string(), None);
    crew.join(&mut store, &mut rt, &mut nt, mission, bram).unwrap();
    assert_eq!(
        invites.invite(&mut store, &mut rt, mission, chief, bram),
        Err(EngineError::AlreadyJoined)
    );
}

#[test]
fn accepting_is_authorized_and_recheck_capacity() {
    let (mut store, chief, anna) = seeded();
    let bram = store.add_member("Bram".to_string(), None);
    let cleo = store.add_member("Cleo".to_string(), None);
    let mgmt = MissionManagementUseCase::new();
    let invites = MissionInviteUseCase::new();
    let crew = CrewOperationUseCase::new(true);
    let mut rt = MissionRealtimeService::new();
    let mut nt = NotificationDispatcher::new();
    let mission = mgmt.add(&mut store, chief, model("Last seat", 2)).unwrap();

    let invite_id = invites.invite(&mut store, &mut rt, mission, chief, anna).unwrap();
    assert_eq!(
        invites.accept(&mut store, &mut rt, invite_id, bram),
        Err(EngineError::NotAuthorized)
    );

    // The mission fills up after the invitation went out.
    crew.join(&mut store, &mut rt, &mut nt, mission, bram).unwrap();
    crew.join(&mut store, &mut rt, &mut nt, mission, cleo).unwrap();
    assert_eq!(
        invites.accept(&mut store, &mut rt, invite_id, anna),
        Err(EngineError::MissionFull)
    );
    assert!(!store.is_member(mission, anna));
}

#[test]
fn declining_updates_only_the_invite() {
    let (mut store, chief, anna) = seeded();
    let mgmt = MissionManagementUseCase::new();
    let invites = MissionInviteUseCase::new();
    let mut rt = MissionRealtimeService::new();
    let mission = mgmt.add(&mut store, chief, model("Declined", 3)).unwrap();
    let invite_id = invites.invite(&mut store, &mut rt, mission, chief, anna).unwrap();

    assert_eq!(
        invites.decline(&mut store, invite_id, chief),
        Err(EngineError::NotAuthorized)
    );
    assert_eq!(invites.decline(&mut store, invite_id, anna), Ok(()));
    assert_eq!(store.invites[invite_id].status, InviteStatus::Rejected);
    assert!(!store.is_member(mission, anna));

    // A declined invitation frees the pending slot for a new one.
    assert!(invites.invite(&mut store, &mut rt, mission, chief, anna).is_ok());
}

#[test]
fn error_labels_are_stable() {
    assert_eq!(EngineError::MissionFull.label(), "mission_full");
    assert_eq!(EngineError::SelfJoinForbidden.label(), "self_join_forbidden");
    assert_eq!(EngineError::InvalidTransition.label(), "invalid_transition");
    assert_eq!(EngineError::AlreadyJoined.label(), "already_joined");
    assert_eq!(EngineError::NotJoinable.label(), "not_joinable");
    assert_eq!(EngineError::AlreadyInvited.label(), "already_invited");
    assert_eq!(EngineError::NotAuthorized.label(), "not_authorized");
    assert_eq!(EngineError::NotFound.label(), "not_found");
    assert_eq!(EngineError::ValidationError.label(), "validation_error");
    assert_eq!(EngineError::StoreFailure.label(), "store_failure");
    assert_eq!(EngineError::SideEffectFailure.label(), "side_effect_failure");
}

#[test]
fn png_payloads_are_accepted_with_a_data_url() {
    // The eight-byte PNG signature, padded with enough bytes to be sniffed.
    let png_bytes: Vec<u8> = vec![
        0x89, 0x50, 0x4E, 0x47, 0x0D, 0x0A, 0x1A, 0x0A, 0x00, 0x00, 0x00, 0x0D,
    ];
    let encoded = base64::Engine::encode(&base64::engine::general_purpose::STANDARD, &png_bytes);
    let img = Base64Img::new(encoded.clone()).expect("valid png payload");
    assert_eq!(img.into_inner(), format!("data:image/png;base64,{}", encoded));
}

#[test]
fn whitespace_is_stripped_before_decoding() {
    let png_bytes: Vec<u8> = vec![
        0x89, 0x50, 0x4E, 0x47, 0x0D, 0x0A, 0x1A, 0x0A, 0x00, 0x00, 0x00, 0x0D,
    ];
    let encoded = base64::Engine::encode(&base64::engine::general_purpose::STANDARD, &png_bytes);
    let mut spaced = String::new();
    for (i, c) in encoded.chars().enumerate() {
        if i == 4 {
            spaced.push('\n');
        }
        spaced.push(c);
    }
    let img = Base64Img::new(spaced).expect("whitespace is tolerated");
    assert_eq!(img.into_inner(), format!("data:image/png;base64,{}", encoded));
}

#[test]
fn unpadded_base64_is_accepted_as_a_fallback() {
    let png_bytes: Vec<u8> = vec![
        0x89, 0x50, 0x4E, 0x47, 0x0D, 0x0A, 0x1A, 0x0A, 0x00, 0x00, 0x00, 0x0D, 0x49,
    ];
    let encoded = base64::Engine::encode(
        &base64::engine::general_purpose::STANDARD_NO_PAD,
        &png_bytes,
    );
    assert!(Base64Img::new(encoded).is_ok());
}

#[test]
fn bad_image_payloads_are_rejected() {
    assert_eq!(
        Base64Img::new(String::new()).map(|i| i.into_inner()),
        Err(EngineError::ValidationError)
    );
    assert_eq!(
        Base64Img::new("   \n  ".to_string()).map(|i| i.into_inner()),
        Err(EngineError::ValidationError)
    );
    assert_eq!(
        Base64Img::new("not@base64!".to_string()).map(|i| i.into_inner()),
        Err(EngineError::ValidationError)
    );
    // Valid base64, but not an image.
    let text = base64::Engine::encode(
        &base64::engine::general_purpose::STANDARD,
        b"plain text, no signature",
    );
    assert_eq!(
        Base64Img::new(text).map(|i| i.into_inner()),
        Err(EngineError::ValidationError)
    );
}

#[test]
fn status_labels_are_stable() {
    assert_eq!(MissionStatus::Open.as_label(), "Open");
    assert_eq!(MissionStatus::InProgress.as_label(), "InProgress");
    assert_eq!(MissionStatus::Completed.as_label(), "Completed");
    assert_eq!(MissionStatus::Failed.as_label(), "Failed");
}

#[test]
fn payload_wrappers_perform_the_full_operations() {
    let (mut store, chief, anna) = seeded();
    let mgmt = MissionManagementUseCase::new();
    let invites = MissionInviteUseCase::new();
    let crew = CrewOperationUseCase::new(true);
    let mut rt = MissionRealtimeService::new();
    let mut nt = NotificationDispatcher::new();
    let mission = mgmt.add(&mut store, chief, model("Payload driven", 3)).unwrap();

    // Inviting through the transport payload creates the pending row and
    // broadcasts the announcement.
    let room = rt.subscribe(mission);
    let invite_id = invites
        .invite_user(&mut store, &mut rt, mission, chief, InviteUserPayload { user_id: anna })
        .unwrap();
    assert_eq!(store.invites[invite_id].status, InviteStatus::Pending);
    assert_eq!(store.invites[invite_id].user_id, anna);
    assert_eq!(
        rt.recv(&room).unwrap().content,
        "Anna was invited to the mission"
    );

    // Kicking through the transport payload removes the row, persists the
    // message and notifies the target.
    crew.join(&mut store, &mut rt, &mut nt, mission, anna).unwrap();
    let anna_feed = nt.subscribe(anna);
    assert_eq!(
        crew.kick(&mut store, &mut rt, &mut nt, mission, anna, KickModel { member_id: anna }),
        Err(EngineError::NotAuthorized)
    );
    assert_eq!(
        crew.kick(&mut store, &mut rt, &mut nt, mission, chief, KickModel { member_id: anna }),
        Ok(())
    );
    assert!(!store.is_member(mission, anna));
    assert_eq!(
        store.messages.last().unwrap().content,
        "Anna was kicked from the mission"
    );
    let notice = nt.recv(anna_feed).unwrap();
    assert_eq!(notice.recipient_id, Some(anna));
    assert_eq!(notice.title, "You have been kicked");
}
