//! End-to-end crew and lifecycle flows.

use mission_engine::{
    AddMissionModel, ConditionType, CrewOperationUseCase, EngineError, MembershipStore,
    MissionManagementUseCase, MissionOperationUseCase, MissionRealtimeService, MissionStatus,
    NotificationDispatcher,
};

fn new_world() -> (
    MembershipStore,
    MissionRealtimeService,
    NotificationDispatcher,
    CrewOperationUseCase,
    MissionOperationUseCase,
    MissionManagementUseCase,
) {
    (
        MembershipStore::new(),
        MissionRealtimeService::new(),
        NotificationDispatcher::new(),
        CrewOperationUseCase::new(true),
        MissionOperationUseCase::new(),
        MissionManagementUseCase::new(),
    )
}

fn mission_model(name: &str, max_crew: u32) -> AddMissionModel {
    AddMissionModel {
        name: name.to_string(),
        description: Some("a mission".to_string()),
        category: Some("general".to_string()),
        max_crew,
    }
}

#[test]
fn capacity_is_enforced_at_the_last_slot() {
    let (mut store, mut rt, mut nt, crew, _ops, mgmt) = new_world();
    let chief = store.add_member("Chief".to_string(), None);
    let a = store.add_member("Anna".to_string(), None);
    let b = store.add_member("Bram".to_string(), None);
    let d = store.add_member("Dara".to_string(), None);
    let mission = mgmt.add(&mut store, chief, mission_model("Duo run", 2)).unwrap();

    assert_eq!(crew.join(&mut store, &mut rt, &mut nt, mission, a), Ok(()));
    assert_eq!(store.crew_counting(mission), 1);
    assert_eq!(crew.join(&mut store, &mut rt, &mut nt, mission, b), Ok(()));
    assert_eq!(store.crew_counting(mission), 2);
    assert_eq!(
        crew.join(&mut store, &mut rt, &mut nt, mission, d),
        Err(EngineError::MissionFull)
    );
    assert_eq!(store.crew_counting(mission), 2);
}

#[test]
fn repeated_join_attempts_never_exceed_capacity() {
    let (mut store, mut rt, mut nt, crew, _ops, mgmt) = new_world();
    let chief = store.add_member("Chief".to_string(), None);
    let mut members = Vec::new();
    for i in 0..6 {
        members.push(store.add_member(format!("member {}", i), None));
    }
    let mission = mgmt.add(&mut store, chief, mission_model("Trio run", 3)).unwrap();
    let mut successes = 0;
    for round in 0..3 {
        let _ = round;
        for m in &members {
            if crew.join(&mut store, &mut rt, &mut nt, mission, *m) == Ok(()) {
                successes += 1;
            }
        }
    }
    assert_eq!(successes, 3);
    assert_eq!(store.crew_counting(mission), 3);
}

#[test]
fn chief_cannot_join_own_mission_in_any_status() {
    let (mut store, mut rt, mut nt, crew, ops, mgmt) = new_world();
    let chief = store.add_member("Chief".to_string(), None);
    let a = store.add_member("Anna".to_string(), None);
    let mission = mgmt.add(&mut store, chief, mission_model("Solo ban", 3)).unwrap();

    assert_eq!(
        crew.join(&mut store, &mut rt, &mut nt, mission, chief),
        Err(EngineError::SelfJoinForbidden)
    );
    crew.join(&mut store, &mut rt, &mut nt, mission, a).unwrap();
    ops.in_progress(&mut store, &mut rt, &mut nt, mission, chief).unwrap();
    assert_eq!(
        crew.join(&mut store, &mut rt, &mut nt, mission, chief),
        Err(EngineError::SelfJoinForbidden)
    );
    ops.to_failed(&mut store, &mut rt, &mut nt, mission, chief).unwrap();
    assert_eq!(
        crew.join(&mut store, &mut rt, &mut nt, mission, chief),
        Err(EngineError::SelfJoinForbidden)
    );
}

#[test]
fn duplicate_join_is_rejected() {
    let (mut store, mut rt, mut nt, crew, _ops, mgmt) = new_world();
    let chief = store.add_member("Chief".to_string(), None);
    let a = store.add_member("Anna".to_string(), None);
    let mission = mgmt.add(&mut store, chief, mission_model("One seat each", 4)).unwrap();
    crew.join(&mut store, &mut rt, &mut nt, mission, a).unwrap();
    assert_eq!(
        crew.join(&mut store, &mut rt, &mut nt, mission, a),
        Err(EngineError::AlreadyJoined)
    );
    assert_eq!(store.crew_counting(mission), 1);
}

#[test]
fn completed_missions_are_not_joinable() {
    let (mut store, mut rt, mut nt, crew, ops, mgmt) = new_world();
    let chief = store.add_member("Chief".to_string(), None);
    let a = store.add_member("Anna".to_string(), None);
    let b = store.add_member("Bram".to_string(), None);
    let mission = mgmt.add(&mut store, chief, mission_model("Done deal", 4)).unwrap();
    crew.join(&mut store, &mut rt, &mut nt, mission, a).unwrap();
    ops.in_progress(&mut store, &mut rt, &mut nt, mission, chief).unwrap();
    ops.to_completed(&mut store, &mut rt, &mut nt, mission, chief).unwrap();
    assert_eq!(
        crew.join(&mut store, &mut rt, &mut nt, mission, b),
        Err(EngineError::NotJoinable)
    );
}

#[test]
fn in_progress_missions_accept_joins_under_permissive_policy() {
    let (mut store, mut rt, mut nt, crew, ops, mgmt) = new_world();
    let chief = store.add_member("Chief".to_string(), None);
    let a = store.add_member("Anna".to_string(), None);
    let b = store.add_member("Bram".to_string(), None);
    let mission = mgmt.add(&mut store, chief, mission_model("Rolling start", 4)).unwrap();
    crew.join(&mut store, &mut rt, &mut nt, mission, a).unwrap();
    ops.in_progress(&mut store, &mut rt, &mut nt, mission, chief).unwrap();
    assert_eq!(crew.join(&mut store, &mut rt, &mut nt, mission, b), Ok(()));

    // Under the restrictive policy the same join is refused.
    let strict = CrewOperationUseCase::new(false);
    let c = store.add_member("Cleo".to_string(), None);
    assert_eq!(
        strict.join(&mut store, &mut rt, &mut nt, mission, c),
        Err(EngineError::NotJoinable)
    );
}

#[test]
fn status_moves_only_along_allowed_edges() {
    let (mut store, mut rt, mut nt, crew, ops, mgmt) = new_world();
    let chief = store.add_member("Chief".to_string(), None);
    let a = store.add_member("Anna".to_string(), None);
    let mission = mgmt.add(&mut store, chief, mission_model("Edges", 3)).unwrap();
    crew.join(&mut store, &mut rt, &mut nt, mission, a).unwrap();

    // Open -> Completed and Open -> Failed are not transitions.
    assert_eq!(
        ops.to_completed(&mut store, &mut rt, &mut nt, mission, chief),
        Err(EngineError::InvalidTransition)
    );
    assert_eq!(
        ops.to_failed(&mut store, &mut rt, &mut nt, mission, chief),
        Err(EngineError::InvalidTransition)
    );
    assert_eq!(store.get_one(mission, chief).unwrap().status, MissionStatus::Open);

    // Open -> InProgress, and InProgress does not restart.
    ops.in_progress(&mut store, &mut rt, &mut nt, mission, chief).unwrap();
    assert_eq!(
        ops.in_progress(&mut store, &mut rt, &mut nt, mission, chief),
        Err(EngineError::InvalidTransition)
    );
    assert_eq!(store.get_one(mission, chief).unwrap().status, MissionStatus::InProgress);

    // InProgress -> Failed, and a failed mission can restart.
    ops.to_failed(&mut store, &mut rt, &mut nt, mission, chief).unwrap();
    assert_eq!(store.get_one(mission, chief).unwrap().status, MissionStatus::Failed);
    ops.in_progress(&mut store, &mut rt, &mut nt, mission, chief).unwrap();

    // InProgress -> Completed, and a completed mission is final.
    ops.to_completed(&mut store, &mut rt, &mut nt, mission, chief).unwrap();
    assert_eq!(store.get_one(mission, chief).unwrap().status, MissionStatus::Completed);
    assert_eq!(
        ops.in_progress(&mut store, &mut rt, &mut nt, mission, chief),
        Err(EngineError::InvalidTransition)
    );
    assert_eq!(
        ops.to_failed(&mut store, &mut rt, &mut nt, mission, chief),
        Err(EngineError::InvalidTransition)
    );
}

#[test]
fn start_requires_a_crew() {
    let (mut store, mut rt, mut nt, _crew, ops, mgmt) = new_world();
    let chief = store.add_member("Chief".to_string(), None);
    let mission = mgmt.add(&mut store, chief, mission_model("Nobody aboard", 3)).unwrap();
    assert_eq!(
        ops.in_progress(&mut store, &mut rt, &mut nt, mission, chief),
        Err(EngineError::InvalidTransition)
    );
    assert_eq!(store.get_one(mission, chief).unwrap().status, MissionStatus::Open);
}

#[test]
fn only_the_chief_starts_and_finishes() {
    let (mut store, mut rt, mut nt, crew, ops, mgmt) = new_world();
    let chief = store.add_member("Chief".to_string(), None);
    let a = store.add_member("Anna".to_string(), None);
    let mission = mgmt.add(&mut store, chief, mission_model("Chain of command", 3)).unwrap();
    crew.join(&mut store, &mut rt, &mut nt, mission, a).unwrap();
    assert_eq!(
        ops.in_progress(&mut store, &mut rt, &mut nt, mission, a),
        Err(EngineError::InvalidTransition)
    );
    ops.in_progress(&mut store, &mut rt, &mut nt, mission, chief).unwrap();
    assert_eq!(
        ops.to_completed(&mut store, &mut rt, &mut nt, mission, a),
        Err(EngineError::InvalidTransition)
    );
}

#[test]
fn leaving_is_unconditional_and_removes_exactly_one_row() {
    let (mut store, mut rt, mut nt, crew, ops, mgmt) = new_world();
    let chief = store.add_member("Chief".to_string(), None);
    let a = store.add_member("Anna".to_string(), None);
    let b = store.add_member("Bram".to_string(), None);
    let mission = mgmt.add(&mut store, chief, mission_model("Revolving door", 3)).unwrap();
    crew.join(&mut store, &mut rt, &mut nt, mission, a).unwrap();
    crew.join(&mut store, &mut rt, &mut nt, mission, b).unwrap();
    ops.in_progress(&mut store, &mut rt, &mut nt, mission, chief).unwrap();

    // Leaving an in-progress mission is allowed.
    assert_eq!(crew.leave(&mut store, &mut rt, mission, a), Ok(()));
    assert!(!store.is_member(mission, a));
    assert!(store.is_member(mission, b));
    assert_eq!(store.crew_counting(mission), 1);

    // Leaving again is still Ok and removes nothing further.
    assert_eq!(crew.leave(&mut store, &mut rt, mission, a), Ok(()));
    assert_eq!(store.crew_counting(mission), 1);
}

#[test]
fn kicking_requires_the_chief_and_notifies_the_target() {
    let (mut store, mut rt, mut nt, crew, _ops, mgmt) = new_world();
    let chief = store.add_member("Chief".to_string(), None);
    let a = store.add_member("Anna".to_string(), None);
    let b = store.add_member("Bram".to_string(), None);
    let mission = mgmt.add(&mut store, chief, mission_model("Discipline", 3)).unwrap();
    crew.join(&mut store, &mut rt, &mut nt, mission, a).unwrap();
    crew.join(&mut store, &mut rt, &mut nt, mission, b).unwrap();

    assert_eq!(
        crew.kick_crew(&mut store, &mut rt, &mut nt, mission, a, b),
        Err(EngineError::NotAuthorized)
    );
    assert!(store.is_member(mission, b));

    let slot = nt.subscribe(b);
    assert_eq!(crew.kick_crew(&mut store, &mut rt, &mut nt, mission, chief, b), Ok(()));
    assert!(!store.is_member(mission, b));
    assert_eq!(store.crew_counting(mission), 1);
    let notice = nt.recv(slot).expect("the kicked member is notified");
    assert_eq!(notice.recipient_id, Some(b));
    assert_eq!(notice.title, "You have been kicked");
    assert_eq!(notice.message, "You were kicked from mission: Discipline");
}

#[test]
fn awarding_twice_never_duplicates_rows() {
    let (mut store, _rt, _nt, _crew, _ops, _mgmt) = new_world();
    let m = store.add_member("Anna".to_string(), None);
    store.add_achievement(mission_engine::Achievement {
        name: "Joiner".to_string(),
        description: None,
        icon_url: None,
        condition_type: ConditionType::MissionJoin,
        condition_value: 1,
    });
    let first = store
        .check_and_award(m, ConditionType::MissionJoin, 1, "t0".to_string())
        .unwrap();
    assert_eq!(first, vec!["Joiner".to_string()]);
    let second = store
        .check_and_award(m, ConditionType::MissionJoin, 1, "t1".to_string())
        .unwrap();
    assert!(second.is_empty());
    let rows = store
        .earned
        .iter()
        .filter(|e| e.member_id == m && e.achievement_id == 0)
        .count();
    assert_eq!(rows, 1);
}

#[test]
fn veteran_achievement_is_awarded_exactly_once_and_announced() {
    let (mut store, mut rt, mut nt, crew, ops, mgmt) = new_world();
    let chief = store.add_member("Chief".to_string(), None);
    let anna = store.add_member("Anna".to_string(), None);
    let veteran = store.add_achievement(mission_engine::Achievement {
        name: "Veteran".to_string(),
        description: Some("Complete ten missions".to_string()),
        icon_url: None,
        condition_type: ConditionType::MissionComplete,
        condition_value: 10,
    });

    let mut last_mission = 0;
    let mut sub = None;
    for round in 0..10 {
        let mission = mgmt
            .add(&mut store, chief, mission_model(&format!("Campaign {}", round), 3))
            .unwrap();
        crew.join(&mut store, &mut rt, &mut nt, mission, anna).unwrap();
        ops.in_progress(&mut store, &mut rt, &mut nt, mission, chief).unwrap();
        if round == 9 {
            // Subscribe before the final completion to see its broadcasts.
            sub = Some(rt.subscribe(mission));
        }
        ops.to_completed(&mut store, &mut rt, &mut nt, mission, chief).unwrap();
        last_mission = mission;
    }
    let _ = last_mission;

    // Exactly one award row for (Anna, Veteran).
    let rows = store
        .earned
        .iter()
        .filter(|e| e.member_id == anna && e.achievement_id == veteran)
        .count();
    assert_eq!(rows, 1);

    // The unlock was announced to the mission's subscribers.
    let sub = sub.unwrap();
    let mut announced = false;
    while let Some(msg) = rt.recv(&sub) {
        if msg.content == "Anna earned achievement: Veteran" {
            announced = true;
        }
    }
    assert!(announced);

    let my = store.get_my_achievements(anna);
    assert_eq!(my.len(), 1);
    assert!(my[0].is_earned);
    assert_eq!(my[0].name, "Veteran");
}

#[test]
fn completion_bumps_success_counters_for_chief_and_crew() {
    let (mut store, mut rt, mut nt, crew, ops, mgmt) = new_world();
    let chief = store.add_member("Chief".to_string(), None);
    let a = store.add_member("Anna".to_string(), None);
    let b = store.add_member("Bram".to_string(), None);
    let outsider = store.add_member("Omar".to_string(), None);
    let mission = mgmt.add(&mut store, chief, mission_model("Shared glory", 3)).unwrap();
    crew.join(&mut store, &mut rt, &mut nt, mission, a).unwrap();
    crew.join(&mut store, &mut rt, &mut nt, mission, b).unwrap();
    ops.in_progress(&mut store, &mut rt, &mut nt, mission, chief).unwrap();
    ops.to_completed(&mut store, &mut rt, &mut nt, mission, chief).unwrap();

    assert_eq!(store.find_member(chief).unwrap().mission_success_count, 1);
    assert_eq!(store.find_member(a).unwrap().mission_success_count, 1);
    assert_eq!(store.find_member(b).unwrap().mission_success_count, 1);
    assert_eq!(store.find_member(outsider).unwrap().mission_success_count, 0);
}

#[test]
fn join_counters_only_increase() {
    let (mut store, mut rt, mut nt, crew, _ops, mgmt) = new_world();
    let chief = store.add_member("Chief".to_string(), None);
    let a = store.add_member("Anna".to_string(), None);
    let mission = mgmt.add(&mut store, chief, mission_model("In and out", 3)).unwrap();
    crew.join(&mut store, &mut rt, &mut nt, mission, a).unwrap();
    assert_eq!(store.find_member(a).unwrap().mission_join_count, 1);
    crew.leave(&mut store, &mut rt, mission, a).unwrap();
    assert_eq!(store.find_member(a).unwrap().mission_join_count, 1);
    crew.join(&mut store, &mut rt, &mut nt, mission, a).unwrap();
    assert_eq!(store.find_member(a).unwrap().mission_join_count, 2);
}

#[test]
fn mission_summary_counts_roles_and_outcomes() {
    let (mut store, mut rt, mut nt, crew, ops, mgmt) = new_world();
    let chief = store.add_member("Chief".to_string(), None);
    let anna = store.add_member("Anna".to_string(), None);

    // Mission 0: Anna crews, completed. Mission 1: Anna crews, failed.
    // Mission 2: Anna is chief, still open.
    let m0 = mgmt.add(&mut store, chief, mission_model("First", 3)).unwrap();
    crew.join(&mut store, &mut rt, &mut nt, m0, anna).unwrap();
    ops.in_progress(&mut store, &mut rt, &mut nt, m0, chief).unwrap();
    ops.to_completed(&mut store, &mut rt, &mut nt, m0, chief).unwrap();

    let m1 = mgmt.add(&mut store, chief, mission_model("Second", 3)).unwrap();
    crew.join(&mut store, &mut rt, &mut nt, m1, anna).unwrap();
    ops.in_progress(&mut store, &mut rt, &mut nt, m1, chief).unwrap();
    ops.to_failed(&mut store, &mut rt, &mut nt, m1, chief).unwrap();

    mgmt.add(&mut store, anna, mission_model("Third", 3)).unwrap();

    let s = store.get_mission_summary(anna);
    assert_eq!(s.created_count, 1);
    assert_eq!(s.joined_count, 2);
    assert_eq!(s.completed_count, 1);
    assert_eq!(s.failed_count, 1);

    let cs = store.get_mission_summary(chief);
    assert_eq!(cs.created_count, 2);
    assert_eq!(cs.joined_count, 0);
    assert_eq!(cs.completed_count, 1);
    assert_eq!(cs.failed_count, 1);
}

#[test]
fn joining_an_unknown_mission_is_not_found() {
    let (mut store, mut rt, mut nt, crew, _ops, _mgmt) = new_world();
    let a = store.add_member("Anna".to_string(), None);
    assert_eq!(
        crew.join(&mut store, &mut rt, &mut nt, 42, a),
        Err(EngineError::NotFound)
    );
}

#[test]
fn reading_one_mission_reports_crew_count_and_membership() {
    let (mut store, mut rt, mut nt, crew, _ops, mgmt) = new_world();
    let chief = store.add_member("Chief".to_string(), None);
    let a = store.add_member("Anna".to_string(), None);
    let b = store.add_member("Bram".to_string(), None);
    let mission = mgmt.add(&mut store, chief, mission_model("Readable", 3)).unwrap();
    crew.join(&mut store, &mut rt, &mut nt, mission, a).unwrap();

    let as_anna = store.get_one(mission, a).unwrap();
    assert_eq!(as_anna.id, mission);
    assert_eq!(as_anna.name, "Readable");
    assert_eq!(as_anna.chief_id, chief);
    assert_eq!(as_anna.chief_display_name, "Chief");
    assert_eq!(as_anna.crew_count, 1);
    assert!(as_anna.is_member);

    let as_bram = store.get_one(mission, b).unwrap();
    assert!(!as_bram.is_member);
    assert_eq!(store.get_one(9, a).map(|m| m.id), Err(EngineError::NotFound));
}

#[test]
fn a_full_mission_cannot_be_started() {
    let (mut store, mut rt, mut nt, crew, ops, mgmt) = new_world();
    let chief = store.add_member("Chief".to_string(), None);
    let a = store.add_member("Anna".to_string(), None);
    let b = store.add_member("Bram".to_string(), None);
    let mission = mgmt.add(&mut store, chief, mission_model("Packed", 2)).unwrap();
    crew.join(&mut store, &mut rt, &mut nt, mission, a).unwrap();
    crew.join(&mut store, &mut rt, &mut nt, mission, b).unwrap();

    // The crew must be strictly below the mission's own capacity to start.
    assert_eq!(
        ops.in_progress(&mut store, &mut rt, &mut nt, mission, chief),
        Err(EngineError::InvalidTransition)
    );
    assert_eq!(store.get_one(mission, chief).unwrap().status, MissionStatus::Open);

    // One seat freed: the mission starts.
    crew.leave(&mut store, &mut rt, mission, b).unwrap();
    assert_eq!(
        ops.in_progress(&mut store, &mut rt, &mut nt, mission, chief),
        Ok(mission)
    );
}

#[test]
fn completion_announces_each_award_naming_member_and_achievement() {
    let (mut store, mut rt, mut nt, crew, ops, mgmt) = new_world();
    let chief = store.add_member("Chief".to_string(), None);
    let anna = store.add_member("Anna".to_string(), None);
    store.add_achievement(mission_engine::Achievement {
        name: "Finisher".to_string(),
        description: None,
        icon_url: None,
        condition_type: ConditionType::MissionComplete,
        condition_value: 1,
    });
    let mission = mgmt.add(&mut store, chief, mission_model("First blood", 3)).unwrap();
    crew.join(&mut store, &mut rt, &mut nt, mission, anna).unwrap();
    ops.in_progress(&mut store, &mut rt, &mut nt, mission, chief).unwrap();

    let room = rt.subscribe(mission);
    ops.to_completed(&mut store, &mut rt, &mut nt, mission, chief).unwrap();

    // The status message comes first, then one announcement per new award,
    // naming the member and the achievement (chief pass before crew pass).
    let mut seen = Vec::new();
    while let Some(msg) = rt.recv(&room) {
        seen.push(msg.content);
    }
    assert_eq!(
        seen,
        vec![
            "Mission completed: First blood".to_string(),
            "Chief earned achievement: Finisher".to_string(),
            "Anna earned achievement: Finisher".to_string(),
        ]
    );

    // The persisted log carries the same three lines after the lifecycle
    // messages that preceded the subscription.
    let log: Vec<String> = store
        .messages
        .iter()
        .map(|m| m.content.clone())
        .collect();
    assert!(log.ends_with(&[
        "Mission completed: First blood".to_string(),
        "Chief earned achievement: Finisher".to_string(),
        "Anna earned achievement: Finisher".to_string(),
    ]));
}
