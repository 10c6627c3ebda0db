use benilla_app::net::apply::{
    addressed_store, apply_unpeeled, emblem_answered, flush_pending, honor_text, tag_self_player,
    Landing, Scene, Staged, UnitFacts, Untagged,
};
use benilla_app::net::events::{SessionEvent, SessionEventKind};
use benilla_app::net::handlers::{is_broadcast, CensusRow, NetHandlers, TableCall};
use benilla_app::net::steps::{draws_stamp, Broadcast, CooldownStore, MirrorTimerEdge, Step};
use std::collections::{HashMap, HashSet};

const ON_QUEUED: u64 = 1;
const ON_LOGGED_OUT: u64 = 2;
const ON_LOGGED_OUT_TOO: u64 = 3;
const ON_DISCONNECTED: u64 = 4;

/// One drain, as a log: what the dispatch saw, and then what each handler saw. `packets` are the
/// events of the drain, each with the name its handler logs it under.
fn run(table: &NetHandlers, packets: &[(SessionEvent, &str)]) -> Vec<String> {
    let kinds: Vec<SessionEventKind> = packets.iter().map(|(e, _)| e.kind()).collect();
    let mut log: Vec<String> = table
        .dispatch(&kinds)
        .to_match
        .iter()
        .map(|at| format!("match:{:?}", kinds[*at]))
        .collect();
    for call in table.run_all(&kinds) {
        log.push(match call.handler {
            ON_QUEUED => format!("queued:{}", packets[call.packet].1),
            ON_LOGGED_OUT => String::from("logged_out"),
            ON_LOGGED_OUT_TOO => String::from("logged_out_too"),
            ON_DISCONNECTED => format!("disconnected:{}", packets[call.packet].1),
            other => panic!("{other}"),
        });
    }
    log
}

#[test]
fn owned_kinds_run_in_packet_order_after_the_match_has_run_the_rest() {
    let mut table = NetHandlers::new();
    table.push(SessionEventKind::LoginQueued, ON_QUEUED);
    table.push(SessionEventKind::LoggedOut, ON_LOGGED_OUT);
    let log = run(
        &table,
        &[
            (SessionEvent::LoginQueued, "1"),
            (SessionEvent::LoginStage, ""),
            (SessionEvent::LoggedOut, ""),
            (SessionEvent::LoginQueued, "2"),
        ],
    );
    assert_eq!(
        log,
        vec!["match:LoginStage", "queued:1", "logged_out", "queued:2"]
    );
}

#[test]
fn several_handlers_on_one_kind_run_in_registration_order_each_with_the_event() {
    let mut table = NetHandlers::new();
    table.push(SessionEventKind::LoggedOut, ON_LOGGED_OUT);
    table.push(SessionEventKind::LoggedOut, ON_LOGGED_OUT_TOO);
    let log = run(&table, &[(SessionEvent::LoggedOut, "")]);
    assert_eq!(log, vec!["logged_out", "logged_out_too"]);
    let census = table.census();
    assert_eq!(census.len(), 1);
    assert_eq!(census[0].kind, SessionEventKind::LoggedOut);
    assert_eq!(census[0].handlers.len(), 2);
}

#[test]
fn a_broadcast_kind_reaches_the_match_and_the_table() {
    let mut table = NetHandlers::new();
    table.push(SessionEventKind::Disconnected, ON_DISCONNECTED);
    let log = run(&table, &[(SessionEvent::Disconnected, "socket")]);
    assert_eq!(log, vec!["match:Disconnected", "disconnected:socket"]);
    assert!(is_broadcast(SessionEventKind::Disconnected));
    assert!(!is_broadcast(SessionEventKind::LoggedOut));
}

#[test]
fn with_no_table_at_all_everything_goes_to_the_match() {
    let table = NetHandlers::new();
    let log = run(
        &table,
        &[(SessionEvent::LoggedOut, ""), (SessionEvent::LoginQueued, "0")],
    );
    assert_eq!(log, vec!["match:LoggedOut", "match:LoginQueued"]);
    assert!(table.census().is_empty());
}

#[test]
fn a_claimed_kind_is_told_apart_by_its_number() {
    let mut table = NetHandlers::new();
    table.push(SessionEventKind::Claimed(7), 70);
    table.push(SessionEventKind::Chat, 80);
    assert!(table.handles(SessionEventKind::Claimed(7)));
    assert!(!table.handles(SessionEventKind::Claimed(8)));
    assert_eq!(table.run(SessionEventKind::Claimed(7)), vec![70]);
    assert!(table.run(SessionEventKind::Claimed(8)).is_empty());
    let calls = table.run_all(&vec![SessionEventKind::Claimed(8), SessionEventKind::Claimed(7)]);
    assert_eq!(calls, vec![TableCall { packet: 1, handler: 70 }]);
    let mut census = table.census();
    census.sort_by_key(|row| row.handlers[0]);
    assert_eq!(
        census,
        vec![
            CensusRow { kind: SessionEventKind::Claimed(7), handlers: vec![70] },
            CensusRow { kind: SessionEventKind::Chat, handlers: vec![80] },
        ]
    );
}

const ME: u64 = 5;
const PET: u64 = 6;
const NPC: u64 = 7;

fn scene() -> Scene {
    let facts = |dead, spirit, npc_flags| UnitFacts {
        dead,
        spirit,
        npc_flags,
    };
    Scene {
        self_guid: Some(ME),
        index: HashMap::from([(ME, 50), (NPC, 70), (8, 80)]),
        stores: HashMap::from([(50, facts(false, false, 0)), (70, facts(false, false, 0x200))]),
        moving: HashSet::from([70]),
        rooted: HashSet::from([NPC]),
        ignored: HashSet::from([99]),
        pet: Some(PET),
        periodic: true,
        engaged: true,
        current_map: None,
    }
}

fn steps(event: SessionEvent) -> Vec<Step> {
    apply_unpeeled(&event, &scene())
}

#[test]
fn a_plain_event_reaches_its_one_handler() {
    assert_eq!(steps(SessionEvent::LoginQueued), vec![Step::WriteLoginQueued]);
    assert_eq!(steps(SessionEvent::MailList), vec![Step::MailMailList]);
    assert_eq!(steps(SessionEvent::WorldStates), vec![Step::WorldWorldStates]);
    assert_eq!(
        steps(SessionEvent::DefenseMessage),
        vec![Step::ChatBroadcast { what: Broadcast::Defense }]
    );
    assert_eq!(
        steps(SessionEvent::MirrorTimerPause),
        vec![Step::PushMirrorTimer { edge: MirrorTimerEdge::Pause }]
    );
    assert_eq!(
        steps(SessionEvent::FishEscaped),
        vec![Step::LootFishVerdict { escaped: true }]
    );
    assert_eq!(
        steps(SessionEvent::Claimed { number: 300 }),
        vec![Step::ReportUnrouted { number: 300 }]
    );
}

#[test]
fn a_leaving_object_is_seen_by_the_corpse_and_the_party_first() {
    assert_eq!(
        steps(SessionEvent::ObjectDestroyed { guid: NPC }),
        vec![
            Step::DeathForgetCorpse { guid: NPC },
            Step::GroupMemberDeactivated { guid: NPC, stored: true },
            Step::ObjectsObjectDestroyed { guid: NPC },
        ]
    );
    assert_eq!(
        steps(SessionEvent::ObjectsRemoved { guids: vec![8, NPC, 1234] }),
        vec![
            Step::GroupMemberDeactivated { guid: 8, stored: false },
            Step::GroupMemberDeactivated { guid: NPC, stored: true },
            Step::GroupMemberDeactivated { guid: 1234, stored: false },
            Step::ObjectsObjectsRemoved,
        ]
    );
    assert_eq!(
        steps(SessionEvent::Worldport),
        vec![Step::GroupRosterDeactivated, Step::SessionWorldport]
    );
}

#[test]
fn a_skipped_clock_reaches_only_a_mover_we_hold() {
    assert_eq!(
        steps(SessionEvent::MoveTimeSkipped { guid: NPC, lag_ms: 40 }),
        vec![Step::RelaySkipTime { entity: 70, lag_ms: 40 }]
    );
    assert!(steps(SessionEvent::MoveTimeSkipped { guid: ME, lag_ms: 40 }).is_empty());
    assert!(steps(SessionEvent::MoveTimeSkipped { guid: 1234, lag_ms: 40 }).is_empty());
}

#[test]
fn a_cooldown_packet_reaches_the_store_it_addresses() {
    let cleared = |caster| steps(SessionEvent::ClearCooldown { spell_id: 9, caster });
    let to = |store, caster| vec![Step::SpellsClearCooldown { store, spell_id: 9, caster }];
    assert_eq!(cleared(ME), to(CooldownStore::Player, ME));
    assert_eq!(cleared(PET), to(CooldownStore::Pet, PET));
    assert!(cleared(NPC).is_empty());
    assert!(steps(SessionEvent::SpellCooldowns { caster: NPC }).is_empty());
    assert!(steps(SessionEvent::CooldownCheat { caster: NPC }).is_empty());
    assert_eq!(addressed_store(ME, Some(ME), Some(ME)), Some(CooldownStore::Player));
    assert_eq!(addressed_store(ME, None, None), None);
}

#[test]
fn an_honor_award_is_logged_and_floated() {
    assert_eq!(
        steps(SessionEvent::PvpCredit { honor: -3, victim_guid: 4, victim_rank: 256 }),
        vec![
            Step::ChatLogPushPvpCredit { honor: -3, victim_guid: 4, rank: 0 },
            Step::CombatTextHonorGained { honor: -3 },
        ]
    );
    let ranked = steps(SessionEvent::PvpCredit { honor: 1, victim_guid: 4, victim_rank: 255 });
    assert_eq!(
        ranked[0],
        Step::ChatLogPushPvpCredit { honor: 1, victim_guid: 4, rank: 255 }
    );
    assert_eq!(honor_text(-3), "-3");
    assert_eq!(honor_text(0), "0");
    assert_eq!(honor_text(198), "198");
    assert_eq!(honor_text(i32::MIN), "-2147483648");
}

#[test]
fn a_question_without_a_trainer_is_not_asked() {
    assert!(steps(SessionEvent::TalentWipeConfirm { trainer: 0, cost: 1 }).is_empty());
    assert_eq!(
        steps(SessionEvent::TalentWipeConfirm { trainer: 3, cost: 1 }),
        vec![Step::TalentWipeAsk { trainer: 3, cost: 1 }]
    );
    assert_eq!(
        steps(SessionEvent::PetUnlearnConfirm { trainer: 0, cost: 1 }),
        vec![Step::UiErrorTalentWipe]
    );
    assert_eq!(
        steps(SessionEvent::PetUnlearnConfirm { trainer: 3, cost: 1 }),
        vec![Step::PetUnlearnAsk { trainer: 3, cost: 1 }]
    );
}

#[test]
fn a_handler_is_told_what_the_scene_shows() {
    assert_eq!(
        steps(SessionEvent::SummonRequest),
        vec![Step::SummonRequest { dead_or_ghost: false }]
    );
    let mut ghostly = scene();
    ghostly.stores.insert(
        50,
        UnitFacts {
            dead: false,
            spirit: true,
            npc_flags: 0,
        },
    );
    assert_eq!(
        apply_unpeeled(&SessionEvent::SummonRequest, &ghostly),
        vec![Step::SummonRequest { dead_or_ghost: true }]
    );
    assert_eq!(
        steps(SessionEvent::PetitionShowList { npc: NPC }),
        vec![Step::PetitionShowList { npc_flags: Some(0x200) }]
    );
    assert_eq!(
        steps(SessionEvent::PetitionShowList { npc: 8 }),
        vec![Step::PetitionShowList { npc_flags: None }]
    );
    assert_eq!(
        steps(SessionEvent::DuelRequested { challenger: 99 }),
        vec![Step::DuelRequested { self_guid: Some(ME), ignored: true }]
    );
    assert_eq!(
        steps(SessionEvent::ReadyCheckAnswer { guid: 3, ready: 2 }),
        vec![Step::GroupApplyReadyCheckAnswer { guid: 3, ready: true }]
    );
    assert_eq!(
        steps(SessionEvent::MonsterMove { guid: NPC }),
        vec![Step::ObjectsMonsterMove { rooted: true }]
    );
    assert_eq!(
        steps(SessionEvent::MonsterMove { guid: ME }),
        vec![Step::ObjectsMonsterMove { rooted: false }]
    );
    assert_eq!(steps(SessionEvent::GossipPoi), vec![Step::NpcGossipPoi { map: 0 }]);
    assert_eq!(steps(SessionEvent::SpellGo), vec![Step::SpellsSpellGo { engaged: true }]);
    assert_eq!(
        steps(SessionEvent::PlayedTime { total: 10, level: 4 }),
        vec![
            Step::AnswerPlayedTime { total: 10, level: 4 },
            Step::ChatPlayedTime { total: 10, level: 4 },
        ]
    );
}

#[test]
fn periodic_packets_follow_their_setting() {
    assert_eq!(
        steps(SessionEvent::PeriodicAuraLog),
        vec![Step::CombatChatPeriodicAuraLog, Step::CombatLogPeriodicAuraLog]
    );
    let mut quiet = scene();
    quiet.periodic = false;
    assert!(apply_unpeeled(&SessionEvent::PeriodicAuraLog, &quiet).is_empty());
}

#[test]
fn an_event_draws_one_stamp_at_most() {
    let drawn = steps(SessionEvent::AttackerState);
    assert_eq!(
        drawn,
        vec![Step::CombatChatAttackerState, Step::CombatAttackerState]
    );
    assert!(!draws_stamp(&drawn[0]));
    assert!(draws_stamp(&drawn[1]));
    assert!(draws_stamp(&Step::SpellsSpellGo { engaged: false }));
    assert!(!draws_stamp(&Step::ChatChat));
}

#[test]
fn a_saved_emblem_evicts_the_guilds_record() {
    assert_eq!(emblem_answered(true), vec![Step::GuildEvictOwnIdentity]);
    assert!(emblem_answered(false).is_empty());
}

#[test]
fn a_staged_descriptor_lands_while_its_object_is_indexed() {
    let pending = vec![
        Staged { guid: 1, fields: 10 },
        Staged { guid: 2, fields: 20 },
        Staged { guid: 3, fields: 30 },
    ];
    let index = HashMap::from([(1, 100), (3, 300)]);
    assert_eq!(
        flush_pending(&pending, &index),
        vec![
            Landing { entity: 100, fields: 10 },
            Landing { entity: 300, fields: 30 },
        ]
    );
}

#[test]
fn our_own_player_is_tagged_once_it_is_named() {
    let untagged = vec![
        Untagged { entity: 10, guid: 1 },
        Untagged { entity: 50, guid: ME },
    ];
    assert!(tag_self_player(None, &untagged).is_empty());
    assert_eq!(tag_self_player(Some(ME), &untagged), vec![50]);
}
