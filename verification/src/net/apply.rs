//! The dispatch of a session's events: which handlers an event reaches, in which order and with
//! which decided arguments, and what the end of a drain still owes the objects born in it.
use crate::net::events::{kind_of, SessionEvent};
use crate::net::steps::{stamped, Broadcast, CooldownStore, MirrorTimerEdge, Step};
use crate::text::{signed_decimal, signed_digits};
use std::collections::HashMap;
use std::collections::HashSet;
use vstd::prelude::*;

verus! {

broadcast use vstd::std_specs::hash::group_hash_axioms;

/// The answer to a ticket creation that makes the client ask for the ticket again.
pub const TICKET_CREATED: u32 = 2;

/// The answer to a ticket update that makes the client ask for the ticket again.
pub const TICKET_UPDATED: u32 = 4;

/// What the dispatch reads of a streamed object's descriptor.
#[derive(Clone, Copy, Debug, PartialEq, Eq, Structural)]
pub struct UnitFacts {
    pub dead: bool,
    pub spirit: bool,
    pub npc_flags: u32,
}

/// What the dispatch reads of the client when an event comes up.
pub struct Scene {
    /// Our own player, once the session has named it.
    pub self_guid: Option<u64>,
    /// The entity of each streamed object.
    pub index: HashMap<u64, u64>,
    /// The descriptor of each entity that has one.
    pub stores: HashMap<u64, UnitFacts>,
    /// The entities that carry a replayed movement chain.
    pub moving: HashSet<u64>,
    /// The units whose movement modes root them to the spot.
    pub rooted: HashSet<u64>,
    /// The players on the ignore list.
    pub ignored: HashSet<u64>,
    /// The pet whose bar is up.
    pub pet: Option<u64>,
    /// Periodic damage and healing reach the combat log.
    pub periodic: bool,
    /// Our own player is engaged in melee.
    pub engaged: bool,
    /// The map we stand on.
    pub current_map: Option<u32>,
}

/// The descriptor of the object `guid`, while it is streamed and has one.
pub open spec fn facts_of(scene: Scene, guid: Option<u64>) -> Option<UnitFacts> {
    match guid {
        Some(g) if scene.index@.contains_key(g) && scene.stores@.contains_key(scene.index@[g]) => {
            Some(scene.stores@[scene.index@[g]])
        },
        _ => None,
    }
}

/// Reads the descriptor of the object `guid`.
pub fn read_facts(scene: &Scene, guid: Option<u64>) -> (r: Option<UnitFacts>)
    ensures
        r == facts_of(*scene, guid),
{
    match guid {
        Some(g) => match scene.index.get(&g) {
            Some(entity) => match scene.stores.get(entity) {
                Some(facts) => Some(*facts),
                None => None,
            },
            None => None,
        },
        None => None,
    }
}

/// A player counts as gone when dead or a ghost; one whose object is not streamed counts as alive.
pub open spec fn gone(facts: Option<UnitFacts>) -> bool {
    match facts {
        Some(f) => f.dead || f.spirit,
        None => false,
    }
}

/// Decides whether a player is dead or a ghost.
pub fn is_gone(facts: Option<UnitFacts>) -> (r: bool)
    ensures
        r == gone(facts),
{
    match facts {
        Some(f) => f.dead || f.spirit,
        None => false,
    }
}

/// The role flags of an object, where its descriptor is known.
pub open spec fn flags_of(facts: Option<UnitFacts>) -> Option<u32> {
    match facts {
        Some(f) => Some(f.npc_flags),
        None => None,
    }
}

/// Reads the role flags of an object.
pub fn read_flags(facts: Option<UnitFacts>) -> (r: Option<u32>)
    ensures
        r == flags_of(facts),
{
    match facts {
        Some(f) => Some(f.npc_flags),
        None => None,
    }
}

/// Our own guid, or 0 before the session has named it.
pub open spec fn or_zero(guid: Option<u64>) -> u64 {
    match guid {
        Some(g) => g,
        None => 0,
    }
}

/// Reads our own guid, or 0.
pub fn self_or_zero(guid: Option<u64>) -> (r: u64)
    ensures
        r == or_zero(guid),
{
    match guid {
        Some(g) => g,
        None => 0,
    }
}

/// The map we stand on, or 0 before we stand on one.
pub open spec fn map_or_zero(map: Option<u32>) -> u32 {
    match map {
        Some(m) => m,
        None => 0,
    }
}

/// Reads the map we stand on, or 0.
pub fn read_map(map: Option<u32>) -> (r: u32)
    ensures
        r == map_or_zero(map),
{
    match map {
        Some(m) => m,
        None => 0,
    }
}

/// The cooldown store that a packet for `caster` addresses: the player's for our own guid, the
/// pet's for the pet whose bar is up, and none for any other.
pub open spec fn store_of(
    caster: u64,
    self_guid: Option<u64>,
    pet: Option<u64>,
) -> Option<CooldownStore> {
    if self_guid == Some(caster) {
        Some(CooldownStore::Player)
    } else if pet == Some(caster) {
        Some(CooldownStore::Pet)
    } else {
        None
    }
}

/// Finds the cooldown store that a packet addresses.
pub fn addressed_store(caster: u64, self_guid: Option<u64>, pet: Option<u64>) -> (r: Option<
    CooldownStore,
>)
    ensures
        r == store_of(caster, self_guid, pet),
{
    if let Some(me) = self_guid {
        if me == caster {
            return Some(CooldownStore::Player);
        }
    }
    if let Some(p) = pet {
        if p == caster {
            return Some(CooldownStore::Pet);
        }
    }
    None
}

/// A skipped stretch of a mover's clock reaches its replay chain, where there is one.
pub open spec fn skipped_time(scene: Scene, guid: u64, lag_ms: u32) -> Seq<Step> {
    if scene.index@.contains_key(guid) && scene.moving@.contains(scene.index@[guid]) {
        seq![Step::RelaySkipTime { entity: scene.index@[guid], lag_ms }]
    } else {
        seq![]
    }
}

fn skip_time(scene: &Scene, guid: u64, lag_ms: u32) -> (r: Vec<Step>)
    ensures
        r@ == skipped_time(*scene, guid, lag_ms),
{
    if let Some(entity) = scene.index.get(&guid) {
        if scene.moving.contains(entity) {
            return one(Step::RelaySkipTime { entity: *entity, lag_ms });
        }
    }
    Vec::new()
}

/// The party's view of an object that goes, which still sees its descriptor.
pub open spec fn deactivated(scene: Scene, guid: u64) -> Step {
    Step::GroupMemberDeactivated { guid, stored: facts_of(scene, Some(guid)) is Some }
}

fn deactivate(scene: &Scene, guid: u64) -> (r: Step)
    ensures
        r == deactivated(*scene, guid),
{
    let stored = read_facts(scene, Some(guid)).is_some();
    Step::GroupMemberDeactivated { guid, stored }
}

/// Objects that leave together: the party hears of each, in packet order, before they go.
pub open spec fn removed(scene: Scene, guids: Seq<u64>) -> Seq<Step> {
    guids.map_values(|guid: u64| deactivated(scene, guid)).push(Step::ObjectsObjectsRemoved)
}

fn remove_objects(scene: &Scene, guids: &Vec<u64>) -> (r: Vec<Step>)
    ensures
        r@ == removed(*scene, guids@),
{
    let mut steps: Vec<Step> = Vec::new();
    let mut i: usize = 0;
    while i < guids.len()
        invariant
            i <= guids@.len(),
            steps@.len() == i,
            forall|k: int| 0 <= k < i ==> steps@[k] == deactivated(*scene, #[trigger] guids@[k]),
        decreases guids@.len() - i,
    {
        steps.push(deactivate(scene, guids[i]));
        i += 1;
    }
    steps.push(Step::ObjectsObjectsRemoved);
    assert(steps@ =~= removed(*scene, guids@));
    steps
}

/// An honor award: the combat-log line, with the victim's rank or 0 where it is no byte, and the
/// floating number, signed.
pub open spec fn credited(honor: i32, victim_guid: u64, victim_rank: i64) -> Seq<Step> {
    let rank = if 0 <= victim_rank <= 255 { victim_rank as u8 } else { 0 };
    seq![
        Step::ChatLogPushPvpCredit { honor, victim_guid, rank },
        Step::CombatTextHonorGained { honor },
    ]
}

fn credit(honor: i32, victim_guid: u64, victim_rank: i64) -> (r: Vec<Step>)
    ensures
        r@ == credited(honor, victim_guid, victim_rank),
{
    let rank: u8 = if 0 <= victim_rank && victim_rank <= 255 { victim_rank as u8 } else { 0 };
    two(
        Step::ChatLogPushPvpCredit { honor, victim_guid, rank },
        Step::CombatTextHonorGained { honor },
    )
}

/// Writes the number that an honor award floats: its decimal digits, with a sign where negative.
pub fn honor_text(honor: i32) -> (r: String)
    ensures
        r@ == signed_digits(honor as int),
{
    signed_decimal(honor as i64)
}

/// A trainer's talent question is asked; a zero trainer is a refusal, and asks nothing.
pub open spec fn wiped_talents(trainer: u64, cost: u32) -> Seq<Step> {
    if trainer == 0 {
        seq![]
    } else {
        seq![Step::TalentWipeAsk { trainer, cost }]
    }
}

fn wipe_talents(trainer: u64, cost: u32) -> (r: Vec<Step>)
    ensures
        r@ == wiped_talents(trainer, cost),
{
    if trainer == 0 {
        Vec::new()
    } else {
        one(Step::TalentWipeAsk { trainer, cost })
    }
}

/// A trainer's question about the pet is asked; a zero trainer is an error line.
pub open spec fn unlearned_pet(trainer: u64, cost: u32) -> Seq<Step> {
    if trainer == 0 {
        seq![Step::UiErrorTalentWipe]
    } else {
        seq![Step::PetUnlearnAsk { trainer, cost }]
    }
}

fn unlearn_pet(trainer: u64, cost: u32) -> (r: Vec<Step>)
    ensures
        r@ == unlearned_pet(trainer, cost),
{
    if trainer == 0 {
        one(Step::UiErrorTalentWipe)
    } else {
        one(Step::PetUnlearnAsk { trainer, cost })
    }
}

fn one(a: Step) -> (r: Vec<Step>)
    ensures
        r@ == seq![a],
{
    let mut steps: Vec<Step> = Vec::new();
    steps.push(a);
    assert(steps@ =~= seq![a]);
    steps
}

fn two(a: Step, b: Step) -> (r: Vec<Step>)
    ensures
        r@ == seq![a, b],
{
    let mut steps: Vec<Step> = Vec::new();
    steps.push(a);
    steps.push(b);
    assert(steps@ =~= seq![a, b]);
    steps
}

fn three(a: Step, b: Step, c: Step) -> (r: Vec<Step>)
    ensures
        r@ == seq![a, b, c],
{
    let mut steps: Vec<Step> = Vec::new();
    steps.push(a);
    steps.push(b);
    steps.push(c);
    assert(steps@ =~= seq![a, b, c]);
    steps
}

/// The steps an event takes, in order.
pub open spec fn routed(event: SessionEvent, scene: Scene) -> Seq<Step> {
    match event {
        SessionEvent::LoginStage => seq![Step::SessionLoginStage],
        SessionEvent::LoginQueued => seq![Step::WriteLoginQueued],
        SessionEvent::LoginFailed => seq![Step::SessionLoginFailed],
        SessionEvent::RealmList => seq![Step::WriteRealmList],
        SessionEvent::CharacterList => seq![Step::SessionCharacterList],
        SessionEvent::CharActionResult => seq![Step::SessionCharActionResult],
        SessionEvent::CharacterLoginFailed => seq![Step::SessionCharacterLoginFailed],
        SessionEvent::CinematicTriggered => seq![Step::SessionCinematicTriggered],
        SessionEvent::Connected => seq![Step::SessionConnected],
        SessionEvent::LoggedOut => seq![Step::SessionLoggedOut],
        SessionEvent::LogoutResponse => seq![Step::LogoutApplyResponse],
        SessionEvent::LogoutCancelled => seq![Step::LogoutApplyCancelled],
        SessionEvent::Disconnected => seq![Step::SessionDisconnected],
        SessionEvent::ObjectCreate => seq![Step::DeathNoteCorpse, Step::ObjectsObjectCreate],
        SessionEvent::ItemCreate => seq![Step::ObjectsItemCreate],
        SessionEvent::ObjectMove => seq![Step::ObjectsObjectMove],
        SessionEvent::MoveTimeSkipped { guid, lag_ms } => skipped_time(scene, guid, lag_ms),
        SessionEvent::UnitMove => seq![Step::ObjectsUnitMove],
        SessionEvent::ObjectValues => seq![Step::DeathRecheckCorpse, Step::ObjectsObjectValues],
        SessionEvent::ObjectDestroyed { guid } => seq![
            Step::DeathForgetCorpse { guid },
            deactivated(scene, guid),
            Step::ObjectsObjectDestroyed { guid },
        ],
        SessionEvent::ObjectsRemoved { guids } => removed(scene, guids@),
        SessionEvent::MonsterMove { guid } => seq![Step::ObjectsMonsterMove { rooted: scene.rooted@.contains(guid) }],
        SessionEvent::Teleport => seq![Step::SessionTeleport],
        SessionEvent::Worldport => seq![Step::GroupRosterDeactivated, Step::SessionWorldport],
        SessionEvent::TransferPending => seq![Step::SessionTransferPending],
        SessionEvent::TransferAborted => seq![Step::SessionTransferAborted],
        SessionEvent::TimeSpeed => seq![Step::SessionTimeSpeed],
        SessionEvent::ServerUnixTime => seq![Step::SessionServerUnixTime],
        SessionEvent::Reputations => seq![Step::SessionReputations],
        SessionEvent::ReputationDelta => seq![Step::CombatChatFactionStanding, Step::SessionReputationDelta],
        SessionEvent::ReputationVisible => seq![Step::SessionReputationVisible],
        SessionEvent::BindPoint { area } => seq![Step::SetHomeBind { area }],
        SessionEvent::InspectHonorStats => seq![Step::KeepInspectHonor],
        SessionEvent::PvpCredit { honor, victim_guid, victim_rank } => credited(honor, victim_guid, victim_rank),
        SessionEvent::BinderConfirm { npc } => seq![Step::BinderAsk { npc }],
        SessionEvent::SummonRequest => seq![Step::SummonRequest { dead_or_ghost: gone(facts_of(scene, scene.self_guid)) }],
        SessionEvent::GmTicket => seq![Step::GmTicketAnswer],
        SessionEvent::GmTicketSystemStatus => seq![Step::GmTicketAnswerQueue],
        SessionEvent::GmTicketStatusUpdate => seq![Step::GmTicketApplyStatusUpdate],
        SessionEvent::GmTicketCreated { response } => seq![Step::GmTicketCreateResponse { response, success: TICKET_CREATED }],
        SessionEvent::GmTicketUpdated { response } => seq![Step::GmTicketUpdateResponse { response, success: TICKET_UPDATED }],
        SessionEvent::GmTicketDeleted { response } => seq![Step::GmTicketDeleteResponse { response }],
        SessionEvent::TalentWipeConfirm { trainer, cost } => wiped_talents(trainer, cost),
        SessionEvent::PetUnlearnConfirm { trainer, cost } => unlearned_pet(trainer, cost),
        SessionEvent::RaidGroupOnly => seq![Step::InstanceBootApply],
        SessionEvent::AreaSpiritHealerTime => seq![Step::AreaSpiritOnTime],
        SessionEvent::BattlefieldStatus => seq![Step::BattlefieldQueueApply],
        SessionEvent::PvpLogData => seq![Step::BattlefieldScoreboardApply],
        SessionEvent::BattlefieldList => seq![Step::BattlefieldApplyList],
        SessionEvent::GroupJoinedBattleground => seq![Step::BattlefieldApplyVerdict],
        SessionEvent::BattlegroundPlayer => seq![Step::BattlefieldApplyPlayer],
        SessionEvent::MeetingStoneSetQueue => seq![Step::MeetingStoneApply],
        SessionEvent::MeetingStoneNotice => seq![Step::MeetingStoneApplyNotice],
        SessionEvent::TutorialFlags => seq![Step::TutorialsApplyFlags],
        SessionEvent::BattlefieldPositions => seq![Step::BattlefieldPositionsApply],
        SessionEvent::TabardVendorActivate => seq![Step::TabardOpen],
        SessionEvent::SaveGuildEmblemResult => seq![Step::TabardApplyResult],
        SessionEvent::PlayerBound => seq![Step::BinderBound],
        SessionEvent::Proficiency { item_class, subclass_mask } => seq![Step::ProficienciesInsert { item_class, subclass_mask }],
        SessionEvent::PlayerName => seq![Step::NamesPlayerName],
        SessionEvent::PetName => seq![Step::NamesPetName],
        SessionEvent::CreatureName => seq![Step::NamesCreatureName],
        SessionEvent::GameObjectInfo => seq![Step::ObjectsGameobjectInfo],
        SessionEvent::GameObjectCustomAnim => seq![Step::ObjectsGameobjectCustomAnim],
        SessionEvent::GameObjectDespawnAnim => seq![Step::ObjectsGameobjectDespawnAnim],
        SessionEvent::FishNotHooked => seq![Step::LootFishVerdict { escaped: false }],
        SessionEvent::FishEscaped => seq![Step::LootFishVerdict { escaped: true }],
        SessionEvent::PlaySound => seq![Step::WorldPlaySound],
        SessionEvent::PlayMusic => seq![Step::WorldPlayMusic],
        SessionEvent::PlayObjectSound => seq![Step::WorldPlayObjectSound],
        SessionEvent::Weather => seq![Step::WorldWeather],
        SessionEvent::TextEmote => seq![Step::AnimTextEmote],
        SessionEvent::Emote => seq![Step::AnimEmote],
        SessionEvent::SpellBook => seq![Step::SpellsSpellBook],
        SessionEvent::ActionButtons => seq![Step::SpellsActionButtons],
        SessionEvent::SpellLearned => seq![Step::SpellsLearnedSpell],
        SessionEvent::SpellRemoved => seq![Step::SpellsRemovedSpell],
        SessionEvent::SpellSuperceded => seq![Step::SpellsSupercededSpell],
        SessionEvent::CastResult => seq![Step::SpellsCastResult],
        SessionEvent::InventoryFailure => seq![Step::LootInventoryFailure],
        SessionEvent::Chat => seq![Step::ChatChat],
        SessionEvent::ChannelNotify => seq![Step::ChatLogPushChannelNotice],
        SessionEvent::ChannelList => seq![Step::ChatChannelList],
        SessionEvent::ChatPlayerNotFound => seq![Step::ChatPlayerNotFound],
        SessionEvent::ChatWrongFaction => seq![Step::ChatWrongFaction],
        SessionEvent::ZoneUnderAttack => seq![Step::ChatBroadcast { what: Broadcast::ZoneUnderAttack }],
        SessionEvent::DefenseMessage => seq![Step::ChatBroadcast { what: Broadcast::Defense }],
        SessionEvent::ServerMessage => seq![Step::ChatBroadcast { what: Broadcast::Server }],
        SessionEvent::ChatRestricted => seq![Step::ChatBroadcast { what: Broadcast::ChatRestricted }],
        SessionEvent::Notification => seq![Step::ChatNotification],
        SessionEvent::AreaTriggerMessage => seq![Step::ChatAreaTriggerMessage],
        SessionEvent::PlayedTime { total, level } => seq![Step::AnswerPlayedTime { total, level }, Step::ChatPlayedTime { total, level }],
        SessionEvent::RandomRoll => seq![Step::ChatLogPushRoll],
        SessionEvent::GroupInvite => seq![Step::GroupInvited],
        SessionEvent::GroupDecline => seq![Step::GroupDeclined],
        SessionEvent::GroupUninvited => seq![Step::GroupUninvited],
        SessionEvent::GroupLeaderChanged => seq![Step::GroupLeaderChanged],
        SessionEvent::GroupDestroyed => seq![Step::GroupDestroyed],
        SessionEvent::GroupList => seq![Step::GroupList],
        SessionEvent::PartyCommandResult => seq![Step::GroupCommandResult],
        SessionEvent::PartyMemberStats => seq![Step::GroupApplyStats],
        SessionEvent::RaidTargetSet => seq![Step::GroupApplyRaidTarget],
        SessionEvent::RaidTargetList => seq![Step::GroupApplyRaidTargetList],
        SessionEvent::ReadyCheckRequest => seq![Step::GroupReadyCheckRequest],
        SessionEvent::RaidInstanceInfo => seq![Step::GroupApplyRaidInstanceInfo],
        SessionEvent::MinimapPing => seq![Step::PingSeat],
        SessionEvent::ReadyCheckAnswer { guid, ready } => seq![Step::GroupApplyReadyCheckAnswer { guid, ready: ready != 0 }],
        SessionEvent::DuelRequested { challenger } => seq![
            Step::DuelRequested {
                self_guid: scene.self_guid,
                ignored: scene.ignored@.contains(challenger),
            },
        ],
        SessionEvent::RaidInstanceMessage => seq![Step::InstanceRaidInstanceMessage],
        SessionEvent::InstanceSaveCreated => seq![Step::InstanceSaveCreated],
        SessionEvent::InstanceReset => seq![Step::InstanceReset],
        SessionEvent::InstanceResetFailed => seq![Step::InstanceResetFailed],
        SessionEvent::UpdateLastInstance => seq![Step::InstanceUpdateLastInstance],
        SessionEvent::UpdateInstanceOwnership => seq![Step::InstanceUpdateOwnership],
        SessionEvent::DuelOutOfBounds => seq![Step::DuelBounds { out: true }],
        SessionEvent::DuelInBounds => seq![Step::DuelBounds { out: false }],
        SessionEvent::DuelComplete => seq![Step::DuelComplete],
        SessionEvent::DuelWinner => seq![Step::DuelWinner],
        SessionEvent::DuelCountdown => seq![Step::DuelCountdown],
        SessionEvent::MirrorTimerStart => seq![Step::PushMirrorTimer { edge: MirrorTimerEdge::Start }],
        SessionEvent::MirrorTimerPause => seq![Step::PushMirrorTimer { edge: MirrorTimerEdge::Pause }],
        SessionEvent::MirrorTimerStop => seq![Step::PushMirrorTimer { edge: MirrorTimerEdge::Stop }],
        SessionEvent::FriendList => seq![Step::SocialFriendList],
        SessionEvent::IgnoreList => seq![Step::SocialIgnoreList],
        SessionEvent::FriendStatus => seq![Step::SocialFriendStatus],
        SessionEvent::WhoResults => seq![Step::SocialWho],
        SessionEvent::GuildQueryResponse => seq![Step::GuildQueryResponse],
        SessionEvent::GuildRoster => seq![Step::GuildRoster],
        SessionEvent::GuildEvent => seq![Step::GuildEvent { self_guid: scene.self_guid }],
        SessionEvent::GuildCommandResult => seq![Step::GuildCommandResult],
        SessionEvent::GuildInvite => seq![Step::GuildInvite],
        SessionEvent::GuildDecline => seq![Step::GuildDecline],
        SessionEvent::GuildInfo => seq![Step::GuildInfo],
        SessionEvent::PetitionShowList { npc } => seq![Step::PetitionShowList { npc_flags: flags_of(facts_of(scene, Some(npc))) }],
        SessionEvent::PetitionShowSignatures { owner } => seq![
            Step::PetitionShowSignatures { ignored: scene.ignored@.contains(owner) },
        ],
        SessionEvent::PetitionQueryResponse => seq![Step::PetitionQueryResponse],
        SessionEvent::PetitionSignResults => seq![Step::PetitionSignResults { signer: or_zero(scene.self_guid) }],
        SessionEvent::TurnInPetitionResults => seq![Step::PetitionTurnInResults],
        SessionEvent::PetitionDeclined => seq![Step::PetitionDeclined],
        SessionEvent::PetitionRenamed => seq![Step::PetitionRenamed],
        SessionEvent::LootResponse => seq![Step::LootResponse],
        SessionEvent::LootError => seq![Step::LootError],
        SessionEvent::LootRemoved => seq![Step::LootRemoved],
        SessionEvent::LootMoneyNotify => seq![Step::LootMoneyNotify],
        SessionEvent::LootClearMoney => seq![Step::LootClearMoney],
        SessionEvent::LootReleaseResponse => seq![Step::LootReleaseResponse],
        SessionEvent::ItemPushResult => seq![Step::LootItemPushResult],
        SessionEvent::LootStartRoll => seq![Step::LootStartRoll],
        SessionEvent::LootRoll => seq![Step::LootRoll],
        SessionEvent::LootRollWon => seq![Step::LootRollWon],
        SessionEvent::LootAllPassed => seq![Step::LootAllPassed],
        SessionEvent::LootMasterList => seq![Step::LootMasterList],
        SessionEvent::CorpseQuery => seq![Step::DeathCorpseQuery],
        SessionEvent::CorpseReclaimDelay => seq![Step::DeathCorpseReclaimDelay],
        SessionEvent::ResurrectRequest => seq![Step::DeathResurrectRequest],
        SessionEvent::SpiritHealerConfirm => seq![Step::DeathSpiritHealerConfirm],
        SessionEvent::DurabilityDamageDeath => seq![Step::DeathDurabilityDamageDeath],
        SessionEvent::MoveMode => seq![Step::DeathMoveMode],
        SessionEvent::SplineMoveMode => seq![Step::ObjectsSplineMoveMode],
        SessionEvent::KnockBack => seq![Step::SessionKnockBack],
        SessionEvent::ItemTemplate => seq![Step::LootItemTemplate],
        SessionEvent::AttackStart => seq![Step::CombatAttackStart],
        SessionEvent::AttackStop => seq![Step::CombatAttackStop],
        SessionEvent::AiReaction => seq![Step::CombatAiReaction],
        SessionEvent::AttackerState => seq![Step::CombatChatAttackerState, Step::CombatAttackerState],
        SessionEvent::AttackSwingError => seq![Step::CombatAttackSwingError],
        SessionEvent::CancelCombat => seq![Step::CombatCancelCombat],
        SessionEvent::FeignDeathResisted => seq![Step::CombatFeignDeathResisted],
        SessionEvent::SpellDamageLog => seq![Step::CombatChatSpellDamageLog, Step::CombatLogSpellDamageLog],
        SessionEvent::PeriodicAuraLog => if scene.periodic {
            seq![Step::CombatChatPeriodicAuraLog, Step::CombatLogPeriodicAuraLog]
        } else {
            seq![]
        },
        SessionEvent::SpellHealLog => seq![Step::CombatChatSpellHealLog, Step::CombatLogSpellHealLog],
        SessionEvent::SpellEnergizeLog => seq![Step::CombatChatSpellEnergizeLog, Step::CombatLogSpellEnergizeLog],
        SessionEvent::DamageShield => seq![Step::CombatChatDamageShield, Step::CombatLogDamageShield],
        SessionEvent::SpellLogMiss => seq![Step::CombatChatSpellLogMiss, Step::CombatLogSpellLogMiss],
        SessionEvent::PartyKillLog => seq![Step::CombatChatPartyKillLog],
        SessionEvent::SpellInstaKillLog => seq![Step::CombatChatSpellInstaKillLog],
        SessionEvent::ProcResist => seq![Step::CombatChatSpellOutcomeLog { immune: false }],
        SessionEvent::SpellOrDamageImmune => seq![Step::CombatChatSpellOutcomeLog { immune: true }],
        SessionEvent::SpellDispelLog => seq![Step::CombatChatSpellDispelLog],
        SessionEvent::DispelFailed => seq![Step::CombatChatDispelFailed],
        SessionEvent::EnchantmentLog => seq![Step::CombatChatEnchantmentLog],
        SessionEvent::SpellLogExecute => seq![Step::CombatChatSpellLogExecute],
        SessionEvent::XpGain => seq![Step::CombatLogXpGain],
        SessionEvent::ExplorationXp => seq![Step::CombatLogExplorationXp],
        SessionEvent::LevelUp => seq![Step::CombatLogLevelUp],
        SessionEvent::SpellStart => seq![Step::SpellsSpellStart],
        SessionEvent::SpellGo => seq![Step::SpellsSpellGo { engaged: scene.engaged }],
        SessionEvent::SpellChainTargets => seq![Step::SpellsSpellChainTargets],
        SessionEvent::SpellFailedOther => seq![Step::SpellsSpellFailedOther],
        SessionEvent::SpellDelayed => seq![Step::SpellsSpellDelayed],
        SessionEvent::CancelAutoRepeat => seq![Step::SpellsCancelAutoRepeat],
        SessionEvent::SpellCooldowns { caster } => match store_of(caster, scene.self_guid, scene.pet) {
            Some(store) => seq![Step::SpellsSpellCooldowns { store, caster }],
            None => seq![],
        },
        SessionEvent::ItemCooldown => seq![Step::SpellsItemCooldown],
        SessionEvent::ItemTime { item_guid, seconds } => seq![Step::ItemsSetItemDuration { item_guid, seconds }],
        SessionEvent::ItemEnchantTime { item_guid, slot, seconds } => seq![Step::ItemsSetEnchantDeadline { item_guid, slot, seconds }],
        SessionEvent::CooldownEvent { spell_id, caster } => match store_of(caster, scene.self_guid, scene.pet) {
            Some(store) => seq![Step::SpellsCooldownEvent { store, spell_id, caster }],
            None => seq![],
        },
        SessionEvent::ClearCooldown { spell_id, caster } => match store_of(caster, scene.self_guid, scene.pet) {
            Some(store) => seq![Step::SpellsClearCooldown { store, spell_id, caster }],
            None => seq![],
        },
        SessionEvent::CooldownCheat { caster } => match store_of(caster, scene.self_guid, scene.pet) {
            Some(store) => seq![Step::SpellsCooldownCheat { store, caster }],
            None => seq![],
        },
        SessionEvent::PetSpells => seq![Step::PetPetSpells],
        SessionEvent::PetMode => seq![Step::PetPetMode],
        SessionEvent::PetActionFeedback => seq![Step::PetPetActionFeedback],
        SessionEvent::PetCastFailed => seq![Step::PetPetCastFailed],
        SessionEvent::PetTameFailure => seq![Step::PetPetTameFailure],
        SessionEvent::PetNameInvalid => seq![Step::PetPetNameInvalid],
        SessionEvent::PetBroken => seq![Step::PetPetBroken],
        SessionEvent::PetActionSound => seq![Step::PetPetActionSound],
        SessionEvent::PetDismissSound => seq![Step::PetPetDismissSound],
        SessionEvent::ChannelStart => seq![Step::SpellsChannelStart],
        SessionEvent::ChannelUpdate => seq![Step::SpellsChannelUpdate],
        SessionEvent::AuraDuration => seq![Step::SpellsAuraDuration],
        SessionEvent::SpellModifier => seq![Step::SpellsSetSpellModifier],
        SessionEvent::PlaySpellVisual => seq![Step::AnimPlaySpellVisual],
        SessionEvent::EnvironmentalDamageLog => seq![Step::CombatChatEnvironmentalDamageLog, Step::AnimEnvironmentalDamageLog],
        SessionEvent::GossipMenu => seq![Step::NpcGossipMenu],
        SessionEvent::NpcGreeting => seq![Step::NpcNpcGreeting],
        SessionEvent::GossipComplete => seq![Step::NpcGossipComplete],
        SessionEvent::GossipPoi => seq![Step::NpcGossipPoi { map: map_or_zero(scene.current_map) }],
        SessionEvent::QuestGiverStatus => seq![Step::QuestsQuestGiverStatus],
        SessionEvent::QuestGreeting => seq![Step::QuestsQuestGreeting],
        SessionEvent::QuestDetail => seq![Step::QuestsQuestDetail],
        SessionEvent::QuestProgress => seq![Step::QuestsQuestProgress],
        SessionEvent::QuestOffer => seq![Step::QuestsQuestOffer],
        SessionEvent::QuestComplete => seq![Step::QuestsQuestComplete],
        SessionEvent::QuestTemplate => seq![Step::QuestsQuestTemplate],
        SessionEvent::QuestObjectiveKill => seq![Step::QuestsQuestObjectiveKill],
        SessionEvent::QuestObjectiveItem => seq![Step::QuestsQuestObjectiveItem],
        SessionEvent::QuestObjectivesComplete => seq![Step::QuestsQuestObjectivesComplete],
        SessionEvent::QuestFailed => seq![Step::QuestsQuestFailed],
        SessionEvent::QuestLogFull => seq![Step::QuestsQuestLogFull],
        SessionEvent::QuestPushResult => seq![Step::QuestsQuestPushResult],
        SessionEvent::QuestConfirmAccept => seq![Step::QuestsQuestConfirmAccept],
        SessionEvent::QuestGiverInvalid => seq![Step::QuestsQuestGiverInvalid],
        SessionEvent::QuestGiverFailed => seq![Step::QuestsQuestGiverFailed],
        SessionEvent::VendorInventory => seq![Step::NpcVendorInventory],
        SessionEvent::ShowBank => seq![Step::NpcShowBank],
        SessionEvent::BuyBankSlotResult => seq![Step::NpcBankBuySlotResult],
        SessionEvent::TrainerList => seq![Step::NpcTrainerList],
        SessionEvent::TrainerBuySucceeded => seq![Step::NpcTrainerBuySucceeded],
        SessionEvent::TrainerBuyFailed => seq![Step::NpcTrainerBuyFailed],
        SessionEvent::InvalidatePlayer => seq![Step::NamesInvalidatePlayer],
        SessionEvent::ListStabledPets => seq![Step::NpcListStabledPets],
        SessionEvent::StableResult => seq![Step::NpcStableResult],
        SessionEvent::TaxiNodesShown => seq![Step::NpcTaxiNodesShown],
        SessionEvent::TaxiNodeStatus => seq![Step::NpcTaxiNodeStatus],
        SessionEvent::ActivateTaxiReply => seq![Step::NpcTaxiActivateReply],
        SessionEvent::NewTaxiPath => seq![Step::NpcTaxiNewPath],
        SessionEvent::VendorBuyResult => seq![Step::NpcVendorBuyResult],
        SessionEvent::VendorBuyFailed => seq![Step::NpcVendorBuyFailed],
        SessionEvent::VendorSellFailed => seq![Step::NpcVendorSellFailed],
        SessionEvent::ForceSpeedChange => seq![Step::ObjectsForceSpeedChange],
        SessionEvent::SpeedChanged => seq![Step::ObjectsSpeedChanged],
        SessionEvent::MountResult => seq![Step::MountMountResult],
        SessionEvent::MountSpecial => seq![Step::MountMountSpecial],
        SessionEvent::ClientControl => seq![Step::WriteClientControl],
        SessionEvent::Pong { sequence } => seq![Step::WarnPong { sequence }],
        SessionEvent::PacketDropped => seq![Step::SessionPacketDropped],
        SessionEvent::MailList => seq![Step::MailMailList],
        SessionEvent::SendMailResult => seq![Step::MailSendMailResult],
        SessionEvent::MailItemText => seq![Step::MailMailItemText],
        SessionEvent::PageText => seq![Step::PageTextsInsert],
        SessionEvent::ReceivedMail => seq![Step::MailReceivedMail],
        SessionEvent::NextMailTime => seq![Step::MailNextMailTime],
        SessionEvent::TradeStatus => seq![Step::TradeTradeStatus],
        SessionEvent::TradeStatusExtended => seq![Step::TradeTradeStatusExtended],
        SessionEvent::WorldStates => seq![Step::WorldWorldStates],
        SessionEvent::Claimed { number } => seq![Step::ReportUnrouted { number }],
    }
}

/// Routes one event: the steps it takes, in order, against the client as it stands when the event
/// comes up.
pub fn apply_unpeeled(event: &SessionEvent, scene: &Scene) -> (r: Vec<Step>)
    ensures
        r@ == routed(*event, *scene),
{
    match event {
        SessionEvent::LoginStage => one(Step::SessionLoginStage),
        SessionEvent::LoginQueued => one(Step::WriteLoginQueued),
        SessionEvent::LoginFailed => one(Step::SessionLoginFailed),
        SessionEvent::RealmList => one(Step::WriteRealmList),
        SessionEvent::CharacterList => one(Step::SessionCharacterList),
        SessionEvent::CharActionResult => one(Step::SessionCharActionResult),
        SessionEvent::CharacterLoginFailed => one(Step::SessionCharacterLoginFailed),
        SessionEvent::CinematicTriggered => one(Step::SessionCinematicTriggered),
        SessionEvent::Connected => one(Step::SessionConnected),
        SessionEvent::LoggedOut => one(Step::SessionLoggedOut),
        SessionEvent::LogoutResponse => one(Step::LogoutApplyResponse),
        SessionEvent::LogoutCancelled => one(Step::LogoutApplyCancelled),
        SessionEvent::Disconnected => one(Step::SessionDisconnected),
        SessionEvent::ObjectCreate => two(Step::DeathNoteCorpse, Step::ObjectsObjectCreate),
        SessionEvent::ItemCreate => one(Step::ObjectsItemCreate),
        SessionEvent::ObjectMove => one(Step::ObjectsObjectMove),
        SessionEvent::MoveTimeSkipped { guid, lag_ms } => skip_time(scene, *guid, *lag_ms),
        SessionEvent::UnitMove => one(Step::ObjectsUnitMove),
        SessionEvent::ObjectValues => two(Step::DeathRecheckCorpse, Step::ObjectsObjectValues),
        SessionEvent::ObjectDestroyed { guid } => three(
            Step::DeathForgetCorpse { guid: *guid },
            deactivate(scene, *guid),
            Step::ObjectsObjectDestroyed { guid: *guid },
        ),
        SessionEvent::ObjectsRemoved { guids } => remove_objects(scene, guids),
        SessionEvent::MonsterMove { guid } => one(Step::ObjectsMonsterMove { rooted: scene.rooted.contains(guid) }),
        SessionEvent::Teleport => one(Step::SessionTeleport),
        SessionEvent::Worldport => two(Step::GroupRosterDeactivated, Step::SessionWorldport),
        SessionEvent::TransferPending => one(Step::SessionTransferPending),
        SessionEvent::TransferAborted => one(Step::SessionTransferAborted),
        SessionEvent::TimeSpeed => one(Step::SessionTimeSpeed),
        SessionEvent::ServerUnixTime => one(Step::SessionServerUnixTime),
        SessionEvent::Reputations => one(Step::SessionReputations),
        SessionEvent::ReputationDelta => two(Step::CombatChatFactionStanding, Step::SessionReputationDelta),
        SessionEvent::ReputationVisible => one(Step::SessionReputationVisible),
        SessionEvent::BindPoint { area } => one(Step::SetHomeBind { area: *area }),
        SessionEvent::InspectHonorStats => one(Step::KeepInspectHonor),
        SessionEvent::PvpCredit { honor, victim_guid, victim_rank } => credit(*honor, *victim_guid, *victim_rank),
        SessionEvent::BinderConfirm { npc } => one(Step::BinderAsk { npc: *npc }),
        SessionEvent::SummonRequest => one(Step::SummonRequest { dead_or_ghost: is_gone(read_facts(scene, scene.self_guid)) }),
        SessionEvent::GmTicket => one(Step::GmTicketAnswer),
        SessionEvent::GmTicketSystemStatus => one(Step::GmTicketAnswerQueue),
        SessionEvent::GmTicketStatusUpdate => one(Step::GmTicketApplyStatusUpdate),
        SessionEvent::GmTicketCreated { response } => one(Step::GmTicketCreateResponse { response: *response, success: TICKET_CREATED }),
        SessionEvent::GmTicketUpdated { response } => one(Step::GmTicketUpdateResponse { response: *response, success: TICKET_UPDATED }),
        SessionEvent::GmTicketDeleted { response } => one(Step::GmTicketDeleteResponse { response: *response }),
        SessionEvent::TalentWipeConfirm { trainer, cost } => wipe_talents(*trainer, *cost),
        SessionEvent::PetUnlearnConfirm { trainer, cost } => unlearn_pet(*trainer, *cost),
        SessionEvent::RaidGroupOnly => one(Step::InstanceBootApply),
        SessionEvent::AreaSpiritHealerTime => one(Step::AreaSpiritOnTime),
        SessionEvent::BattlefieldStatus => one(Step::BattlefieldQueueApply),
        SessionEvent::PvpLogData => one(Step::BattlefieldScoreboardApply),
        SessionEvent::BattlefieldList => one(Step::BattlefieldApplyList),
        SessionEvent::GroupJoinedBattleground => one(Step::BattlefieldApplyVerdict),
        SessionEvent::BattlegroundPlayer => one(Step::BattlefieldApplyPlayer),
        SessionEvent::MeetingStoneSetQueue => one(Step::MeetingStoneApply),
        SessionEvent::MeetingStoneNotice => one(Step::MeetingStoneApplyNotice),
        SessionEvent::TutorialFlags => one(Step::TutorialsApplyFlags),
        SessionEvent::BattlefieldPositions => one(Step::BattlefieldPositionsApply),
        SessionEvent::TabardVendorActivate => one(Step::TabardOpen),
        SessionEvent::SaveGuildEmblemResult => one(Step::TabardApplyResult),
        SessionEvent::PlayerBound => one(Step::BinderBound),
        SessionEvent::Proficiency { item_class, subclass_mask } => one(Step::ProficienciesInsert { item_class: *item_class, subclass_mask: *subclass_mask }),
        SessionEvent::PlayerName => one(Step::NamesPlayerName),
        SessionEvent::PetName => one(Step::NamesPetName),
        SessionEvent::CreatureName => one(Step::NamesCreatureName),
        SessionEvent::GameObjectInfo => one(Step::ObjectsGameobjectInfo),
        SessionEvent::GameObjectCustomAnim => one(Step::ObjectsGameobjectCustomAnim),
        SessionEvent::GameObjectDespawnAnim => one(Step::ObjectsGameobjectDespawnAnim),
        SessionEvent::FishNotHooked => one(Step::LootFishVerdict { escaped: false }),
        SessionEvent::FishEscaped => one(Step::LootFishVerdict { escaped: true }),
        SessionEvent::PlaySound => one(Step::WorldPlaySound),
        SessionEvent::PlayMusic => one(Step::WorldPlayMusic),
        SessionEvent::PlayObjectSound => one(Step::WorldPlayObjectSound),
        SessionEvent::Weather => one(Step::WorldWeather),
        SessionEvent::TextEmote => one(Step::AnimTextEmote),
        SessionEvent::Emote => one(Step::AnimEmote),
        SessionEvent::SpellBook => one(Step::SpellsSpellBook),
        SessionEvent::ActionButtons => one(Step::SpellsActionButtons),
        SessionEvent::SpellLearned => one(Step::SpellsLearnedSpell),
        SessionEvent::SpellRemoved => one(Step::SpellsRemovedSpell),
        SessionEvent::SpellSuperceded => one(Step::SpellsSupercededSpell),
        SessionEvent::CastResult => one(Step::SpellsCastResult),
        SessionEvent::InventoryFailure => one(Step::LootInventoryFailure),
        SessionEvent::Chat => one(Step::ChatChat),
        SessionEvent::ChannelNotify => one(Step::ChatLogPushChannelNotice),
        SessionEvent::ChannelList => one(Step::ChatChannelList),
        SessionEvent::ChatPlayerNotFound => one(Step::ChatPlayerNotFound),
        SessionEvent::ChatWrongFaction => one(Step::ChatWrongFaction),
        SessionEvent::ZoneUnderAttack => one(Step::ChatBroadcast { what: Broadcast::ZoneUnderAttack }),
        SessionEvent::DefenseMessage => one(Step::ChatBroadcast { what: Broadcast::Defense }),
        SessionEvent::ServerMessage => one(Step::ChatBroadcast { what: Broadcast::Server }),
        SessionEvent::ChatRestricted => one(Step::ChatBroadcast { what: Broadcast::ChatRestricted }),
        SessionEvent::Notification => one(Step::ChatNotification),
        SessionEvent::AreaTriggerMessage => one(Step::ChatAreaTriggerMessage),
        SessionEvent::PlayedTime { total, level } => two(Step::AnswerPlayedTime { total: *total, level: *level }, Step::ChatPlayedTime { total: *total, level: *level }),
        SessionEvent::RandomRoll => one(Step::ChatLogPushRoll),
        SessionEvent::GroupInvite => one(Step::GroupInvited),
        SessionEvent::GroupDecline => one(Step::GroupDeclined),
        SessionEvent::GroupUninvited => one(Step::GroupUninvited),
        SessionEvent::GroupLeaderChanged => one(Step::GroupLeaderChanged),
        SessionEvent::GroupDestroyed => one(Step::GroupDestroyed),
        SessionEvent::GroupList => one(Step::GroupList),
        SessionEvent::PartyCommandResult => one(Step::GroupCommandResult),
        SessionEvent::PartyMemberStats => one(Step::GroupApplyStats),
        SessionEvent::RaidTargetSet => one(Step::GroupApplyRaidTarget),
        SessionEvent::RaidTargetList => one(Step::GroupApplyRaidTargetList),
        SessionEvent::ReadyCheckRequest => one(Step::GroupReadyCheckRequest),
        SessionEvent::RaidInstanceInfo => one(Step::GroupApplyRaidInstanceInfo),
        SessionEvent::MinimapPing => one(Step::PingSeat),
        SessionEvent::ReadyCheckAnswer { guid, ready } => one(Step::GroupApplyReadyCheckAnswer { guid: *guid, ready: *ready != 0 }),
        SessionEvent::DuelRequested { challenger } => one(
            Step::DuelRequested {
                self_guid: scene.self_guid,
                ignored: scene.ignored.contains(challenger),
            },
        ),
        SessionEvent::RaidInstanceMessage => one(Step::InstanceRaidInstanceMessage),
        SessionEvent::InstanceSaveCreated => one(Step::InstanceSaveCreated),
        SessionEvent::InstanceReset => one(Step::InstanceReset),
        SessionEvent::InstanceResetFailed => one(Step::InstanceResetFailed),
        SessionEvent::UpdateLastInstance => one(Step::InstanceUpdateLastInstance),
        SessionEvent::UpdateInstanceOwnership => one(Step::InstanceUpdateOwnership),
        SessionEvent::DuelOutOfBounds => one(Step::DuelBounds { out: true }),
        SessionEvent::DuelInBounds => one(Step::DuelBounds { out: false }),
        SessionEvent::DuelComplete => one(Step::DuelComplete),
        SessionEvent::DuelWinner => one(Step::DuelWinner),
        SessionEvent::DuelCountdown => one(Step::DuelCountdown),
        SessionEvent::MirrorTimerStart => one(Step::PushMirrorTimer { edge: MirrorTimerEdge::Start }),
        SessionEvent::MirrorTimerPause => one(Step::PushMirrorTimer { edge: MirrorTimerEdge::Pause }),
        SessionEvent::MirrorTimerStop => one(Step::PushMirrorTimer { edge: MirrorTimerEdge::Stop }),
        SessionEvent::FriendList => one(Step::SocialFriendList),
        SessionEvent::IgnoreList => one(Step::SocialIgnoreList),
        SessionEvent::FriendStatus => one(Step::SocialFriendStatus),
        SessionEvent::WhoResults => one(Step::SocialWho),
        SessionEvent::GuildQueryResponse => one(Step::GuildQueryResponse),
        SessionEvent::GuildRoster => one(Step::GuildRoster),
        SessionEvent::GuildEvent => one(Step::GuildEvent { self_guid: scene.self_guid }),
        SessionEvent::GuildCommandResult => one(Step::GuildCommandResult),
        SessionEvent::GuildInvite => one(Step::GuildInvite),
        SessionEvent::GuildDecline => one(Step::GuildDecline),
        SessionEvent::GuildInfo => one(Step::GuildInfo),
        SessionEvent::PetitionShowList { npc } => one(
            Step::PetitionShowList { npc_flags: read_flags(read_facts(scene, Some(*npc))) },
        ),
        SessionEvent::PetitionShowSignatures { owner } => one(
            Step::PetitionShowSignatures { ignored: scene.ignored.contains(owner) },
        ),
        SessionEvent::PetitionQueryResponse => one(Step::PetitionQueryResponse),
        SessionEvent::PetitionSignResults => one(Step::PetitionSignResults { signer: self_or_zero(scene.self_guid) }),
        SessionEvent::TurnInPetitionResults => one(Step::PetitionTurnInResults),
        SessionEvent::PetitionDeclined => one(Step::PetitionDeclined),
        SessionEvent::PetitionRenamed => one(Step::PetitionRenamed),
        SessionEvent::LootResponse => one(Step::LootResponse),
        SessionEvent::LootError => one(Step::LootError),
        SessionEvent::LootRemoved => one(Step::LootRemoved),
        SessionEvent::LootMoneyNotify => one(Step::LootMoneyNotify),
        SessionEvent::LootClearMoney => one(Step::LootClearMoney),
        SessionEvent::LootReleaseResponse => one(Step::LootReleaseResponse),
        SessionEvent::ItemPushResult => one(Step::LootItemPushResult),
        SessionEvent::LootStartRoll => one(Step::LootStartRoll),
        SessionEvent::LootRoll => one(Step::LootRoll),
        SessionEvent::LootRollWon => one(Step::LootRollWon),
        SessionEvent::LootAllPassed => one(Step::LootAllPassed),
        SessionEvent::LootMasterList => one(Step::LootMasterList),
        SessionEvent::CorpseQuery => one(Step::DeathCorpseQuery),
        SessionEvent::CorpseReclaimDelay => one(Step::DeathCorpseReclaimDelay),
        SessionEvent::ResurrectRequest => one(Step::DeathResurrectRequest),
        SessionEvent::SpiritHealerConfirm => one(Step::DeathSpiritHealerConfirm),
        SessionEvent::DurabilityDamageDeath => one(Step::DeathDurabilityDamageDeath),
        SessionEvent::MoveMode => one(Step::DeathMoveMode),
        SessionEvent::SplineMoveMode => one(Step::ObjectsSplineMoveMode),
        SessionEvent::KnockBack => one(Step::SessionKnockBack),
        SessionEvent::ItemTemplate => one(Step::LootItemTemplate),
        SessionEvent::AttackStart => one(Step::CombatAttackStart),
        SessionEvent::AttackStop => one(Step::CombatAttackStop),
        SessionEvent::AiReaction => one(Step::CombatAiReaction),
        SessionEvent::AttackerState => two(Step::CombatChatAttackerState, Step::CombatAttackerState),
        SessionEvent::AttackSwingError => one(Step::CombatAttackSwingError),
        SessionEvent::CancelCombat => one(Step::CombatCancelCombat),
        SessionEvent::FeignDeathResisted => one(Step::CombatFeignDeathResisted),
        SessionEvent::SpellDamageLog => two(Step::CombatChatSpellDamageLog, Step::CombatLogSpellDamageLog),
        SessionEvent::PeriodicAuraLog => if scene.periodic {
            two(Step::CombatChatPeriodicAuraLog, Step::CombatLogPeriodicAuraLog)
        } else {
            Vec::new()
        },
        SessionEvent::SpellHealLog => two(Step::CombatChatSpellHealLog, Step::CombatLogSpellHealLog),
        SessionEvent::SpellEnergizeLog => two(Step::CombatChatSpellEnergizeLog, Step::CombatLogSpellEnergizeLog),
        SessionEvent::DamageShield => two(Step::CombatChatDamageShield, Step::CombatLogDamageShield),
        SessionEvent::SpellLogMiss => two(Step::CombatChatSpellLogMiss, Step::CombatLogSpellLogMiss),
        SessionEvent::PartyKillLog => one(Step::CombatChatPartyKillLog),
        SessionEvent::SpellInstaKillLog => one(Step::CombatChatSpellInstaKillLog),
        SessionEvent::ProcResist => one(Step::CombatChatSpellOutcomeLog { immune: false }),
        SessionEvent::SpellOrDamageImmune => one(Step::CombatChatSpellOutcomeLog { immune: true }),
        SessionEvent::SpellDispelLog => one(Step::CombatChatSpellDispelLog),
        SessionEvent::DispelFailed => one(Step::CombatChatDispelFailed),
        SessionEvent::EnchantmentLog => one(Step::CombatChatEnchantmentLog),
        SessionEvent::SpellLogExecute => one(Step::CombatChatSpellLogExecute),
        SessionEvent::XpGain => one(Step::CombatLogXpGain),
        SessionEvent::ExplorationXp => one(Step::CombatLogExplorationXp),
        SessionEvent::LevelUp => one(Step::CombatLogLevelUp),
        SessionEvent::SpellStart => one(Step::SpellsSpellStart),
        SessionEvent::SpellGo => one(Step::SpellsSpellGo { engaged: scene.engaged }),
        SessionEvent::SpellChainTargets => one(Step::SpellsSpellChainTargets),
        SessionEvent::SpellFailedOther => one(Step::SpellsSpellFailedOther),
        SessionEvent::SpellDelayed => one(Step::SpellsSpellDelayed),
        SessionEvent::CancelAutoRepeat => one(Step::SpellsCancelAutoRepeat),
        SessionEvent::SpellCooldowns { caster } => match addressed_store(*caster, scene.self_guid, scene.pet) {
            Some(store) => one(Step::SpellsSpellCooldowns { store, caster: *caster }),
            None => Vec::new(),
        },
        SessionEvent::ItemCooldown => one(Step::SpellsItemCooldown),
        SessionEvent::ItemTime { item_guid, seconds } => one(Step::ItemsSetItemDuration { item_guid: *item_guid, seconds: *seconds }),
        SessionEvent::ItemEnchantTime { item_guid, slot, seconds } => one(Step::ItemsSetEnchantDeadline { item_guid: *item_guid, slot: *slot, seconds: *seconds }),
        SessionEvent::CooldownEvent { spell_id, caster } => match addressed_store(*caster, scene.self_guid, scene.pet) {
            Some(store) => one(
                Step::SpellsCooldownEvent { store, spell_id: *spell_id, caster: *caster },
            ),
            None => Vec::new(),
        },
        SessionEvent::ClearCooldown { spell_id, caster } => match addressed_store(*caster, scene.self_guid, scene.pet) {
            Some(store) => one(
                Step::SpellsClearCooldown { store, spell_id: *spell_id, caster: *caster },
            ),
            None => Vec::new(),
        },
        SessionEvent::CooldownCheat { caster } => match addressed_store(*caster, scene.self_guid, scene.pet) {
            Some(store) => one(Step::SpellsCooldownCheat { store, caster: *caster }),
            None => Vec::new(),
        },
        SessionEvent::PetSpells => one(Step::PetPetSpells),
        SessionEvent::PetMode => one(Step::PetPetMode),
        SessionEvent::PetActionFeedback => one(Step::PetPetActionFeedback),
        SessionEvent::PetCastFailed => one(Step::PetPetCastFailed),
        SessionEvent::PetTameFailure => one(Step::PetPetTameFailure),
        SessionEvent::PetNameInvalid => one(Step::PetPetNameInvalid),
        SessionEvent::PetBroken => one(Step::PetPetBroken),
        SessionEvent::PetActionSound => one(Step::PetPetActionSound),
        SessionEvent::PetDismissSound => one(Step::PetPetDismissSound),
        SessionEvent::ChannelStart => one(Step::SpellsChannelStart),
        SessionEvent::ChannelUpdate => one(Step::SpellsChannelUpdate),
        SessionEvent::AuraDuration => one(Step::SpellsAuraDuration),
        SessionEvent::SpellModifier => one(Step::SpellsSetSpellModifier),
        SessionEvent::PlaySpellVisual => one(Step::AnimPlaySpellVisual),
        SessionEvent::EnvironmentalDamageLog => two(Step::CombatChatEnvironmentalDamageLog, Step::AnimEnvironmentalDamageLog),
        SessionEvent::GossipMenu => one(Step::NpcGossipMenu),
        SessionEvent::NpcGreeting => one(Step::NpcNpcGreeting),
        SessionEvent::GossipComplete => one(Step::NpcGossipComplete),
        SessionEvent::GossipPoi => one(Step::NpcGossipPoi { map: read_map(scene.current_map) }),
        SessionEvent::QuestGiverStatus => one(Step::QuestsQuestGiverStatus),
        SessionEvent::QuestGreeting => one(Step::QuestsQuestGreeting),
        SessionEvent::QuestDetail => one(Step::QuestsQuestDetail),
        SessionEvent::QuestProgress => one(Step::QuestsQuestProgress),
        SessionEvent::QuestOffer => one(Step::QuestsQuestOffer),
        SessionEvent::QuestComplete => one(Step::QuestsQuestComplete),
        SessionEvent::QuestTemplate => one(Step::QuestsQuestTemplate),
        SessionEvent::QuestObjectiveKill => one(Step::QuestsQuestObjectiveKill),
        SessionEvent::QuestObjectiveItem => one(Step::QuestsQuestObjectiveItem),
        SessionEvent::QuestObjectivesComplete => one(Step::QuestsQuestObjectivesComplete),
        SessionEvent::QuestFailed => one(Step::QuestsQuestFailed),
        SessionEvent::QuestLogFull => one(Step::QuestsQuestLogFull),
        SessionEvent::QuestPushResult => one(Step::QuestsQuestPushResult),
        SessionEvent::QuestConfirmAccept => one(Step::QuestsQuestConfirmAccept),
        SessionEvent::QuestGiverInvalid => one(Step::QuestsQuestGiverInvalid),
        SessionEvent::QuestGiverFailed => one(Step::QuestsQuestGiverFailed),
        SessionEvent::VendorInventory => one(Step::NpcVendorInventory),
        SessionEvent::ShowBank => one(Step::NpcShowBank),
        SessionEvent::BuyBankSlotResult => one(Step::NpcBankBuySlotResult),
        SessionEvent::TrainerList => one(Step::NpcTrainerList),
        SessionEvent::TrainerBuySucceeded => one(Step::NpcTrainerBuySucceeded),
        SessionEvent::TrainerBuyFailed => one(Step::NpcTrainerBuyFailed),
        SessionEvent::InvalidatePlayer => one(Step::NamesInvalidatePlayer),
        SessionEvent::ListStabledPets => one(Step::NpcListStabledPets),
        SessionEvent::StableResult => one(Step::NpcStableResult),
        SessionEvent::TaxiNodesShown => one(Step::NpcTaxiNodesShown),
        SessionEvent::TaxiNodeStatus => one(Step::NpcTaxiNodeStatus),
        SessionEvent::ActivateTaxiReply => one(Step::NpcTaxiActivateReply),
        SessionEvent::NewTaxiPath => one(Step::NpcTaxiNewPath),
        SessionEvent::VendorBuyResult => one(Step::NpcVendorBuyResult),
        SessionEvent::VendorBuyFailed => one(Step::NpcVendorBuyFailed),
        SessionEvent::VendorSellFailed => one(Step::NpcVendorSellFailed),
        SessionEvent::ForceSpeedChange => one(Step::ObjectsForceSpeedChange),
        SessionEvent::SpeedChanged => one(Step::ObjectsSpeedChanged),
        SessionEvent::MountResult => one(Step::MountMountResult),
        SessionEvent::MountSpecial => one(Step::MountMountSpecial),
        SessionEvent::ClientControl => one(Step::WriteClientControl),
        SessionEvent::Pong { sequence } => one(Step::WarnPong { sequence: *sequence }),
        SessionEvent::PacketDropped => one(Step::SessionPacketDropped),
        SessionEvent::MailList => one(Step::MailMailList),
        SessionEvent::SendMailResult => one(Step::MailSendMailResult),
        SessionEvent::MailItemText => one(Step::MailMailItemText),
        SessionEvent::PageText => one(Step::PageTextsInsert),
        SessionEvent::ReceivedMail => one(Step::MailReceivedMail),
        SessionEvent::NextMailTime => one(Step::MailNextMailTime),
        SessionEvent::TradeStatus => one(Step::TradeTradeStatus),
        SessionEvent::TradeStatusExtended => one(Step::TradeTradeStatusExtended),
        SessionEvent::WorldStates => one(Step::WorldWorldStates),
        SessionEvent::Claimed { number } => one(Step::ReportUnrouted { number: *number }),
    }
}

/// What follows the tabard vendor's answer: a saved emblem evicts our guild's cached record.
pub fn emblem_answered(saved: bool) -> (r: Vec<Step>)
    ensures
        r@ == if saved {
            seq![Step::GuildEvictOwnIdentity]
        } else {
            seq![]
        },
{
    if saved {
        one(Step::GuildEvictOwnIdentity)
    } else {
        Vec::new()
    }
}

/// One staged descriptor: the object it belongs to and the number of its merged fields.
#[derive(Clone, Copy, Debug, PartialEq, Eq, Structural)]
pub struct Staged {
    pub guid: u64,
    pub fields: u64,
}

/// One descriptor that lands: the entity and the number of the fields inserted on it.
#[derive(Clone, Copy, Debug, PartialEq, Eq, Structural)]
pub struct Landing {
    pub entity: u64,
    pub fields: u64,
}

/// Where the staged descriptors land at the end of a drain: each on the entity of its object, and
/// nowhere once the object has left the index.
pub open spec fn landed(pending: Seq<Staged>, index: Map<u64, u64>) -> Seq<Landing>
    decreases pending.len(),
{
    if pending.len() == 0 {
        seq![]
    } else {
        let before = landed(pending.drop_last(), index);
        let last = pending.last();
        if index.contains_key(last.guid) {
            before.push(Landing { entity: index[last.guid], fields: last.fields })
        } else {
            before
        }
    }
}

/// Ends a drain: the staged descriptors land on the entities of their objects.
pub fn flush_pending(pending: &Vec<Staged>, index: &HashMap<u64, u64>) -> (r: Vec<Landing>)
    ensures
        r@ == landed(pending@, index@),
{
    let mut landings: Vec<Landing> = Vec::new();
    let mut i: usize = 0;
    assert(pending@.take(0) =~= seq![]);
    while i < pending.len()
        invariant
            i <= pending@.len(),
            landings@ == landed(pending@.take(i as int), index@),
        decreases pending@.len() - i,
    {
        let staged: Staged = pending[i];
        proof {
            assert(pending@.take(i as int + 1).drop_last() =~= pending@.take(i as int));
            assert(pending@.take(i as int + 1).last() == staged);
        }
        if let Some(entity) = index.get(&staged.guid) {
            landings.push(Landing { entity: *entity, fields: staged.fields });
        }
        i += 1;
    }
    assert(pending@.take(i as int) =~= pending@);
    landings
}

/// An entity that has not been tagged as our own player, with the object it shows.
#[derive(Clone, Copy, Debug, PartialEq, Eq, Structural)]
pub struct Untagged {
    pub entity: u64,
    pub guid: u64,
}

/// The entities that show our own player, once the session has named it.
pub open spec fn own_entities(self_guid: Option<u64>, untagged: Seq<Untagged>) -> Seq<u64> {
    match self_guid {
        Some(me) => untagged.filter(|u: Untagged| u.guid == me).map_values(
            |u: Untagged| u.entity,
        ),
        None => seq![],
    }
}

/// Finds the entities to tag as our own player.
pub fn tag_self_player(self_guid: Option<u64>, untagged: &Vec<Untagged>) -> (r: Vec<u64>)
    ensures
        r@ == own_entities(self_guid, untagged@),
{
    let mut tagged: Vec<u64> = Vec::new();
    let me: u64 = match self_guid {
        Some(me) => me,
        None => {
            return tagged;
        },
    };
    let ghost mine = |u: Untagged| u.guid == me;
    let ghost entity_of = |u: Untagged| u.entity;
    let mut i: usize = 0;
    assert(untagged@.take(0).filter(mine).map_values(entity_of) =~= seq![]);
    while i < untagged.len()
        invariant
            i <= untagged@.len(),
            mine == (|u: Untagged| u.guid == me),
            entity_of == (|u: Untagged| u.entity),
            tagged@ == untagged@.take(i as int).filter(mine).map_values(entity_of),
        decreases untagged@.len() - i,
    {
        let ghost now = untagged@.take(i as int + 1);
        proof {
            assert(now.drop_last() =~= untagged@.take(i as int));
            assert(now.last() == untagged@[i as int]);
            reveal_with_fuel(Seq::filter, 2);
        }
        if untagged[i].guid == me {
            tagged.push(untagged[i].entity);
        }
        assert(tagged@ =~= now.filter(mine).map_values(entity_of));
        i += 1;
    }
    assert(untagged@.take(i as int) =~= untagged@);
    tagged
}

/// An event is dropped without a step only by a rule of its own: a skipped clock of a mover that
/// is not held, a talent question without a trainer, a periodic packet while its setting is off,
/// and a cooldown packet for a caster whose store the client does not hold.
pub proof fn only_these_events_are_dropped(event: SessionEvent, scene: Scene)
    ensures
        routed(event, scene).len() == 0 <==> match event {
            SessionEvent::MoveTimeSkipped { guid, .. } => !(scene.index@.contains_key(guid)
                && scene.moving@.contains(scene.index@[guid])),
            SessionEvent::TalentWipeConfirm { trainer, .. } => trainer == 0,
            SessionEvent::PeriodicAuraLog => !scene.periodic,
            SessionEvent::SpellCooldowns { caster } => store_of(
                caster,
                scene.self_guid,
                scene.pet,
            ) is None,
            SessionEvent::CooldownEvent { caster, .. } => store_of(
                caster,
                scene.self_guid,
                scene.pet,
            ) is None,
            SessionEvent::ClearCooldown { caster, .. } => store_of(
                caster,
                scene.self_guid,
                scene.pet,
            ) is None,
            SessionEvent::CooldownCheat { caster } => store_of(
                caster,
                scene.self_guid,
                scene.pet,
            ) is None,
            _ => false,
        },
{
}

/// The events that take more than one step.
pub open spec fn takes_several_steps(event: SessionEvent) -> bool {
    match event {
        SessionEvent::ObjectCreate => true,
        SessionEvent::ObjectValues => true,
        SessionEvent::ObjectDestroyed { .. } => true,
        SessionEvent::ObjectsRemoved { .. } => true,
        SessionEvent::Worldport => true,
        SessionEvent::ReputationDelta => true,
        SessionEvent::PvpCredit { .. } => true,
        SessionEvent::PlayedTime { .. } => true,
        SessionEvent::AttackerState => true,
        SessionEvent::SpellDamageLog => true,
        SessionEvent::PeriodicAuraLog => true,
        SessionEvent::SpellHealLog => true,
        SessionEvent::SpellEnergizeLog => true,
        SessionEvent::DamageShield => true,
        SessionEvent::SpellLogMiss => true,
        SessionEvent::EnvironmentalDamageLog => true,
        _ => false,
    }
}

proof fn lemma_one_step(event: SessionEvent, scene: Scene)
    requires
        !takes_several_steps(event),
    ensures
        routed(event, scene).len() <= 1,
{
}

proof fn lemma_first_step(event: SessionEvent, scene: Scene)
    requires
        !takes_several_steps(event),
        routed(event, scene).len() == 1,
    ensures
        routed(event, scene).first() is ReportUnrouted <==> event is Claimed,
{
}

/// An event is reported as unrouted exactly when its kind has no route of its own.
pub proof fn only_a_claimed_kind_is_reported(event: SessionEvent, scene: Scene, k: int)
    requires
        0 <= k < routed(event, scene).len(),
    ensures
        routed(event, scene)[k] is ReportUnrouted <==> kind_of(event) is Claimed,
{
    if !takes_several_steps(event) {
        lemma_one_step(event, scene);
        lemma_first_step(event, scene);
    }
}

/// One event draws at most one animation stamp, and draws it with its last step.
pub proof fn an_event_draws_at_most_one_stamp(event: SessionEvent, scene: Scene, k: int)
    requires
        0 <= k < routed(event, scene).len(),
        stamped(routed(event, scene)[k]),
    ensures
        k == routed(event, scene).len() - 1,
{
    if !takes_several_steps(event) {
        lemma_one_step(event, scene);
    }
}

/// Our own guid addresses the player's store even when the pet's bar names the same guid, and a
/// caster that is neither is dropped.
pub proof fn a_cooldown_packet_has_one_address(
    caster: u64,
    self_guid: Option<u64>,
    pet: Option<u64>,
)
    ensures
        self_guid == Some(caster) ==> store_of(caster, self_guid, pet) == Some(
            CooldownStore::Player,
        ),
        store_of(caster, self_guid, pet) == Some(CooldownStore::Pet) ==> pet == Some(caster)
            && self_guid != Some(caster),
        self_guid != Some(caster) && pet != Some(caster) ==> store_of(caster, self_guid, pet)
            is None,
{
}

/// A landing is on the entity of an object that is still indexed, with fields staged for that
/// object.
pub proof fn a_descriptor_lands_on_its_own_object(
    pending: Seq<Staged>,
    index: Map<u64, u64>,
    k: int,
)
    requires
        0 <= k < landed(pending, index).len(),
    ensures
        exists|j: int|
            0 <= j < pending.len() && index.contains_key((#[trigger] pending[j]).guid)
                && landed(pending, index)[k] == (Landing {
                entity: index[pending[j].guid],
                fields: pending[j].fields,
            }),
    decreases pending.len(),
{
    let before = landed(pending.drop_last(), index);
    if k < before.len() {
        a_descriptor_lands_on_its_own_object(pending.drop_last(), index, k);
        let j = choose|j: int|
            0 <= j < pending.drop_last().len() && index.contains_key(
                (#[trigger] pending.drop_last()[j]).guid,
            ) && before[k] == (Landing {
                entity: index[pending.drop_last()[j].guid],
                fields: pending.drop_last()[j].fields,
            });
        assert(pending[j] == pending.drop_last()[j]);
    } else {
        assert(pending[pending.len() - 1] == pending.last());
    }
}

} // verus!
