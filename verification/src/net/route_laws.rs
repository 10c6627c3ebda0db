//! What holds of the routing of every event: which steps are whose, in which order, and with which
//! arguments.
use crate::net::apply::{
    apply_unpeeled, emblem_answered, flush_pending, landed, routed, tag_self_player,
    takes_several_steps, Landing, Scene, Staged, UnitFacts, Untagged,
};
use crate::net::events::{kind_of, SessionEvent, SessionEventKind};
use crate::net::steps::{draws_stamp, Broadcast, CooldownStore, MirrorTimerEdge, Step};
use std::collections::HashMap;
use vstd::prelude::*;

verus! {

/// The step is a handler's of events of this kind. A broadcast, a verdict and an edge are told
/// apart by what they carry; the party's word on an object that goes is the one step of two kinds.
pub open spec fn answers(step: Step, kind: SessionEventKind) -> bool {
    match step {
        Step::SessionLoginStage => kind == SessionEventKind::LoginStage,
        Step::WriteLoginQueued => kind == SessionEventKind::LoginQueued,
        Step::SessionLoginFailed => kind == SessionEventKind::LoginFailed,
        Step::WriteRealmList => kind == SessionEventKind::RealmList,
        Step::SessionCharacterList => kind == SessionEventKind::CharacterList,
        Step::SessionCharActionResult => kind == SessionEventKind::CharActionResult,
        Step::SessionCharacterLoginFailed => kind == SessionEventKind::CharacterLoginFailed,
        Step::SessionCinematicTriggered => kind == SessionEventKind::CinematicTriggered,
        Step::SessionConnected => kind == SessionEventKind::Connected,
        Step::SessionLoggedOut => kind == SessionEventKind::LoggedOut,
        Step::LogoutApplyResponse => kind == SessionEventKind::LogoutResponse,
        Step::LogoutApplyCancelled => kind == SessionEventKind::LogoutCancelled,
        Step::SessionDisconnected => kind == SessionEventKind::Disconnected,
        Step::DeathNoteCorpse => kind == SessionEventKind::ObjectCreate,
        Step::ObjectsObjectCreate => kind == SessionEventKind::ObjectCreate,
        Step::ObjectsItemCreate => kind == SessionEventKind::ItemCreate,
        Step::ObjectsObjectMove => kind == SessionEventKind::ObjectMove,
        Step::RelaySkipTime { .. } => kind == SessionEventKind::MoveTimeSkipped,
        Step::ObjectsUnitMove => kind == SessionEventKind::UnitMove,
        Step::DeathRecheckCorpse => kind == SessionEventKind::ObjectValues,
        Step::ObjectsObjectValues => kind == SessionEventKind::ObjectValues,
        Step::DeathForgetCorpse { .. } => kind == SessionEventKind::ObjectDestroyed,
        Step::GroupMemberDeactivated { .. } => kind == SessionEventKind::ObjectDestroyed || kind
            == SessionEventKind::ObjectsRemoved,
        Step::ObjectsObjectDestroyed { .. } => kind == SessionEventKind::ObjectDestroyed,
        Step::ObjectsObjectsRemoved => kind == SessionEventKind::ObjectsRemoved,
        Step::ObjectsMonsterMove { .. } => kind == SessionEventKind::MonsterMove,
        Step::SessionTeleport => kind == SessionEventKind::Teleport,
        Step::GroupRosterDeactivated => kind == SessionEventKind::Worldport,
        Step::SessionWorldport => kind == SessionEventKind::Worldport,
        Step::SessionTransferPending => kind == SessionEventKind::TransferPending,
        Step::SessionTransferAborted => kind == SessionEventKind::TransferAborted,
        Step::SessionTimeSpeed => kind == SessionEventKind::TimeSpeed,
        Step::SessionServerUnixTime => kind == SessionEventKind::ServerUnixTime,
        Step::SessionReputations => kind == SessionEventKind::Reputations,
        Step::CombatChatFactionStanding => kind == SessionEventKind::ReputationDelta,
        Step::SessionReputationDelta => kind == SessionEventKind::ReputationDelta,
        Step::SessionReputationVisible => kind == SessionEventKind::ReputationVisible,
        Step::SetHomeBind { .. } => kind == SessionEventKind::BindPoint,
        Step::KeepInspectHonor => kind == SessionEventKind::InspectHonorStats,
        Step::ChatLogPushPvpCredit { .. } => kind == SessionEventKind::PvpCredit,
        Step::CombatTextHonorGained { .. } => kind == SessionEventKind::PvpCredit,
        Step::BinderAsk { .. } => kind == SessionEventKind::BinderConfirm,
        Step::SummonRequest { .. } => kind == SessionEventKind::SummonRequest,
        Step::GmTicketAnswer => kind == SessionEventKind::GmTicket,
        Step::GmTicketAnswerQueue => kind == SessionEventKind::GmTicketSystemStatus,
        Step::GmTicketApplyStatusUpdate => kind == SessionEventKind::GmTicketStatusUpdate,
        Step::GmTicketCreateResponse { .. } => kind == SessionEventKind::GmTicketCreated,
        Step::GmTicketUpdateResponse { .. } => kind == SessionEventKind::GmTicketUpdated,
        Step::GmTicketDeleteResponse { .. } => kind == SessionEventKind::GmTicketDeleted,
        Step::TalentWipeAsk { .. } => kind == SessionEventKind::TalentWipeConfirm,
        Step::UiErrorTalentWipe => kind == SessionEventKind::PetUnlearnConfirm,
        Step::PetUnlearnAsk { .. } => kind == SessionEventKind::PetUnlearnConfirm,
        Step::InstanceBootApply => kind == SessionEventKind::RaidGroupOnly,
        Step::AreaSpiritOnTime => kind == SessionEventKind::AreaSpiritHealerTime,
        Step::BattlefieldQueueApply => kind == SessionEventKind::BattlefieldStatus,
        Step::BattlefieldScoreboardApply => kind == SessionEventKind::PvpLogData,
        Step::BattlefieldApplyList => kind == SessionEventKind::BattlefieldList,
        Step::BattlefieldApplyVerdict => kind == SessionEventKind::GroupJoinedBattleground,
        Step::BattlefieldApplyPlayer => kind == SessionEventKind::BattlegroundPlayer,
        Step::MeetingStoneApply => kind == SessionEventKind::MeetingStoneSetQueue,
        Step::MeetingStoneApplyNotice => kind == SessionEventKind::MeetingStoneNotice,
        Step::TutorialsApplyFlags => kind == SessionEventKind::TutorialFlags,
        Step::BattlefieldPositionsApply => kind == SessionEventKind::BattlefieldPositions,
        Step::TabardOpen => kind == SessionEventKind::TabardVendorActivate,
        Step::TabardApplyResult => kind == SessionEventKind::SaveGuildEmblemResult,
        Step::BinderBound => kind == SessionEventKind::PlayerBound,
        Step::ProficienciesInsert { .. } => kind == SessionEventKind::Proficiency,
        Step::NamesPlayerName => kind == SessionEventKind::PlayerName,
        Step::NamesPetName => kind == SessionEventKind::PetName,
        Step::NamesCreatureName => kind == SessionEventKind::CreatureName,
        Step::ObjectsGameobjectInfo => kind == SessionEventKind::GameObjectInfo,
        Step::ObjectsGameobjectCustomAnim => kind == SessionEventKind::GameObjectCustomAnim,
        Step::ObjectsGameobjectDespawnAnim => kind == SessionEventKind::GameObjectDespawnAnim,
        Step::LootFishVerdict { escaped: false } => kind == SessionEventKind::FishNotHooked,
        Step::LootFishVerdict { escaped: true } => kind == SessionEventKind::FishEscaped,
        Step::WorldPlaySound => kind == SessionEventKind::PlaySound,
        Step::WorldPlayMusic => kind == SessionEventKind::PlayMusic,
        Step::WorldPlayObjectSound => kind == SessionEventKind::PlayObjectSound,
        Step::WorldWeather => kind == SessionEventKind::Weather,
        Step::AnimTextEmote => kind == SessionEventKind::TextEmote,
        Step::AnimEmote => kind == SessionEventKind::Emote,
        Step::SpellsSpellBook => kind == SessionEventKind::SpellBook,
        Step::SpellsActionButtons => kind == SessionEventKind::ActionButtons,
        Step::SpellsLearnedSpell => kind == SessionEventKind::SpellLearned,
        Step::SpellsRemovedSpell => kind == SessionEventKind::SpellRemoved,
        Step::SpellsSupercededSpell => kind == SessionEventKind::SpellSuperceded,
        Step::SpellsCastResult => kind == SessionEventKind::CastResult,
        Step::LootInventoryFailure => kind == SessionEventKind::InventoryFailure,
        Step::ChatChat => kind == SessionEventKind::Chat,
        Step::ChatLogPushChannelNotice => kind == SessionEventKind::ChannelNotify,
        Step::ChatChannelList => kind == SessionEventKind::ChannelList,
        Step::ChatPlayerNotFound => kind == SessionEventKind::ChatPlayerNotFound,
        Step::ChatWrongFaction => kind == SessionEventKind::ChatWrongFaction,
        Step::ChatBroadcast { what: Broadcast::ZoneUnderAttack } => kind == SessionEventKind::ZoneUnderAttack,
        Step::ChatBroadcast { what: Broadcast::Defense } => kind == SessionEventKind::DefenseMessage,
        Step::ChatBroadcast { what: Broadcast::Server } => kind == SessionEventKind::ServerMessage,
        Step::ChatBroadcast { what: Broadcast::ChatRestricted } => kind == SessionEventKind::ChatRestricted,
        Step::ChatNotification => kind == SessionEventKind::Notification,
        Step::ChatAreaTriggerMessage => kind == SessionEventKind::AreaTriggerMessage,
        Step::AnswerPlayedTime { .. } => kind == SessionEventKind::PlayedTime,
        Step::ChatPlayedTime { .. } => kind == SessionEventKind::PlayedTime,
        Step::ChatLogPushRoll => kind == SessionEventKind::RandomRoll,
        Step::GroupInvited => kind == SessionEventKind::GroupInvite,
        Step::GroupDeclined => kind == SessionEventKind::GroupDecline,
        Step::GroupUninvited => kind == SessionEventKind::GroupUninvited,
        Step::GroupLeaderChanged => kind == SessionEventKind::GroupLeaderChanged,
        Step::GroupDestroyed => kind == SessionEventKind::GroupDestroyed,
        Step::GroupList => kind == SessionEventKind::GroupList,
        Step::GroupCommandResult => kind == SessionEventKind::PartyCommandResult,
        Step::GroupApplyStats => kind == SessionEventKind::PartyMemberStats,
        Step::GroupApplyRaidTarget => kind == SessionEventKind::RaidTargetSet,
        Step::GroupApplyRaidTargetList => kind == SessionEventKind::RaidTargetList,
        Step::GroupReadyCheckRequest => kind == SessionEventKind::ReadyCheckRequest,
        Step::GroupApplyRaidInstanceInfo => kind == SessionEventKind::RaidInstanceInfo,
        Step::PingSeat => kind == SessionEventKind::MinimapPing,
        Step::GroupApplyReadyCheckAnswer { .. } => kind == SessionEventKind::ReadyCheckAnswer,
        Step::DuelRequested { .. } => kind == SessionEventKind::DuelRequested,
        Step::InstanceRaidInstanceMessage => kind == SessionEventKind::RaidInstanceMessage,
        Step::InstanceSaveCreated => kind == SessionEventKind::InstanceSaveCreated,
        Step::InstanceReset => kind == SessionEventKind::InstanceReset,
        Step::InstanceResetFailed => kind == SessionEventKind::InstanceResetFailed,
        Step::InstanceUpdateLastInstance => kind == SessionEventKind::UpdateLastInstance,
        Step::InstanceUpdateOwnership => kind == SessionEventKind::UpdateInstanceOwnership,
        Step::DuelBounds { out: true } => kind == SessionEventKind::DuelOutOfBounds,
        Step::DuelBounds { out: false } => kind == SessionEventKind::DuelInBounds,
        Step::DuelComplete => kind == SessionEventKind::DuelComplete,
        Step::DuelWinner => kind == SessionEventKind::DuelWinner,
        Step::DuelCountdown => kind == SessionEventKind::DuelCountdown,
        Step::PushMirrorTimer { edge: MirrorTimerEdge::Start } => kind == SessionEventKind::MirrorTimerStart,
        Step::PushMirrorTimer { edge: MirrorTimerEdge::Pause } => kind == SessionEventKind::MirrorTimerPause,
        Step::PushMirrorTimer { edge: MirrorTimerEdge::Stop } => kind == SessionEventKind::MirrorTimerStop,
        Step::SocialFriendList => kind == SessionEventKind::FriendList,
        Step::SocialIgnoreList => kind == SessionEventKind::IgnoreList,
        Step::SocialFriendStatus => kind == SessionEventKind::FriendStatus,
        Step::SocialWho => kind == SessionEventKind::WhoResults,
        Step::GuildQueryResponse => kind == SessionEventKind::GuildQueryResponse,
        Step::GuildRoster => kind == SessionEventKind::GuildRoster,
        Step::GuildEvent { .. } => kind == SessionEventKind::GuildEvent,
        Step::GuildCommandResult => kind == SessionEventKind::GuildCommandResult,
        Step::GuildInvite => kind == SessionEventKind::GuildInvite,
        Step::GuildDecline => kind == SessionEventKind::GuildDecline,
        Step::GuildInfo => kind == SessionEventKind::GuildInfo,
        Step::PetitionShowList { .. } => kind == SessionEventKind::PetitionShowList,
        Step::PetitionShowSignatures { .. } => kind == SessionEventKind::PetitionShowSignatures,
        Step::PetitionQueryResponse => kind == SessionEventKind::PetitionQueryResponse,
        Step::PetitionSignResults { .. } => kind == SessionEventKind::PetitionSignResults,
        Step::PetitionTurnInResults => kind == SessionEventKind::TurnInPetitionResults,
        Step::PetitionDeclined => kind == SessionEventKind::PetitionDeclined,
        Step::PetitionRenamed => kind == SessionEventKind::PetitionRenamed,
        Step::LootResponse => kind == SessionEventKind::LootResponse,
        Step::LootError => kind == SessionEventKind::LootError,
        Step::LootRemoved => kind == SessionEventKind::LootRemoved,
        Step::LootMoneyNotify => kind == SessionEventKind::LootMoneyNotify,
        Step::LootClearMoney => kind == SessionEventKind::LootClearMoney,
        Step::LootReleaseResponse => kind == SessionEventKind::LootReleaseResponse,
        Step::LootItemPushResult => kind == SessionEventKind::ItemPushResult,
        Step::LootStartRoll => kind == SessionEventKind::LootStartRoll,
        Step::LootRoll => kind == SessionEventKind::LootRoll,
        Step::LootRollWon => kind == SessionEventKind::LootRollWon,
        Step::LootAllPassed => kind == SessionEventKind::LootAllPassed,
        Step::LootMasterList => kind == SessionEventKind::LootMasterList,
        Step::DeathCorpseQuery => kind == SessionEventKind::CorpseQuery,
        Step::DeathCorpseReclaimDelay => kind == SessionEventKind::CorpseReclaimDelay,
        Step::DeathResurrectRequest => kind == SessionEventKind::ResurrectRequest,
        Step::DeathSpiritHealerConfirm => kind == SessionEventKind::SpiritHealerConfirm,
        Step::DeathDurabilityDamageDeath => kind == SessionEventKind::DurabilityDamageDeath,
        Step::DeathMoveMode => kind == SessionEventKind::MoveMode,
        Step::ObjectsSplineMoveMode => kind == SessionEventKind::SplineMoveMode,
        Step::SessionKnockBack => kind == SessionEventKind::KnockBack,
        Step::LootItemTemplate => kind == SessionEventKind::ItemTemplate,
        Step::CombatAttackStart => kind == SessionEventKind::AttackStart,
        Step::CombatAttackStop => kind == SessionEventKind::AttackStop,
        Step::CombatAiReaction => kind == SessionEventKind::AiReaction,
        Step::CombatChatAttackerState => kind == SessionEventKind::AttackerState,
        Step::CombatAttackerState => kind == SessionEventKind::AttackerState,
        Step::CombatAttackSwingError => kind == SessionEventKind::AttackSwingError,
        Step::CombatCancelCombat => kind == SessionEventKind::CancelCombat,
        Step::CombatFeignDeathResisted => kind == SessionEventKind::FeignDeathResisted,
        Step::CombatChatSpellDamageLog => kind == SessionEventKind::SpellDamageLog,
        Step::CombatLogSpellDamageLog => kind == SessionEventKind::SpellDamageLog,
        Step::CombatChatPeriodicAuraLog => kind == SessionEventKind::PeriodicAuraLog,
        Step::CombatLogPeriodicAuraLog => kind == SessionEventKind::PeriodicAuraLog,
        Step::CombatChatSpellHealLog => kind == SessionEventKind::SpellHealLog,
        Step::CombatLogSpellHealLog => kind == SessionEventKind::SpellHealLog,
        Step::CombatChatSpellEnergizeLog => kind == SessionEventKind::SpellEnergizeLog,
        Step::CombatLogSpellEnergizeLog => kind == SessionEventKind::SpellEnergizeLog,
        Step::CombatChatDamageShield => kind == SessionEventKind::DamageShield,
        Step::CombatLogDamageShield => kind == SessionEventKind::DamageShield,
        Step::CombatChatSpellLogMiss => kind == SessionEventKind::SpellLogMiss,
        Step::CombatLogSpellLogMiss => kind == SessionEventKind::SpellLogMiss,
        Step::CombatChatPartyKillLog => kind == SessionEventKind::PartyKillLog,
        Step::CombatChatSpellInstaKillLog => kind == SessionEventKind::SpellInstaKillLog,
        Step::CombatChatSpellOutcomeLog { immune: false } => kind == SessionEventKind::ProcResist,
        Step::CombatChatSpellOutcomeLog { immune: true } => kind == SessionEventKind::SpellOrDamageImmune,
        Step::CombatChatSpellDispelLog => kind == SessionEventKind::SpellDispelLog,
        Step::CombatChatDispelFailed => kind == SessionEventKind::DispelFailed,
        Step::CombatChatEnchantmentLog => kind == SessionEventKind::EnchantmentLog,
        Step::CombatChatSpellLogExecute => kind == SessionEventKind::SpellLogExecute,
        Step::CombatLogXpGain => kind == SessionEventKind::XpGain,
        Step::CombatLogExplorationXp => kind == SessionEventKind::ExplorationXp,
        Step::CombatLogLevelUp => kind == SessionEventKind::LevelUp,
        Step::SpellsSpellStart => kind == SessionEventKind::SpellStart,
        Step::SpellsSpellGo { .. } => kind == SessionEventKind::SpellGo,
        Step::SpellsSpellChainTargets => kind == SessionEventKind::SpellChainTargets,
        Step::SpellsSpellFailedOther => kind == SessionEventKind::SpellFailedOther,
        Step::SpellsSpellDelayed => kind == SessionEventKind::SpellDelayed,
        Step::SpellsCancelAutoRepeat => kind == SessionEventKind::CancelAutoRepeat,
        Step::SpellsSpellCooldowns { .. } => kind == SessionEventKind::SpellCooldowns,
        Step::SpellsItemCooldown => kind == SessionEventKind::ItemCooldown,
        Step::ItemsSetItemDuration { .. } => kind == SessionEventKind::ItemTime,
        Step::ItemsSetEnchantDeadline { .. } => kind == SessionEventKind::ItemEnchantTime,
        Step::SpellsCooldownEvent { .. } => kind == SessionEventKind::CooldownEvent,
        Step::SpellsClearCooldown { .. } => kind == SessionEventKind::ClearCooldown,
        Step::SpellsCooldownCheat { .. } => kind == SessionEventKind::CooldownCheat,
        Step::PetPetSpells => kind == SessionEventKind::PetSpells,
        Step::PetPetMode => kind == SessionEventKind::PetMode,
        Step::PetPetActionFeedback => kind == SessionEventKind::PetActionFeedback,
        Step::PetPetCastFailed => kind == SessionEventKind::PetCastFailed,
        Step::PetPetTameFailure => kind == SessionEventKind::PetTameFailure,
        Step::PetPetNameInvalid => kind == SessionEventKind::PetNameInvalid,
        Step::PetPetBroken => kind == SessionEventKind::PetBroken,
        Step::PetPetActionSound => kind == SessionEventKind::PetActionSound,
        Step::PetPetDismissSound => kind == SessionEventKind::PetDismissSound,
        Step::SpellsChannelStart => kind == SessionEventKind::ChannelStart,
        Step::SpellsChannelUpdate => kind == SessionEventKind::ChannelUpdate,
        Step::SpellsAuraDuration => kind == SessionEventKind::AuraDuration,
        Step::SpellsSetSpellModifier => kind == SessionEventKind::SpellModifier,
        Step::AnimPlaySpellVisual => kind == SessionEventKind::PlaySpellVisual,
        Step::CombatChatEnvironmentalDamageLog => kind == SessionEventKind::EnvironmentalDamageLog,
        Step::AnimEnvironmentalDamageLog => kind == SessionEventKind::EnvironmentalDamageLog,
        Step::NpcGossipMenu => kind == SessionEventKind::GossipMenu,
        Step::NpcNpcGreeting => kind == SessionEventKind::NpcGreeting,
        Step::NpcGossipComplete => kind == SessionEventKind::GossipComplete,
        Step::NpcGossipPoi { .. } => kind == SessionEventKind::GossipPoi,
        Step::QuestsQuestGiverStatus => kind == SessionEventKind::QuestGiverStatus,
        Step::QuestsQuestGreeting => kind == SessionEventKind::QuestGreeting,
        Step::QuestsQuestDetail => kind == SessionEventKind::QuestDetail,
        Step::QuestsQuestProgress => kind == SessionEventKind::QuestProgress,
        Step::QuestsQuestOffer => kind == SessionEventKind::QuestOffer,
        Step::QuestsQuestComplete => kind == SessionEventKind::QuestComplete,
        Step::QuestsQuestTemplate => kind == SessionEventKind::QuestTemplate,
        Step::QuestsQuestObjectiveKill => kind == SessionEventKind::QuestObjectiveKill,
        Step::QuestsQuestObjectiveItem => kind == SessionEventKind::QuestObjectiveItem,
        Step::QuestsQuestObjectivesComplete => kind == SessionEventKind::QuestObjectivesComplete,
        Step::QuestsQuestFailed => kind == SessionEventKind::QuestFailed,
        Step::QuestsQuestLogFull => kind == SessionEventKind::QuestLogFull,
        Step::QuestsQuestPushResult => kind == SessionEventKind::QuestPushResult,
        Step::QuestsQuestConfirmAccept => kind == SessionEventKind::QuestConfirmAccept,
        Step::QuestsQuestGiverInvalid => kind == SessionEventKind::QuestGiverInvalid,
        Step::QuestsQuestGiverFailed => kind == SessionEventKind::QuestGiverFailed,
        Step::NpcVendorInventory => kind == SessionEventKind::VendorInventory,
        Step::NpcShowBank => kind == SessionEventKind::ShowBank,
        Step::NpcBankBuySlotResult => kind == SessionEventKind::BuyBankSlotResult,
        Step::NpcTrainerList => kind == SessionEventKind::TrainerList,
        Step::NpcTrainerBuySucceeded => kind == SessionEventKind::TrainerBuySucceeded,
        Step::NpcTrainerBuyFailed => kind == SessionEventKind::TrainerBuyFailed,
        Step::NamesInvalidatePlayer => kind == SessionEventKind::InvalidatePlayer,
        Step::NpcListStabledPets => kind == SessionEventKind::ListStabledPets,
        Step::NpcStableResult => kind == SessionEventKind::StableResult,
        Step::NpcTaxiNodesShown => kind == SessionEventKind::TaxiNodesShown,
        Step::NpcTaxiNodeStatus => kind == SessionEventKind::TaxiNodeStatus,
        Step::NpcTaxiActivateReply => kind == SessionEventKind::ActivateTaxiReply,
        Step::NpcTaxiNewPath => kind == SessionEventKind::NewTaxiPath,
        Step::NpcVendorBuyResult => kind == SessionEventKind::VendorBuyResult,
        Step::NpcVendorBuyFailed => kind == SessionEventKind::VendorBuyFailed,
        Step::NpcVendorSellFailed => kind == SessionEventKind::VendorSellFailed,
        Step::ObjectsForceSpeedChange => kind == SessionEventKind::ForceSpeedChange,
        Step::ObjectsSpeedChanged => kind == SessionEventKind::SpeedChanged,
        Step::MountMountResult => kind == SessionEventKind::MountResult,
        Step::MountMountSpecial => kind == SessionEventKind::MountSpecial,
        Step::WriteClientControl => kind == SessionEventKind::ClientControl,
        Step::WarnPong { .. } => kind == SessionEventKind::Pong,
        Step::SessionPacketDropped => kind == SessionEventKind::PacketDropped,
        Step::MailMailList => kind == SessionEventKind::MailList,
        Step::MailSendMailResult => kind == SessionEventKind::SendMailResult,
        Step::MailMailItemText => kind == SessionEventKind::MailItemText,
        Step::PageTextsInsert => kind == SessionEventKind::PageText,
        Step::MailReceivedMail => kind == SessionEventKind::ReceivedMail,
        Step::MailNextMailTime => kind == SessionEventKind::NextMailTime,
        Step::TradeTradeStatus => kind == SessionEventKind::TradeStatus,
        Step::TradeTradeStatusExtended => kind == SessionEventKind::TradeStatusExtended,
        Step::WorldWorldStates => kind == SessionEventKind::WorldStates,
        Step::GuildEvictOwnIdentity => false,
        Step::ReportUnrouted { number } => kind == SessionEventKind::Claimed(number),
    }
}

/// Every step of the event is a handler's of its kind.
#[verifier::opaque]
pub open spec fn own_steps(event: SessionEvent, scene: Scene) -> bool {
    forall|k: int|
        0 <= k < routed(event, scene).len() ==> answers(
            #[trigger] routed(event, scene)[k],
            kind_of(event),
        )
}

proof fn lemma_own_steps_0(event: SessionEvent, scene: Scene)
    requires
        event is LoginStage || event is LoginQueued || event is LoginFailed
            || event is RealmList || event is CharacterList || event is CharActionResult
            || event is CharacterLoginFailed || event is CinematicTriggered
            || event is Connected || event is LoggedOut || event is LogoutResponse
            || event is LogoutCancelled,
    ensures
        own_steps(event, scene),
{
    reveal(own_steps);
}

proof fn lemma_own_steps_1(event: SessionEvent, scene: Scene)
    requires
        event is Disconnected || event is ItemCreate || event is ObjectMove
            || event is MoveTimeSkipped || event is UnitMove || event is MonsterMove
            || event is Teleport || event is TransferPending || event is TransferAborted
            || event is TimeSpeed || event is ServerUnixTime || event is Reputations,
    ensures
        own_steps(event, scene),
{
    reveal(own_steps);
}

proof fn lemma_own_steps_2(event: SessionEvent, scene: Scene)
    requires
        event is ReputationVisible || event is BindPoint || event is InspectHonorStats
            || event is BinderConfirm || event is SummonRequest || event is GmTicket
            || event is GmTicketSystemStatus || event is GmTicketStatusUpdate
            || event is GmTicketCreated || event is GmTicketUpdated || event is GmTicketDeleted
            || event is TalentWipeConfirm,
    ensures
        own_steps(event, scene),
{
    reveal(own_steps);
}

proof fn lemma_own_steps_3(event: SessionEvent, scene: Scene)
    requires
        event is PetUnlearnConfirm || event is RaidGroupOnly
            || event is AreaSpiritHealerTime || event is BattlefieldStatus
            || event is PvpLogData || event is BattlefieldList
            || event is GroupJoinedBattleground || event is BattlegroundPlayer
            || event is MeetingStoneSetQueue || event is MeetingStoneNotice
            || event is TutorialFlags || event is BattlefieldPositions,
    ensures
        own_steps(event, scene),
{
    reveal(own_steps);
}

proof fn lemma_own_steps_4(event: SessionEvent, scene: Scene)
    requires
        event is TabardVendorActivate || event is SaveGuildEmblemResult
            || event is PlayerBound || event is Proficiency || event is PlayerName
            || event is PetName || event is CreatureName || event is GameObjectInfo
            || event is GameObjectCustomAnim || event is GameObjectDespawnAnim
            || event is FishNotHooked || event is FishEscaped,
    ensures
        own_steps(event, scene),
{
    reveal(own_steps);
}

proof fn lemma_own_steps_5(event: SessionEvent, scene: Scene)
    requires
        event is PlaySound || event is PlayMusic || event is PlayObjectSound
            || event is Weather || event is TextEmote || event is Emote || event is SpellBook
            || event is ActionButtons || event is SpellLearned || event is SpellRemoved
            || event is SpellSuperceded || event is CastResult,
    ensures
        own_steps(event, scene),
{
    reveal(own_steps);
}

proof fn lemma_own_steps_6(event: SessionEvent, scene: Scene)
    requires
        event is InventoryFailure || event is Chat || event is ChannelNotify
            || event is ChannelList || event is ChatPlayerNotFound || event is ChatWrongFaction
            || event is ZoneUnderAttack || event is DefenseMessage || event is ServerMessage
            || event is ChatRestricted || event is Notification || event is AreaTriggerMessage,
    ensures
        own_steps(event, scene),
{
    reveal(own_steps);
}

proof fn lemma_own_steps_7(event: SessionEvent, scene: Scene)
    requires
        event is RandomRoll || event is GroupInvite || event is GroupDecline
            || event is GroupUninvited || event is GroupLeaderChanged || event is GroupDestroyed
            || event is GroupList || event is PartyCommandResult || event is PartyMemberStats
            || event is RaidTargetSet || event is RaidTargetList || event is ReadyCheckRequest,
    ensures
        own_steps(event, scene),
{
    reveal(own_steps);
}

proof fn lemma_own_steps_8(event: SessionEvent, scene: Scene)
    requires
        event is RaidInstanceInfo || event is MinimapPing || event is ReadyCheckAnswer
            || event is DuelRequested || event is RaidInstanceMessage
            || event is InstanceSaveCreated || event is InstanceReset
            || event is InstanceResetFailed || event is UpdateLastInstance
            || event is UpdateInstanceOwnership || event is DuelOutOfBounds
            || event is DuelInBounds,
    ensures
        own_steps(event, scene),
{
    reveal(own_steps);
}

proof fn lemma_own_steps_9(event: SessionEvent, scene: Scene)
    requires
        event is DuelComplete || event is DuelWinner || event is DuelCountdown
            || event is MirrorTimerStart || event is MirrorTimerPause
            || event is MirrorTimerStop || event is FriendList || event is IgnoreList
            || event is FriendStatus || event is WhoResults || event is GuildQueryResponse
            || event is GuildRoster,
    ensures
        own_steps(event, scene),
{
    reveal(own_steps);
}

proof fn lemma_own_steps_10(event: SessionEvent, scene: Scene)
    requires
        event is GuildEvent || event is GuildCommandResult || event is GuildInvite
            || event is GuildDecline || event is GuildInfo || event is PetitionShowList
            || event is PetitionShowSignatures || event is PetitionQueryResponse
            || event is PetitionSignResults || event is TurnInPetitionResults
            || event is PetitionDeclined || event is PetitionRenamed,
    ensures
        own_steps(event, scene),
{
    reveal(own_steps);
}

proof fn lemma_own_steps_11(event: SessionEvent, scene: Scene)
    requires
        event is LootResponse || event is LootError || event is LootRemoved
            || event is LootMoneyNotify || event is LootClearMoney
            || event is LootReleaseResponse || event is ItemPushResult || event is LootStartRoll
            || event is LootRoll || event is LootRollWon || event is LootAllPassed
            || event is LootMasterList,
    ensures
        own_steps(event, scene),
{
    reveal(own_steps);
}

proof fn lemma_own_steps_12(event: SessionEvent, scene: Scene)
    requires
        event is CorpseQuery || event is CorpseReclaimDelay || event is ResurrectRequest
            || event is SpiritHealerConfirm || event is DurabilityDamageDeath
            || event is MoveMode || event is SplineMoveMode || event is KnockBack
            || event is ItemTemplate || event is AttackStart || event is AttackStop
            || event is AiReaction,
    ensures
        own_steps(event, scene),
{
    reveal(own_steps);
}

proof fn lemma_own_steps_13(event: SessionEvent, scene: Scene)
    requires
        event is AttackSwingError || event is CancelCombat || event is FeignDeathResisted
            || event is PartyKillLog || event is SpellInstaKillLog || event is ProcResist
            || event is SpellOrDamageImmune || event is SpellDispelLog || event is DispelFailed
            || event is EnchantmentLog || event is SpellLogExecute || event is XpGain,
    ensures
        own_steps(event, scene),
{
    reveal(own_steps);
}

proof fn lemma_own_steps_14(event: SessionEvent, scene: Scene)
    requires
        event is ExplorationXp || event is LevelUp || event is SpellStart
            || event is SpellGo || event is SpellChainTargets || event is SpellFailedOther
            || event is SpellDelayed || event is CancelAutoRepeat || event is SpellCooldowns
            || event is ItemCooldown || event is ItemTime || event is ItemEnchantTime,
    ensures
        own_steps(event, scene),
{
    reveal(own_steps);
}

proof fn lemma_own_steps_15(event: SessionEvent, scene: Scene)
    requires
        event is CooldownEvent || event is ClearCooldown || event is CooldownCheat
            || event is PetSpells || event is PetMode || event is PetActionFeedback
            || event is PetCastFailed || event is PetTameFailure || event is PetNameInvalid
            || event is PetBroken || event is PetActionSound || event is PetDismissSound,
    ensures
        own_steps(event, scene),
{
    reveal(own_steps);
}

proof fn lemma_own_steps_16(event: SessionEvent, scene: Scene)
    requires
        event is ChannelStart || event is ChannelUpdate || event is AuraDuration
            || event is SpellModifier || event is PlaySpellVisual || event is GossipMenu
            || event is NpcGreeting || event is GossipComplete || event is GossipPoi
            || event is QuestGiverStatus || event is QuestGreeting || event is QuestDetail,
    ensures
        own_steps(event, scene),
{
    reveal(own_steps);
}

proof fn lemma_own_steps_17(event: SessionEvent, scene: Scene)
    requires
        event is QuestProgress || event is QuestOffer || event is QuestComplete
            || event is QuestTemplate || event is QuestObjectiveKill
            || event is QuestObjectiveItem || event is QuestObjectivesComplete
            || event is QuestFailed || event is QuestLogFull || event is QuestPushResult
            || event is QuestConfirmAccept || event is QuestGiverInvalid,
    ensures
        own_steps(event, scene),
{
    reveal(own_steps);
}

proof fn lemma_own_steps_18(event: SessionEvent, scene: Scene)
    requires
        event is QuestGiverFailed || event is VendorInventory || event is ShowBank
            || event is BuyBankSlotResult || event is TrainerList
            || event is TrainerBuySucceeded || event is TrainerBuyFailed
            || event is InvalidatePlayer || event is ListStabledPets || event is StableResult
            || event is TaxiNodesShown || event is TaxiNodeStatus,
    ensures
        own_steps(event, scene),
{
    reveal(own_steps);
}

proof fn lemma_own_steps_19(event: SessionEvent, scene: Scene)
    requires
        event is ActivateTaxiReply || event is NewTaxiPath || event is VendorBuyResult
            || event is VendorBuyFailed || event is VendorSellFailed
            || event is ForceSpeedChange || event is SpeedChanged || event is MountResult
            || event is MountSpecial || event is ClientControl || event is Pong
            || event is PacketDropped,
    ensures
        own_steps(event, scene),
{
    reveal(own_steps);
}

proof fn lemma_own_steps_20(event: SessionEvent, scene: Scene)
    requires
        event is MailList || event is SendMailResult || event is MailItemText
            || event is PageText || event is ReceivedMail || event is NextMailTime
            || event is TradeStatus || event is TradeStatusExtended || event is WorldStates
            || event is Claimed,
    ensures
        own_steps(event, scene),
{
    reveal(own_steps);
}

proof fn lemma_own_steps_21(event: SessionEvent, scene: Scene)
    requires
        event is ObjectCreate || event is ObjectValues || event is ObjectDestroyed
            || event is ObjectsRemoved || event is Worldport || event is ReputationDelta
            || event is PvpCredit || event is PlayedTime || event is AttackerState
            || event is SpellDamageLog || event is PeriodicAuraLog || event is SpellHealLog
            || event is SpellEnergizeLog || event is DamageShield || event is SpellLogMiss
            || event is EnvironmentalDamageLog,
    ensures
        own_steps(event, scene),
{
    reveal(own_steps);
}

proof fn lemma_own_steps(event: SessionEvent, scene: Scene)
    ensures
        own_steps(event, scene),
{
    match event {
        SessionEvent::LoginStage | SessionEvent::LoginQueued | SessionEvent::LoginFailed
        | SessionEvent::RealmList | SessionEvent::CharacterList | SessionEvent::CharActionResult
        | SessionEvent::CharacterLoginFailed | SessionEvent::CinematicTriggered
        | SessionEvent::Connected | SessionEvent::LoggedOut | SessionEvent::LogoutResponse
        | SessionEvent::LogoutCancelled => lemma_own_steps_0(event, scene),
        SessionEvent::Disconnected | SessionEvent::ItemCreate | SessionEvent::ObjectMove
        | SessionEvent::MoveTimeSkipped { .. } | SessionEvent::UnitMove
        | SessionEvent::MonsterMove { .. } | SessionEvent::Teleport
        | SessionEvent::TransferPending | SessionEvent::TransferAborted
        | SessionEvent::TimeSpeed | SessionEvent::ServerUnixTime | SessionEvent::Reputations => lemma_own_steps_1(event, scene),
        SessionEvent::ReputationVisible | SessionEvent::BindPoint { .. }
        | SessionEvent::InspectHonorStats | SessionEvent::BinderConfirm { .. }
        | SessionEvent::SummonRequest | SessionEvent::GmTicket
        | SessionEvent::GmTicketSystemStatus | SessionEvent::GmTicketStatusUpdate
        | SessionEvent::GmTicketCreated { .. } | SessionEvent::GmTicketUpdated { .. }
        | SessionEvent::GmTicketDeleted { .. } | SessionEvent::TalentWipeConfirm { .. } => lemma_own_steps_2(event, scene),
        SessionEvent::PetUnlearnConfirm { .. } | SessionEvent::RaidGroupOnly
        | SessionEvent::AreaSpiritHealerTime | SessionEvent::BattlefieldStatus
        | SessionEvent::PvpLogData | SessionEvent::BattlefieldList
        | SessionEvent::GroupJoinedBattleground | SessionEvent::BattlegroundPlayer
        | SessionEvent::MeetingStoneSetQueue | SessionEvent::MeetingStoneNotice
        | SessionEvent::TutorialFlags | SessionEvent::BattlefieldPositions => lemma_own_steps_3(event, scene),
        SessionEvent::TabardVendorActivate | SessionEvent::SaveGuildEmblemResult
        | SessionEvent::PlayerBound | SessionEvent::Proficiency { .. }
        | SessionEvent::PlayerName | SessionEvent::PetName | SessionEvent::CreatureName
        | SessionEvent::GameObjectInfo | SessionEvent::GameObjectCustomAnim
        | SessionEvent::GameObjectDespawnAnim | SessionEvent::FishNotHooked
        | SessionEvent::FishEscaped => lemma_own_steps_4(event, scene),
        SessionEvent::PlaySound | SessionEvent::PlayMusic | SessionEvent::PlayObjectSound
        | SessionEvent::Weather | SessionEvent::TextEmote | SessionEvent::Emote
        | SessionEvent::SpellBook | SessionEvent::ActionButtons | SessionEvent::SpellLearned
        | SessionEvent::SpellRemoved | SessionEvent::SpellSuperceded | SessionEvent::CastResult => lemma_own_steps_5(event, scene),
        SessionEvent::InventoryFailure | SessionEvent::Chat | SessionEvent::ChannelNotify
        | SessionEvent::ChannelList | SessionEvent::ChatPlayerNotFound
        | SessionEvent::ChatWrongFaction | SessionEvent::ZoneUnderAttack
        | SessionEvent::DefenseMessage | SessionEvent::ServerMessage
        | SessionEvent::ChatRestricted | SessionEvent::Notification
        | SessionEvent::AreaTriggerMessage => lemma_own_steps_6(event, scene),
        SessionEvent::RandomRoll | SessionEvent::GroupInvite | SessionEvent::GroupDecline
        | SessionEvent::GroupUninvited | SessionEvent::GroupLeaderChanged
        | SessionEvent::GroupDestroyed | SessionEvent::GroupList
        | SessionEvent::PartyCommandResult | SessionEvent::PartyMemberStats
        | SessionEvent::RaidTargetSet | SessionEvent::RaidTargetList
        | SessionEvent::ReadyCheckRequest => lemma_own_steps_7(event, scene),
        SessionEvent::RaidInstanceInfo | SessionEvent::MinimapPing
        | SessionEvent::ReadyCheckAnswer { .. } | SessionEvent::DuelRequested { .. }
        | SessionEvent::RaidInstanceMessage | SessionEvent::InstanceSaveCreated
        | SessionEvent::InstanceReset | SessionEvent::InstanceResetFailed
        | SessionEvent::UpdateLastInstance | SessionEvent::UpdateInstanceOwnership
        | SessionEvent::DuelOutOfBounds | SessionEvent::DuelInBounds => lemma_own_steps_8(event, scene),
        SessionEvent::DuelComplete | SessionEvent::DuelWinner | SessionEvent::DuelCountdown
        | SessionEvent::MirrorTimerStart | SessionEvent::MirrorTimerPause
        | SessionEvent::MirrorTimerStop | SessionEvent::FriendList | SessionEvent::IgnoreList
        | SessionEvent::FriendStatus | SessionEvent::WhoResults
        | SessionEvent::GuildQueryResponse | SessionEvent::GuildRoster => lemma_own_steps_9(event, scene),
        SessionEvent::GuildEvent | SessionEvent::GuildCommandResult | SessionEvent::GuildInvite
        | SessionEvent::GuildDecline | SessionEvent::GuildInfo
        | SessionEvent::PetitionShowList { .. } | SessionEvent::PetitionShowSignatures { .. }
        | SessionEvent::PetitionQueryResponse | SessionEvent::PetitionSignResults
        | SessionEvent::TurnInPetitionResults | SessionEvent::PetitionDeclined
        | SessionEvent::PetitionRenamed => lemma_own_steps_10(event, scene),
        SessionEvent::LootResponse | SessionEvent::LootError | SessionEvent::LootRemoved
        | SessionEvent::LootMoneyNotify | SessionEvent::LootClearMoney
        | SessionEvent::LootReleaseResponse | SessionEvent::ItemPushResult
        | SessionEvent::LootStartRoll | SessionEvent::LootRoll | SessionEvent::LootRollWon
        | SessionEvent::LootAllPassed | SessionEvent::LootMasterList => lemma_own_steps_11(event, scene),
        SessionEvent::CorpseQuery | SessionEvent::CorpseReclaimDelay
        | SessionEvent::ResurrectRequest | SessionEvent::SpiritHealerConfirm
        | SessionEvent::DurabilityDamageDeath | SessionEvent::MoveMode
        | SessionEvent::SplineMoveMode | SessionEvent::KnockBack | SessionEvent::ItemTemplate
        | SessionEvent::AttackStart | SessionEvent::AttackStop | SessionEvent::AiReaction => lemma_own_steps_12(event, scene),
        SessionEvent::AttackSwingError | SessionEvent::CancelCombat
        | SessionEvent::FeignDeathResisted | SessionEvent::PartyKillLog
        | SessionEvent::SpellInstaKillLog | SessionEvent::ProcResist
        | SessionEvent::SpellOrDamageImmune | SessionEvent::SpellDispelLog
        | SessionEvent::DispelFailed | SessionEvent::EnchantmentLog
        | SessionEvent::SpellLogExecute | SessionEvent::XpGain => lemma_own_steps_13(event, scene),
        SessionEvent::ExplorationXp | SessionEvent::LevelUp | SessionEvent::SpellStart
        | SessionEvent::SpellGo | SessionEvent::SpellChainTargets
        | SessionEvent::SpellFailedOther | SessionEvent::SpellDelayed
        | SessionEvent::CancelAutoRepeat | SessionEvent::SpellCooldowns { .. }
        | SessionEvent::ItemCooldown | SessionEvent::ItemTime { .. }
        | SessionEvent::ItemEnchantTime { .. } => lemma_own_steps_14(event, scene),
        SessionEvent::CooldownEvent { .. } | SessionEvent::ClearCooldown { .. }
        | SessionEvent::CooldownCheat { .. } | SessionEvent::PetSpells | SessionEvent::PetMode
        | SessionEvent::PetActionFeedback | SessionEvent::PetCastFailed
        | SessionEvent::PetTameFailure | SessionEvent::PetNameInvalid | SessionEvent::PetBroken
        | SessionEvent::PetActionSound | SessionEvent::PetDismissSound => lemma_own_steps_15(event, scene),
        SessionEvent::ChannelStart | SessionEvent::ChannelUpdate | SessionEvent::AuraDuration
        | SessionEvent::SpellModifier | SessionEvent::PlaySpellVisual | SessionEvent::GossipMenu
        | SessionEvent::NpcGreeting | SessionEvent::GossipComplete | SessionEvent::GossipPoi
        | SessionEvent::QuestGiverStatus | SessionEvent::QuestGreeting
        | SessionEvent::QuestDetail => lemma_own_steps_16(event, scene),
        SessionEvent::QuestProgress | SessionEvent::QuestOffer | SessionEvent::QuestComplete
        | SessionEvent::QuestTemplate | SessionEvent::QuestObjectiveKill
        | SessionEvent::QuestObjectiveItem | SessionEvent::QuestObjectivesComplete
        | SessionEvent::QuestFailed | SessionEvent::QuestLogFull | SessionEvent::QuestPushResult
        | SessionEvent::QuestConfirmAccept | SessionEvent::QuestGiverInvalid => lemma_own_steps_17(event, scene),
        SessionEvent::QuestGiverFailed | SessionEvent::VendorInventory | SessionEvent::ShowBank
        | SessionEvent::BuyBankSlotResult | SessionEvent::TrainerList
        | SessionEvent::TrainerBuySucceeded | SessionEvent::TrainerBuyFailed
        | SessionEvent::InvalidatePlayer | SessionEvent::ListStabledPets
        | SessionEvent::StableResult | SessionEvent::TaxiNodesShown
        | SessionEvent::TaxiNodeStatus => lemma_own_steps_18(event, scene),
        SessionEvent::ActivateTaxiReply | SessionEvent::NewTaxiPath
        | SessionEvent::VendorBuyResult | SessionEvent::VendorBuyFailed
        | SessionEvent::VendorSellFailed | SessionEvent::ForceSpeedChange
        | SessionEvent::SpeedChanged | SessionEvent::MountResult | SessionEvent::MountSpecial
        | SessionEvent::ClientControl | SessionEvent::Pong { .. } | SessionEvent::PacketDropped => lemma_own_steps_19(event, scene),
        SessionEvent::MailList | SessionEvent::SendMailResult | SessionEvent::MailItemText
        | SessionEvent::PageText | SessionEvent::ReceivedMail | SessionEvent::NextMailTime
        | SessionEvent::TradeStatus | SessionEvent::TradeStatusExtended
        | SessionEvent::WorldStates | SessionEvent::Claimed { .. } => lemma_own_steps_20(event, scene),
        SessionEvent::ObjectCreate | SessionEvent::ObjectValues
        | SessionEvent::ObjectDestroyed { .. } | SessionEvent::ObjectsRemoved { .. }
        | SessionEvent::Worldport | SessionEvent::ReputationDelta
        | SessionEvent::PvpCredit { .. } | SessionEvent::PlayedTime { .. }
        | SessionEvent::AttackerState | SessionEvent::SpellDamageLog
        | SessionEvent::PeriodicAuraLog | SessionEvent::SpellHealLog
        | SessionEvent::SpellEnergizeLog | SessionEvent::DamageShield
        | SessionEvent::SpellLogMiss | SessionEvent::EnvironmentalDamageLog => lemma_own_steps_21(event, scene),
    }
}

/// Every step that an event takes is a handler's of its own kind: a chat message goes to the chat
/// and a notification to the notifications, and no handler hears of another kind's event.
pub proof fn every_step_answers_its_own_event(
    event: &SessionEvent,
    scene: &Scene,
    r: Vec<Step>,
    k: int,
)
    requires
        call_ensures(apply_unpeeled, (event, scene), r),
        0 <= k < r@.len(),
    ensures
        answers(r@[k], kind_of(*event)),
{
    lemma_own_steps(*event, *scene);
    lemma_own_step_at(*event, *scene, k);
}

proof fn lemma_own_step_at(event: SessionEvent, scene: Scene, k: int)
    requires
        own_steps(event, scene),
        0 <= k < routed(event, scene).len(),
    ensures
        answers(routed(event, scene)[k], kind_of(event)),
{
    reveal(own_steps);
}

proof fn lemma_one_kind_answers(step: Step, a: SessionEventKind, b: SessionEventKind)
    requires
        answers(step, a),
        answers(step, b),
        !(step is GroupMemberDeactivated),
    ensures
        a == b,
{
}

/// Two events of different kinds share no step, whatever the two scenes: only the party hears of
/// an object that is destroyed as it does of one that leaves with others.
pub proof fn different_events_share_no_step(
    a: &SessionEvent,
    b: &SessionEvent,
    here: &Scene,
    there: &Scene,
    r: Vec<Step>,
    s: Vec<Step>,
    i: int,
    j: int,
)
    requires
        call_ensures(apply_unpeeled, (a, here), r),
        call_ensures(apply_unpeeled, (b, there), s),
        0 <= i < r@.len(),
        0 <= j < s@.len(),
        r@[i] == s@[j],
        !(r@[i] is GroupMemberDeactivated),
    ensures
        kind_of(*a) == kind_of(*b),
{
    every_step_answers_its_own_event(a, here, r, i);
    every_step_answers_its_own_event(b, there, s, j);
    lemma_one_kind_answers(r@[i], kind_of(*a), kind_of(*b));
}

/// An event whose handlers are several reaches each of them once, and in this order: a corpse is
/// noted before its object is made or changed, the party's roster goes before the world does, and
/// a line of the combat log comes before what it tells of happens.
pub proof fn the_handlers_of_one_event_keep_their_order(event: &SessionEvent, scene: &Scene, r: Vec<Step>)
    requires
        call_ensures(apply_unpeeled, (event, scene), r),
    ensures
        event is ObjectCreate ==> r@.len() == 2 && r@[0] is DeathNoteCorpse && r@[1] is ObjectsObjectCreate,
        event is ObjectValues ==> r@.len() == 2 && r@[0] is DeathRecheckCorpse && r@[1] is ObjectsObjectValues,
        event is Worldport ==> r@.len() == 2 && r@[0] is GroupRosterDeactivated && r@[1] is SessionWorldport,
        event is ReputationDelta ==> r@.len() == 2 && r@[0] is CombatChatFactionStanding
            && r@[1] is SessionReputationDelta,
        event is AttackerState ==> r@.len() == 2 && r@[0] is CombatChatAttackerState
            && r@[1] is CombatAttackerState,
        event is SpellDamageLog ==> r@.len() == 2 && r@[0] is CombatChatSpellDamageLog
            && r@[1] is CombatLogSpellDamageLog,
        event is PeriodicAuraLog && scene.periodic ==> r@.len() == 2 && r@[0] is CombatChatPeriodicAuraLog
            && r@[1] is CombatLogPeriodicAuraLog,
        event is SpellHealLog ==> r@.len() == 2 && r@[0] is CombatChatSpellHealLog
            && r@[1] is CombatLogSpellHealLog,
        event is SpellEnergizeLog ==> r@.len() == 2 && r@[0] is CombatChatSpellEnergizeLog
            && r@[1] is CombatLogSpellEnergizeLog,
        event is DamageShield ==> r@.len() == 2 && r@[0] is CombatChatDamageShield
            && r@[1] is CombatLogDamageShield,
        event is SpellLogMiss ==> r@.len() == 2 && r@[0] is CombatChatSpellLogMiss
            && r@[1] is CombatLogSpellLogMiss,
        event is EnvironmentalDamageLog ==> r@.len() == 2 && r@[0] is CombatChatEnvironmentalDamageLog
            && r@[1] is AnimEnvironmentalDamageLog,
{
}

/// Every other event reaches one handler at the most, and one exactly unless a rule of its own
/// drops it.
pub proof fn any_other_event_reaches_one_handler(event: &SessionEvent, scene: &Scene, r: Vec<Step>)
    requires
        call_ensures(apply_unpeeled, (event, scene), r),
        !takes_several_steps(*event),
    ensures
        r@.len() <= 1,
        !(event is MoveTimeSkipped || event is TalentWipeConfirm || event is SpellCooldowns
            || event is CooldownEvent || event is ClearCooldown || event is CooldownCheat) ==> r@.len() == 1,
{
}

/// What an event tells of is handed on as it came: its numbers reach the handler unchanged.
pub proof fn an_event_hands_its_numbers_on(event: &SessionEvent, scene: &Scene, r: Vec<Step>)
    requires
        call_ensures(apply_unpeeled, (event, scene), r),
    ensures
        *event matches SessionEvent::BindPoint { area } ==> r@ == seq![Step::SetHomeBind { area }],
        *event matches SessionEvent::BinderConfirm { npc } ==> r@ == seq![Step::BinderAsk { npc }],
        *event matches SessionEvent::Pong { sequence } ==> r@ == seq![Step::WarnPong { sequence }],
        *event matches SessionEvent::Proficiency { item_class, subclass_mask } ==> r@ == seq![
            Step::ProficienciesInsert { item_class, subclass_mask },
        ],
        *event matches SessionEvent::ItemTime { item_guid, seconds } ==> r@ == seq![
            Step::ItemsSetItemDuration { item_guid, seconds },
        ],
        *event matches SessionEvent::ItemEnchantTime { item_guid, slot, seconds } ==> r@ == seq![
            Step::ItemsSetEnchantDeadline { item_guid, slot, seconds },
        ],
        *event matches SessionEvent::PlayedTime { total, level } ==> r@.len() == 2 && r@[0]
            == (Step::AnswerPlayedTime { total, level }) && r@[1] == (Step::ChatPlayedTime { total, level }),
        *event matches SessionEvent::GmTicketDeleted { response } ==> r@ == seq![
            Step::GmTicketDeleteResponse { response },
        ],
        *event matches SessionEvent::Claimed { number } ==> r@ == seq![Step::ReportUnrouted { number }],
{
}

/// A ticket's answer is a success by the number that its own question succeeds with: two for a
/// ticket that was opened, four for one that was changed.
pub proof fn a_ticket_succeeds_by_its_own_number(event: &SessionEvent, scene: &Scene, r: Vec<Step>, answer: u32)
    requires
        call_ensures(apply_unpeeled, (event, scene), r),
        *event == (SessionEvent::GmTicketCreated { response: answer }) || *event == (SessionEvent::GmTicketUpdated {
            response: answer,
        }),
    ensures
        r@.len() == 1,
        event is GmTicketCreated ==> (r@[0] matches Step::GmTicketCreateResponse { response, success } && response
            == answer && success == 2),
        event is GmTicketUpdated ==> (r@[0] matches Step::GmTicketUpdateResponse { response, success } && response
            == answer && success == 4),
{
}

/// The object has an entity, and its entity a descriptor.
pub open spec fn descriptor(scene: Scene, guid: u64, facts: UnitFacts) -> bool {
    &&& scene.index@.contains_key(guid)
    &&& scene.stores@.contains_key(scene.index@[guid])
    &&& scene.stores@[scene.index@[guid]] == facts
}

/// The object is not streamed, or has no descriptor.
pub open spec fn undescribed(scene: Scene, guid: u64) -> bool {
    !scene.index@.contains_key(guid) || !scene.stores@.contains_key(scene.index@[guid])
}

/// A summons is asked of a player who is dead or a ghost as such: by the player's own object, and
/// of one whose object is not there as of one alive.
pub proof fn a_summons_knows_the_dead(scene: &Scene, r: Vec<Step>, me: u64, facts: UnitFacts)
    requires
        call_ensures(apply_unpeeled, (&SessionEvent::SummonRequest, scene), r),
    ensures
        scene.self_guid == Some(me) && descriptor(*scene, me, facts) ==> r@ == seq![
            Step::SummonRequest { dead_or_ghost: facts.dead || facts.spirit },
        ],
        scene.self_guid is None ==> r@ == seq![Step::SummonRequest { dead_or_ghost: false }],
        scene.self_guid == Some(me) && undescribed(*scene, me) ==> r@ == seq![
            Step::SummonRequest { dead_or_ghost: false },
        ],
{
}

/// A charter's list goes out with the roles of the one who shows it, where they are known.
pub proof fn a_charter_list_names_its_keepers_roles(scene: &Scene, npc: u64, r: Vec<Step>, facts: UnitFacts)
    requires
        call_ensures(apply_unpeeled, (&SessionEvent::PetitionShowList { npc }, scene), r),
    ensures
        descriptor(*scene, npc, facts) ==> r@ == seq![Step::PetitionShowList { npc_flags: Some(facts.npc_flags) }],
        undescribed(*scene, npc) ==> r@ == seq![Step::PetitionShowList { npc_flags: None }],
{
}

/// A player on the ignore list is ignored in a challenge and in a charter, and no one else is.
pub proof fn only_the_ignored_are_ignored(scene: &Scene, other: u64, duel: Vec<Step>, charter: Vec<Step>)
    requires
        call_ensures(apply_unpeeled, (&SessionEvent::DuelRequested { challenger: other }, scene), duel),
        call_ensures(apply_unpeeled, (&SessionEvent::PetitionShowSignatures { owner: other }, scene), charter),
    ensures
        duel@.len() == 1 && (duel@[0] matches Step::DuelRequested { self_guid, ignored } && self_guid
            == scene.self_guid && (ignored <==> scene.ignored@.contains(other))),
        charter@.len() == 1 && (charter@[0] matches Step::PetitionShowSignatures { ignored } && (ignored
            <==> scene.ignored@.contains(other))),
{
}

/// What the client says of itself when an event comes up: who it is, where it stands, whether it
/// fights, and who is rooted to the spot.
pub proof fn an_event_meets_the_client_as_it_stands(
    scene: &Scene,
    guid: u64,
    moved: Vec<Step>,
    went: Vec<Step>,
    poi: Vec<Step>,
    signed: Vec<Step>,
    guild: Vec<Step>,
)
    requires
        call_ensures(apply_unpeeled, (&SessionEvent::MonsterMove { guid }, scene), moved),
        call_ensures(apply_unpeeled, (&SessionEvent::SpellGo, scene), went),
        call_ensures(apply_unpeeled, (&SessionEvent::GossipPoi, scene), poi),
        call_ensures(apply_unpeeled, (&SessionEvent::PetitionSignResults, scene), signed),
        call_ensures(apply_unpeeled, (&SessionEvent::GuildEvent, scene), guild),
    ensures
        moved@ == seq![Step::ObjectsMonsterMove { rooted: scene.rooted@.contains(guid) }],
        went@ == seq![Step::SpellsSpellGo { engaged: scene.engaged }],
        scene.current_map matches Some(map) ==> poi@ == seq![Step::NpcGossipPoi { map }],
        scene.current_map is None ==> poi@ == seq![Step::NpcGossipPoi { map: 0 }],
        scene.self_guid matches Some(me) ==> signed@ == seq![Step::PetitionSignResults { signer: me }],
        scene.self_guid is None ==> signed@ == seq![Step::PetitionSignResults { signer: 0 }],
        guild@ == seq![Step::GuildEvent { self_guid: scene.self_guid }],
{
}

/// A ready check is answered with yes by any number but zero, for the one who answered.
pub proof fn zero_is_not_ready(scene: &Scene, who: u64, number: u8, r: Vec<Step>)
    requires
        call_ensures(apply_unpeeled, (&SessionEvent::ReadyCheckAnswer { guid: who, ready: number }, scene), r),
    ensures
        r@.len() == 1 && (r@[0] matches Step::GroupApplyReadyCheckAnswer { guid, ready } && guid == who && (ready
            <==> number > 0)),
{
}

/// A skipped stretch of a clock reaches the entity of the object it names, and only where that
/// entity replays a movement.
pub proof fn a_skipped_clock_reaches_its_mover(scene: &Scene, guid: u64, lag_ms: u32, r: Vec<Step>)
    requires
        call_ensures(apply_unpeeled, (&SessionEvent::MoveTimeSkipped { guid, lag_ms }, scene), r),
    ensures
        scene.index@.contains_key(guid) && scene.moving@.contains(scene.index@[guid]) ==> r@ == seq![
            Step::RelaySkipTime { entity: scene.index@[guid], lag_ms },
        ],
        !scene.index@.contains_key(guid) ==> r@.len() == 0,
        scene.index@.contains_key(guid) && !scene.moving@.contains(scene.index@[guid]) ==> r@.len() == 0,
{
}

/// An object that is destroyed is forgotten by the dead first, then heard of by the party while
/// its descriptor is still there, and goes last.
pub proof fn a_destroyed_object_goes_last(scene: &Scene, guid: u64, r: Vec<Step>)
    requires
        call_ensures(apply_unpeeled, (&SessionEvent::ObjectDestroyed { guid }, scene), r),
    ensures
        r@.len() == 3,
        r@[0] == (Step::DeathForgetCorpse { guid }),
        r@[1] == (Step::GroupMemberDeactivated { guid, stored: !undescribed(*scene, guid) }),
        r@[2] == (Step::ObjectsObjectDestroyed { guid }),
{
}

/// Objects that leave together go last, after the party has heard of each of them in the order of
/// the packet.
pub proof fn objects_that_leave_together_are_each_named(
    scene: &Scene,
    guids: Vec<u64>,
    r: Vec<Step>,
    k: int,
)
    requires
        call_ensures(apply_unpeeled, (&SessionEvent::ObjectsRemoved { guids }, scene), r),
    ensures
        r@.len() == guids@.len() + 1,
        r@.last() == Step::ObjectsObjectsRemoved,
        0 <= k < guids@.len() ==> r@[k] == (Step::GroupMemberDeactivated {
            guid: guids@[k],
            stored: !undescribed(*scene, guids@[k]),
        }),
{
}

/// An award of honor is written with its own number twice, as a line on its victim and as a
/// floating number; a rank that is no byte counts as none.
pub proof fn an_award_is_written_twice(scene: &Scene, honor: i32, victim_guid: u64, victim_rank: i64, r: Vec<Step>)
    requires
        call_ensures(apply_unpeeled, (&SessionEvent::PvpCredit { honor, victim_guid, victim_rank }, scene), r),
    ensures
        r@.len() == 2,
        r@[0] matches Step::ChatLogPushPvpCredit { honor: h, victim_guid: v, rank } && h == honor && v == victim_guid
            && (0 <= victim_rank < 256 ==> rank == victim_rank) && (!(0 <= victim_rank < 256) ==> rank == 0),
        r@[1] == (Step::CombatTextHonorGained { honor }),
{
}

/// A trainer's question is asked with its own price; without a trainer a talent question is
/// dropped and a pet's is an error.
pub proof fn a_question_needs_a_trainer(scene: &Scene, trainer: u64, cost: u32, talents: Vec<Step>, pet: Vec<Step>)
    requires
        call_ensures(apply_unpeeled, (&SessionEvent::TalentWipeConfirm { trainer, cost }, scene), talents),
        call_ensures(apply_unpeeled, (&SessionEvent::PetUnlearnConfirm { trainer, cost }, scene), pet),
    ensures
        trainer != 0 ==> talents@ == seq![Step::TalentWipeAsk { trainer, cost }],
        trainer != 0 ==> pet@ == seq![Step::PetUnlearnAsk { trainer, cost }],
        trainer == 0 ==> talents@.len() == 0,
        trainer == 0 ==> pet@ == seq![Step::UiErrorTalentWipe],
{
}

/// The steps are one for a store the client holds, and none for a caster of whom it holds none.
pub open spec fn stored_by_caster(scene: Scene, caster: u64, steps: Seq<Step>, by_player: Step, by_pet: Step) -> bool {
    &&& scene.self_guid == Some(caster) ==> steps == seq![by_player]
    &&& scene.self_guid != Some(caster) && scene.pet == Some(caster) ==> steps == seq![by_pet]
    &&& scene.self_guid != Some(caster) && scene.pet != Some(caster) ==> steps.len() == 0
}

/// A cooldown packet writes the store of the one it names and no other: ours for our own guid,
/// the pet's for the pet's, and it is dropped for anyone else.
pub proof fn a_cooldown_lands_in_its_casters_store(
    scene: &Scene,
    caster: u64,
    spell_id: u32,
    listed: Vec<Step>,
    began: Vec<Step>,
    cleared: Vec<Step>,
    cheated: Vec<Step>,
)
    requires
        call_ensures(apply_unpeeled, (&SessionEvent::SpellCooldowns { caster }, scene), listed),
        call_ensures(apply_unpeeled, (&SessionEvent::CooldownEvent { spell_id, caster }, scene), began),
        call_ensures(apply_unpeeled, (&SessionEvent::ClearCooldown { spell_id, caster }, scene), cleared),
        call_ensures(apply_unpeeled, (&SessionEvent::CooldownCheat { caster }, scene), cheated),
    ensures
        stored_by_caster(
            *scene,
            caster,
            listed@,
            Step::SpellsSpellCooldowns { store: CooldownStore::Player, caster },
            Step::SpellsSpellCooldowns { store: CooldownStore::Pet, caster },
        ),
        stored_by_caster(
            *scene,
            caster,
            began@,
            Step::SpellsCooldownEvent { store: CooldownStore::Player, spell_id, caster },
            Step::SpellsCooldownEvent { store: CooldownStore::Pet, spell_id, caster },
        ),
        stored_by_caster(
            *scene,
            caster,
            cleared@,
            Step::SpellsClearCooldown { store: CooldownStore::Player, spell_id, caster },
            Step::SpellsClearCooldown { store: CooldownStore::Pet, spell_id, caster },
        ),
        stored_by_caster(
            *scene,
            caster,
            cheated@,
            Step::SpellsCooldownCheat { store: CooldownStore::Player, caster },
            Step::SpellsCooldownCheat { store: CooldownStore::Pet, caster },
        ),
{
}

/// A stamp is drawn by the verdict and the course of a cast and by a blow, and by no other step.
pub proof fn casts_and_blows_draw_stamps(step: &Step, r: bool)
    requires
        call_ensures(draws_stamp, (step,), r),
    ensures
        r ==> answers(*step, SessionEventKind::CastResult) || answers(*step, SessionEventKind::AttackerState) || answers(
            *step,
            SessionEventKind::SpellStart,
        ) || answers(*step, SessionEventKind::SpellGo) || answers(*step, SessionEventKind::SpellFailedOther),
        answers(*step, SessionEventKind::CastResult) || answers(*step, SessionEventKind::SpellStart) || answers(
            *step,
            SessionEventKind::SpellGo,
        ) || answers(*step, SessionEventKind::SpellFailedOther) ==> r,
        *step is CombatAttackerState ==> r,
        *step is CombatChatAttackerState ==> !r,
{
}

/// A saved emblem evicts our guild's record, and one that was not saved leaves it.
pub proof fn only_a_saved_emblem_evicts(saved: bool, r: Vec<Step>)
    requires
        call_ensures(emblem_answered, (saved,), r),
    ensures
        saved ==> r@ == seq![Step::GuildEvictOwnIdentity],
        !saved ==> r@.len() == 0,
{
}

/// The descriptors that are staged after others land after them: one more lands last, on the
/// entity its object has now, or not at all where the object has left.
pub proof fn a_later_descriptor_lands_later(pending: Seq<Staged>, more: Staged, index: Map<u64, u64>)
    ensures
        index.contains_key(more.guid) ==> landed(pending.push(more), index).drop_last() == landed(pending, index)
            && landed(pending.push(more), index).last() == (Landing {
            entity: index[more.guid],
            fields: more.fields,
        }),
        !index.contains_key(more.guid) ==> landed(pending.push(more), index) == landed(pending, index),
{
    assert(pending.push(more).drop_last() =~= pending);
    assert(index.contains_key(more.guid) ==> landed(pending.push(more), index).drop_last() =~= landed(pending, index));
}

/// A drain that staged something for one object lands it on that object's entity and on no other.
pub proof fn a_drain_lands_what_was_staged(
    pending: &Vec<Staged>,
    index: &HashMap<u64, u64>,
    r: Vec<Landing>,
    staged: Staged,
)
    requires
        call_ensures(flush_pending, (pending, index), r),
        pending@ == seq![staged],
    ensures
        index@.contains_key(staged.guid) ==> r@ == seq![Landing { entity: index@[staged.guid], fields: staged.fields }],
        !index@.contains_key(staged.guid) ==> r@.len() == 0,
{
    let none: Seq<Staged> = seq![];
    assert(pending@ =~= none.push(staged));
    assert(landed(none, index@) =~= seq![]);
    a_later_descriptor_lands_later(none, staged, index@);
    if index@.contains_key(staged.guid) {
        assert(landed(pending@, index@) =~= landed(none, index@).push(landed(pending@, index@).last()));
    }
}

/// The entities that show our own player are tagged, each of them and no other, and none before
/// the session has named the player.
pub proof fn only_our_own_entities_are_tagged(
    self_guid: Option<u64>,
    untagged: &Vec<Untagged>,
    r: Vec<u64>,
    k: int,
)
    requires
        call_ensures(tag_self_player, (self_guid, untagged), r),
    ensures
        self_guid is None ==> r@.len() == 0,
        0 <= k < untagged@.len() && self_guid == Some(untagged@[k].guid) ==> r@.contains(untagged@[k].entity),
        0 <= k < r@.len() ==> exists|j: int|
            0 <= j < untagged@.len() && self_guid == Some((#[trigger] untagged@[j]).guid) && untagged@[j].entity
                == r@[k],
{
    broadcast use vstd::seq_lib::group_filter_ensures;

    if let Some(me) = self_guid {
        let mine = |u: Untagged| u.guid == me;
        let kept = untagged@.filter(mine);
        assert(r@ =~= kept.map_values(|u: Untagged| u.entity));
        if 0 <= k < untagged@.len() && untagged@[k].guid == me {
            assert(kept.contains(untagged@[k]));
            let j = choose|j: int| 0 <= j < kept.len() && kept[j] == untagged@[k];
            assert(r@[j] == untagged@[k].entity);
        }
        if 0 <= k < r@.len() {
            assert(mine(kept[k]));
            assert(kept.contains(kept[k]));
            untagged@.lemma_filter_contains_rev(mine, kept[k]);
            let j = choose|j: int| 0 <= j < untagged@.len() && untagged@[j] == kept[k];
            assert(untagged@[j].entity == r@[k]);
        }
    }
}

} // verus!
