//! What the dispatch asks the rest of the client to do: one step per handler, with the arguments
//! that the dispatch decides.
use vstd::prelude::*;

verus! {

/// The world broadcasts that the chat window resolves later.
#[derive(Clone, Copy, Debug, PartialEq, Eq, Structural)]
pub enum Broadcast {
    ZoneUnderAttack,
    Defense,
    Server,
    ChatRestricted,
}

/// The edges of a mirror timer (breath, fatigue, feign death).
#[derive(Clone, Copy, Debug, PartialEq, Eq, Structural)]
pub enum MirrorTimerEdge {
    Start,
    Pause,
    Stop,
}

/// The two cooldown stores the client holds.
#[derive(Clone, Copy, Debug, PartialEq, Eq, Structural)]
pub enum CooldownStore {
    Player,
    Pet,
}

/// One call the dispatch makes, named after the family and the handler it reaches.
#[derive(Clone, Copy, Debug, PartialEq, Eq, Structural)]
pub enum Step {
    SessionLoginStage,
    WriteLoginQueued,
    SessionLoginFailed,
    WriteRealmList,
    SessionCharacterList,
    SessionCharActionResult,
    SessionCharacterLoginFailed,
    SessionCinematicTriggered,
    SessionConnected,
    SessionLoggedOut,
    LogoutApplyResponse,
    LogoutApplyCancelled,
    SessionDisconnected,
    DeathNoteCorpse,
    ObjectsObjectCreate,
    ObjectsItemCreate,
    ObjectsObjectMove,
    RelaySkipTime { entity: u64, lag_ms: u32 },
    ObjectsUnitMove,
    DeathRecheckCorpse,
    ObjectsObjectValues,
    DeathForgetCorpse { guid: u64 },
    GroupMemberDeactivated { guid: u64, stored: bool },
    ObjectsObjectDestroyed { guid: u64 },
    ObjectsObjectsRemoved,
    ObjectsMonsterMove { rooted: bool },
    SessionTeleport,
    GroupRosterDeactivated,
    SessionWorldport,
    SessionTransferPending,
    SessionTransferAborted,
    SessionTimeSpeed,
    SessionServerUnixTime,
    SessionReputations,
    CombatChatFactionStanding,
    SessionReputationDelta,
    SessionReputationVisible,
    SetHomeBind { area: u32 },
    KeepInspectHonor,
    ChatLogPushPvpCredit { honor: i32, victim_guid: u64, rank: u8 },
    CombatTextHonorGained { honor: i32 },
    BinderAsk { npc: u64 },
    SummonRequest { dead_or_ghost: bool },
    GmTicketAnswer,
    GmTicketAnswerQueue,
    GmTicketApplyStatusUpdate,
    GmTicketCreateResponse { response: u32, success: u32 },
    GmTicketUpdateResponse { response: u32, success: u32 },
    GmTicketDeleteResponse { response: u32 },
    TalentWipeAsk { trainer: u64, cost: u32 },
    UiErrorTalentWipe,
    PetUnlearnAsk { trainer: u64, cost: u32 },
    InstanceBootApply,
    AreaSpiritOnTime,
    BattlefieldQueueApply,
    BattlefieldScoreboardApply,
    BattlefieldApplyList,
    BattlefieldApplyVerdict,
    BattlefieldApplyPlayer,
    MeetingStoneApply,
    MeetingStoneApplyNotice,
    TutorialsApplyFlags,
    BattlefieldPositionsApply,
    TabardOpen,
    TabardApplyResult,
    BinderBound,
    ProficienciesInsert { item_class: u8, subclass_mask: u32 },
    NamesPlayerName,
    NamesPetName,
    NamesCreatureName,
    ObjectsGameobjectInfo,
    ObjectsGameobjectCustomAnim,
    ObjectsGameobjectDespawnAnim,
    LootFishVerdict { escaped: bool },
    WorldPlaySound,
    WorldPlayMusic,
    WorldPlayObjectSound,
    WorldWeather,
    AnimTextEmote,
    AnimEmote,
    SpellsSpellBook,
    SpellsActionButtons,
    SpellsLearnedSpell,
    SpellsRemovedSpell,
    SpellsSupercededSpell,
    SpellsCastResult,
    LootInventoryFailure,
    ChatChat,
    ChatLogPushChannelNotice,
    ChatChannelList,
    ChatPlayerNotFound,
    ChatWrongFaction,
    ChatBroadcast { what: Broadcast },
    ChatNotification,
    ChatAreaTriggerMessage,
    AnswerPlayedTime { total: u32, level: u32 },
    ChatPlayedTime { total: u32, level: u32 },
    ChatLogPushRoll,
    GroupInvited,
    GroupDeclined,
    GroupUninvited,
    GroupLeaderChanged,
    GroupDestroyed,
    GroupList,
    GroupCommandResult,
    GroupApplyStats,
    GroupApplyRaidTarget,
    GroupApplyRaidTargetList,
    GroupReadyCheckRequest,
    GroupApplyRaidInstanceInfo,
    PingSeat,
    GroupApplyReadyCheckAnswer { guid: u64, ready: bool },
    DuelRequested { self_guid: Option<u64>, ignored: bool },
    InstanceRaidInstanceMessage,
    InstanceSaveCreated,
    InstanceReset,
    InstanceResetFailed,
    InstanceUpdateLastInstance,
    InstanceUpdateOwnership,
    DuelBounds { out: bool },
    DuelComplete,
    DuelWinner,
    DuelCountdown,
    PushMirrorTimer { edge: MirrorTimerEdge },
    SocialFriendList,
    SocialIgnoreList,
    SocialFriendStatus,
    SocialWho,
    GuildQueryResponse,
    GuildRoster,
    GuildEvent { self_guid: Option<u64> },
    GuildCommandResult,
    GuildInvite,
    GuildDecline,
    GuildInfo,
    PetitionShowList { npc_flags: Option<u32> },
    PetitionShowSignatures { ignored: bool },
    PetitionQueryResponse,
    PetitionSignResults { signer: u64 },
    PetitionTurnInResults,
    PetitionDeclined,
    PetitionRenamed,
    LootResponse,
    LootError,
    LootRemoved,
    LootMoneyNotify,
    LootClearMoney,
    LootReleaseResponse,
    LootItemPushResult,
    LootStartRoll,
    LootRoll,
    LootRollWon,
    LootAllPassed,
    LootMasterList,
    DeathCorpseQuery,
    DeathCorpseReclaimDelay,
    DeathResurrectRequest,
    DeathSpiritHealerConfirm,
    DeathDurabilityDamageDeath,
    DeathMoveMode,
    ObjectsSplineMoveMode,
    SessionKnockBack,
    LootItemTemplate,
    CombatAttackStart,
    CombatAttackStop,
    CombatAiReaction,
    CombatChatAttackerState,
    CombatAttackerState,
    CombatAttackSwingError,
    CombatCancelCombat,
    CombatFeignDeathResisted,
    CombatChatSpellDamageLog,
    CombatLogSpellDamageLog,
    CombatChatPeriodicAuraLog,
    CombatLogPeriodicAuraLog,
    CombatChatSpellHealLog,
    CombatLogSpellHealLog,
    CombatChatSpellEnergizeLog,
    CombatLogSpellEnergizeLog,
    CombatChatDamageShield,
    CombatLogDamageShield,
    CombatChatSpellLogMiss,
    CombatLogSpellLogMiss,
    CombatChatPartyKillLog,
    CombatChatSpellInstaKillLog,
    CombatChatSpellOutcomeLog { immune: bool },
    CombatChatSpellDispelLog,
    CombatChatDispelFailed,
    CombatChatEnchantmentLog,
    CombatChatSpellLogExecute,
    CombatLogXpGain,
    CombatLogExplorationXp,
    CombatLogLevelUp,
    SpellsSpellStart,
    SpellsSpellGo { engaged: bool },
    SpellsSpellChainTargets,
    SpellsSpellFailedOther,
    SpellsSpellDelayed,
    SpellsCancelAutoRepeat,
    SpellsSpellCooldowns { store: CooldownStore, caster: u64 },
    SpellsItemCooldown,
    ItemsSetItemDuration { item_guid: u64, seconds: u32 },
    ItemsSetEnchantDeadline { item_guid: u64, slot: u32, seconds: u32 },
    SpellsCooldownEvent { store: CooldownStore, spell_id: u32, caster: u64 },
    SpellsClearCooldown { store: CooldownStore, spell_id: u32, caster: u64 },
    SpellsCooldownCheat { store: CooldownStore, caster: u64 },
    PetPetSpells,
    PetPetMode,
    PetPetActionFeedback,
    PetPetCastFailed,
    PetPetTameFailure,
    PetPetNameInvalid,
    PetPetBroken,
    PetPetActionSound,
    PetPetDismissSound,
    SpellsChannelStart,
    SpellsChannelUpdate,
    SpellsAuraDuration,
    SpellsSetSpellModifier,
    AnimPlaySpellVisual,
    CombatChatEnvironmentalDamageLog,
    AnimEnvironmentalDamageLog,
    NpcGossipMenu,
    NpcNpcGreeting,
    NpcGossipComplete,
    NpcGossipPoi { map: u32 },
    QuestsQuestGiverStatus,
    QuestsQuestGreeting,
    QuestsQuestDetail,
    QuestsQuestProgress,
    QuestsQuestOffer,
    QuestsQuestComplete,
    QuestsQuestTemplate,
    QuestsQuestObjectiveKill,
    QuestsQuestObjectiveItem,
    QuestsQuestObjectivesComplete,
    QuestsQuestFailed,
    QuestsQuestLogFull,
    QuestsQuestPushResult,
    QuestsQuestConfirmAccept,
    QuestsQuestGiverInvalid,
    QuestsQuestGiverFailed,
    NpcVendorInventory,
    NpcShowBank,
    NpcBankBuySlotResult,
    NpcTrainerList,
    NpcTrainerBuySucceeded,
    NpcTrainerBuyFailed,
    NamesInvalidatePlayer,
    NpcListStabledPets,
    NpcStableResult,
    NpcTaxiNodesShown,
    NpcTaxiNodeStatus,
    NpcTaxiActivateReply,
    NpcTaxiNewPath,
    NpcVendorBuyResult,
    NpcVendorBuyFailed,
    NpcVendorSellFailed,
    ObjectsForceSpeedChange,
    ObjectsSpeedChanged,
    MountMountResult,
    MountMountSpecial,
    WriteClientControl,
    WarnPong { sequence: u32 },
    SessionPacketDropped,
    MailMailList,
    MailSendMailResult,
    MailMailItemText,
    PageTextsInsert,
    MailReceivedMail,
    MailNextMailTime,
    TradeTradeStatus,
    TradeTradeStatusExtended,
    WorldWorldStates,
    /// The follow-up of a saved guild emblem.
    GuildEvictOwnIdentity,
    /// An event reached the dispatch whose kind nobody routes.
    ReportUnrouted { number: u16 },
}

/// The steps that draw one animation stamp when they run.
pub open spec fn stamped(step: Step) -> bool {
    step is SpellsCastResult || step is CombatAttackerState || step is SpellsSpellStart
        || step is SpellsSpellGo || step is SpellsSpellFailedOther
}

/// Decides whether a step draws an animation stamp.
pub fn draws_stamp(step: &Step) -> (r: bool)
    ensures
        r == stamped(*step),
{
    match step {
        Step::SpellsCastResult => true,
        Step::CombatAttackerState => true,
        Step::SpellsSpellStart => true,
        Step::SpellsSpellGo { .. } => true,
        Step::SpellsSpellFailedOther => true,
        _ => false,
    }
}

} // verus!
