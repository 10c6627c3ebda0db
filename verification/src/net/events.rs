//! What the server sends, as far as the client decides by it: one variant per kind of event, with
//! the fields that a decision reads. A field that is only carried to a handler stays with the
//! packet.
use vstd::prelude::*;

verus! {

/// The kinds of session event that the dispatch routes itself, and those a subsystem has claimed.
#[derive(Clone, Copy, Debug, PartialEq, Eq, Structural)]
pub enum SessionEventKind {
    LoginStage,
    LoginQueued,
    LoginFailed,
    RealmList,
    CharacterList,
    CharActionResult,
    CharacterLoginFailed,
    CinematicTriggered,
    Connected,
    LoggedOut,
    LogoutResponse,
    LogoutCancelled,
    Disconnected,
    ObjectCreate,
    ItemCreate,
    ObjectMove,
    MoveTimeSkipped,
    UnitMove,
    ObjectValues,
    ObjectDestroyed,
    ObjectsRemoved,
    MonsterMove,
    Teleport,
    Worldport,
    TransferPending,
    TransferAborted,
    TimeSpeed,
    ServerUnixTime,
    Reputations,
    ReputationDelta,
    ReputationVisible,
    BindPoint,
    InspectHonorStats,
    PvpCredit,
    BinderConfirm,
    SummonRequest,
    GmTicket,
    GmTicketSystemStatus,
    GmTicketStatusUpdate,
    GmTicketCreated,
    GmTicketUpdated,
    GmTicketDeleted,
    TalentWipeConfirm,
    PetUnlearnConfirm,
    RaidGroupOnly,
    AreaSpiritHealerTime,
    BattlefieldStatus,
    PvpLogData,
    BattlefieldList,
    GroupJoinedBattleground,
    BattlegroundPlayer,
    MeetingStoneSetQueue,
    MeetingStoneNotice,
    TutorialFlags,
    BattlefieldPositions,
    TabardVendorActivate,
    SaveGuildEmblemResult,
    PlayerBound,
    Proficiency,
    PlayerName,
    PetName,
    CreatureName,
    GameObjectInfo,
    GameObjectCustomAnim,
    GameObjectDespawnAnim,
    FishNotHooked,
    FishEscaped,
    PlaySound,
    PlayMusic,
    PlayObjectSound,
    Weather,
    TextEmote,
    Emote,
    SpellBook,
    ActionButtons,
    SpellLearned,
    SpellRemoved,
    SpellSuperceded,
    CastResult,
    InventoryFailure,
    Chat,
    ChannelNotify,
    ChannelList,
    ChatPlayerNotFound,
    ChatWrongFaction,
    ZoneUnderAttack,
    DefenseMessage,
    ServerMessage,
    ChatRestricted,
    Notification,
    AreaTriggerMessage,
    PlayedTime,
    RandomRoll,
    GroupInvite,
    GroupDecline,
    GroupUninvited,
    GroupLeaderChanged,
    GroupDestroyed,
    GroupList,
    PartyCommandResult,
    PartyMemberStats,
    RaidTargetSet,
    RaidTargetList,
    ReadyCheckRequest,
    RaidInstanceInfo,
    MinimapPing,
    ReadyCheckAnswer,
    DuelRequested,
    RaidInstanceMessage,
    InstanceSaveCreated,
    InstanceReset,
    InstanceResetFailed,
    UpdateLastInstance,
    UpdateInstanceOwnership,
    DuelOutOfBounds,
    DuelInBounds,
    DuelComplete,
    DuelWinner,
    DuelCountdown,
    MirrorTimerStart,
    MirrorTimerPause,
    MirrorTimerStop,
    FriendList,
    IgnoreList,
    FriendStatus,
    WhoResults,
    GuildQueryResponse,
    GuildRoster,
    GuildEvent,
    GuildCommandResult,
    GuildInvite,
    GuildDecline,
    GuildInfo,
    PetitionShowList,
    PetitionShowSignatures,
    PetitionQueryResponse,
    PetitionSignResults,
    TurnInPetitionResults,
    PetitionDeclined,
    PetitionRenamed,
    LootResponse,
    LootError,
    LootRemoved,
    LootMoneyNotify,
    LootClearMoney,
    LootReleaseResponse,
    ItemPushResult,
    LootStartRoll,
    LootRoll,
    LootRollWon,
    LootAllPassed,
    LootMasterList,
    CorpseQuery,
    CorpseReclaimDelay,
    ResurrectRequest,
    SpiritHealerConfirm,
    DurabilityDamageDeath,
    MoveMode,
    SplineMoveMode,
    KnockBack,
    ItemTemplate,
    AttackStart,
    AttackStop,
    AiReaction,
    AttackerState,
    AttackSwingError,
    CancelCombat,
    FeignDeathResisted,
    SpellDamageLog,
    PeriodicAuraLog,
    SpellHealLog,
    SpellEnergizeLog,
    DamageShield,
    SpellLogMiss,
    PartyKillLog,
    SpellInstaKillLog,
    ProcResist,
    SpellOrDamageImmune,
    SpellDispelLog,
    DispelFailed,
    EnchantmentLog,
    SpellLogExecute,
    XpGain,
    ExplorationXp,
    LevelUp,
    SpellStart,
    SpellGo,
    SpellChainTargets,
    SpellFailedOther,
    SpellDelayed,
    CancelAutoRepeat,
    SpellCooldowns,
    ItemCooldown,
    ItemTime,
    ItemEnchantTime,
    CooldownEvent,
    ClearCooldown,
    CooldownCheat,
    PetSpells,
    PetMode,
    PetActionFeedback,
    PetCastFailed,
    PetTameFailure,
    PetNameInvalid,
    PetBroken,
    PetActionSound,
    PetDismissSound,
    ChannelStart,
    ChannelUpdate,
    AuraDuration,
    SpellModifier,
    PlaySpellVisual,
    EnvironmentalDamageLog,
    GossipMenu,
    NpcGreeting,
    GossipComplete,
    GossipPoi,
    QuestGiverStatus,
    QuestGreeting,
    QuestDetail,
    QuestProgress,
    QuestOffer,
    QuestComplete,
    QuestTemplate,
    QuestObjectiveKill,
    QuestObjectiveItem,
    QuestObjectivesComplete,
    QuestFailed,
    QuestLogFull,
    QuestPushResult,
    QuestConfirmAccept,
    QuestGiverInvalid,
    QuestGiverFailed,
    VendorInventory,
    ShowBank,
    BuyBankSlotResult,
    TrainerList,
    TrainerBuySucceeded,
    TrainerBuyFailed,
    InvalidatePlayer,
    ListStabledPets,
    StableResult,
    TaxiNodesShown,
    TaxiNodeStatus,
    ActivateTaxiReply,
    NewTaxiPath,
    VendorBuyResult,
    VendorBuyFailed,
    VendorSellFailed,
    ForceSpeedChange,
    SpeedChanged,
    MountResult,
    MountSpecial,
    ClientControl,
    Pong,
    PacketDropped,
    MailList,
    SendMailResult,
    MailItemText,
    PageText,
    ReceivedMail,
    NextMailTime,
    TradeStatus,
    TradeStatusExtended,
    WorldStates,
    /// A kind that has no route of its own, by its number on the wire side.
    Claimed(u16),
}

/// One event of a session.
#[derive(Debug, PartialEq, Eq)]
pub enum SessionEvent {
    LoginStage,
    LoginQueued,
    LoginFailed,
    RealmList,
    CharacterList,
    CharActionResult,
    CharacterLoginFailed,
    CinematicTriggered,
    Connected,
    LoggedOut,
    LogoutResponse,
    LogoutCancelled,
    Disconnected,
    ObjectCreate,
    ItemCreate,
    ObjectMove,
    MoveTimeSkipped { guid: u64, lag_ms: u32 },
    UnitMove,
    ObjectValues,
    ObjectDestroyed { guid: u64 },
    ObjectsRemoved { guids: Vec<u64> },
    MonsterMove { guid: u64 },
    Teleport,
    Worldport,
    TransferPending,
    TransferAborted,
    TimeSpeed,
    ServerUnixTime,
    Reputations,
    ReputationDelta,
    ReputationVisible,
    BindPoint { area: u32 },
    InspectHonorStats,
    PvpCredit { honor: i32, victim_guid: u64, victim_rank: i64 },
    BinderConfirm { npc: u64 },
    SummonRequest,
    GmTicket,
    GmTicketSystemStatus,
    GmTicketStatusUpdate,
    GmTicketCreated { response: u32 },
    GmTicketUpdated { response: u32 },
    GmTicketDeleted { response: u32 },
    TalentWipeConfirm { trainer: u64, cost: u32 },
    PetUnlearnConfirm { trainer: u64, cost: u32 },
    RaidGroupOnly,
    AreaSpiritHealerTime,
    BattlefieldStatus,
    PvpLogData,
    BattlefieldList,
    GroupJoinedBattleground,
    BattlegroundPlayer,
    MeetingStoneSetQueue,
    MeetingStoneNotice,
    TutorialFlags,
    BattlefieldPositions,
    TabardVendorActivate,
    SaveGuildEmblemResult,
    PlayerBound,
    Proficiency { item_class: u8, subclass_mask: u32 },
    PlayerName,
    PetName,
    CreatureName,
    GameObjectInfo,
    GameObjectCustomAnim,
    GameObjectDespawnAnim,
    FishNotHooked,
    FishEscaped,
    PlaySound,
    PlayMusic,
    PlayObjectSound,
    Weather,
    TextEmote,
    Emote,
    SpellBook,
    ActionButtons,
    SpellLearned,
    SpellRemoved,
    SpellSuperceded,
    CastResult,
    InventoryFailure,
    Chat,
    ChannelNotify,
    ChannelList,
    ChatPlayerNotFound,
    ChatWrongFaction,
    ZoneUnderAttack,
    DefenseMessage,
    ServerMessage,
    ChatRestricted,
    Notification,
    AreaTriggerMessage,
    PlayedTime { total: u32, level: u32 },
    RandomRoll,
    GroupInvite,
    GroupDecline,
    GroupUninvited,
    GroupLeaderChanged,
    GroupDestroyed,
    GroupList,
    PartyCommandResult,
    PartyMemberStats,
    RaidTargetSet,
    RaidTargetList,
    ReadyCheckRequest,
    RaidInstanceInfo,
    MinimapPing,
    ReadyCheckAnswer { guid: u64, ready: u8 },
    DuelRequested { challenger: u64 },
    RaidInstanceMessage,
    InstanceSaveCreated,
    InstanceReset,
    InstanceResetFailed,
    UpdateLastInstance,
    UpdateInstanceOwnership,
    DuelOutOfBounds,
    DuelInBounds,
    DuelComplete,
    DuelWinner,
    DuelCountdown,
    MirrorTimerStart,
    MirrorTimerPause,
    MirrorTimerStop,
    FriendList,
    IgnoreList,
    FriendStatus,
    WhoResults,
    GuildQueryResponse,
    GuildRoster,
    GuildEvent,
    GuildCommandResult,
    GuildInvite,
    GuildDecline,
    GuildInfo,
    PetitionShowList { npc: u64 },
    PetitionShowSignatures { owner: u64 },
    PetitionQueryResponse,
    PetitionSignResults,
    TurnInPetitionResults,
    PetitionDeclined,
    PetitionRenamed,
    LootResponse,
    LootError,
    LootRemoved,
    LootMoneyNotify,
    LootClearMoney,
    LootReleaseResponse,
    ItemPushResult,
    LootStartRoll,
    LootRoll,
    LootRollWon,
    LootAllPassed,
    LootMasterList,
    CorpseQuery,
    CorpseReclaimDelay,
    ResurrectRequest,
    SpiritHealerConfirm,
    DurabilityDamageDeath,
    MoveMode,
    SplineMoveMode,
    KnockBack,
    ItemTemplate,
    AttackStart,
    AttackStop,
    AiReaction,
    AttackerState,
    AttackSwingError,
    CancelCombat,
    FeignDeathResisted,
    SpellDamageLog,
    PeriodicAuraLog,
    SpellHealLog,
    SpellEnergizeLog,
    DamageShield,
    SpellLogMiss,
    PartyKillLog,
    SpellInstaKillLog,
    ProcResist,
    SpellOrDamageImmune,
    SpellDispelLog,
    DispelFailed,
    EnchantmentLog,
    SpellLogExecute,
    XpGain,
    ExplorationXp,
    LevelUp,
    SpellStart,
    SpellGo,
    SpellChainTargets,
    SpellFailedOther,
    SpellDelayed,
    CancelAutoRepeat,
    SpellCooldowns { caster: u64 },
    ItemCooldown,
    ItemTime { item_guid: u64, seconds: u32 },
    ItemEnchantTime { item_guid: u64, slot: u32, seconds: u32 },
    CooldownEvent { spell_id: u32, caster: u64 },
    ClearCooldown { spell_id: u32, caster: u64 },
    CooldownCheat { caster: u64 },
    PetSpells,
    PetMode,
    PetActionFeedback,
    PetCastFailed,
    PetTameFailure,
    PetNameInvalid,
    PetBroken,
    PetActionSound,
    PetDismissSound,
    ChannelStart,
    ChannelUpdate,
    AuraDuration,
    SpellModifier,
    PlaySpellVisual,
    EnvironmentalDamageLog,
    GossipMenu,
    NpcGreeting,
    GossipComplete,
    GossipPoi,
    QuestGiverStatus,
    QuestGreeting,
    QuestDetail,
    QuestProgress,
    QuestOffer,
    QuestComplete,
    QuestTemplate,
    QuestObjectiveKill,
    QuestObjectiveItem,
    QuestObjectivesComplete,
    QuestFailed,
    QuestLogFull,
    QuestPushResult,
    QuestConfirmAccept,
    QuestGiverInvalid,
    QuestGiverFailed,
    VendorInventory,
    ShowBank,
    BuyBankSlotResult,
    TrainerList,
    TrainerBuySucceeded,
    TrainerBuyFailed,
    InvalidatePlayer,
    ListStabledPets,
    StableResult,
    TaxiNodesShown,
    TaxiNodeStatus,
    ActivateTaxiReply,
    NewTaxiPath,
    VendorBuyResult,
    VendorBuyFailed,
    VendorSellFailed,
    ForceSpeedChange,
    SpeedChanged,
    MountResult,
    MountSpecial,
    ClientControl,
    Pong { sequence: u32 },
    PacketDropped,
    MailList,
    SendMailResult,
    MailItemText,
    PageText,
    ReceivedMail,
    NextMailTime,
    TradeStatus,
    TradeStatusExtended,
    WorldStates,
    /// An event whose kind has no route of its own.
    Claimed { number: u16 },
}

/// The kind of an event.
pub open spec fn kind_of(event: SessionEvent) -> SessionEventKind {
    match event {
        SessionEvent::LoginStage => SessionEventKind::LoginStage,
        SessionEvent::LoginQueued => SessionEventKind::LoginQueued,
        SessionEvent::LoginFailed => SessionEventKind::LoginFailed,
        SessionEvent::RealmList => SessionEventKind::RealmList,
        SessionEvent::CharacterList => SessionEventKind::CharacterList,
        SessionEvent::CharActionResult => SessionEventKind::CharActionResult,
        SessionEvent::CharacterLoginFailed => SessionEventKind::CharacterLoginFailed,
        SessionEvent::CinematicTriggered => SessionEventKind::CinematicTriggered,
        SessionEvent::Connected => SessionEventKind::Connected,
        SessionEvent::LoggedOut => SessionEventKind::LoggedOut,
        SessionEvent::LogoutResponse => SessionEventKind::LogoutResponse,
        SessionEvent::LogoutCancelled => SessionEventKind::LogoutCancelled,
        SessionEvent::Disconnected => SessionEventKind::Disconnected,
        SessionEvent::ObjectCreate => SessionEventKind::ObjectCreate,
        SessionEvent::ItemCreate => SessionEventKind::ItemCreate,
        SessionEvent::ObjectMove => SessionEventKind::ObjectMove,
        SessionEvent::MoveTimeSkipped { .. } => SessionEventKind::MoveTimeSkipped,
        SessionEvent::UnitMove => SessionEventKind::UnitMove,
        SessionEvent::ObjectValues => SessionEventKind::ObjectValues,
        SessionEvent::ObjectDestroyed { .. } => SessionEventKind::ObjectDestroyed,
        SessionEvent::ObjectsRemoved { .. } => SessionEventKind::ObjectsRemoved,
        SessionEvent::MonsterMove { .. } => SessionEventKind::MonsterMove,
        SessionEvent::Teleport => SessionEventKind::Teleport,
        SessionEvent::Worldport => SessionEventKind::Worldport,
        SessionEvent::TransferPending => SessionEventKind::TransferPending,
        SessionEvent::TransferAborted => SessionEventKind::TransferAborted,
        SessionEvent::TimeSpeed => SessionEventKind::TimeSpeed,
        SessionEvent::ServerUnixTime => SessionEventKind::ServerUnixTime,
        SessionEvent::Reputations => SessionEventKind::Reputations,
        SessionEvent::ReputationDelta => SessionEventKind::ReputationDelta,
        SessionEvent::ReputationVisible => SessionEventKind::ReputationVisible,
        SessionEvent::BindPoint { .. } => SessionEventKind::BindPoint,
        SessionEvent::InspectHonorStats => SessionEventKind::InspectHonorStats,
        SessionEvent::PvpCredit { .. } => SessionEventKind::PvpCredit,
        SessionEvent::BinderConfirm { .. } => SessionEventKind::BinderConfirm,
        SessionEvent::SummonRequest => SessionEventKind::SummonRequest,
        SessionEvent::GmTicket => SessionEventKind::GmTicket,
        SessionEvent::GmTicketSystemStatus => SessionEventKind::GmTicketSystemStatus,
        SessionEvent::GmTicketStatusUpdate => SessionEventKind::GmTicketStatusUpdate,
        SessionEvent::GmTicketCreated { .. } => SessionEventKind::GmTicketCreated,
        SessionEvent::GmTicketUpdated { .. } => SessionEventKind::GmTicketUpdated,
        SessionEvent::GmTicketDeleted { .. } => SessionEventKind::GmTicketDeleted,
        SessionEvent::TalentWipeConfirm { .. } => SessionEventKind::TalentWipeConfirm,
        SessionEvent::PetUnlearnConfirm { .. } => SessionEventKind::PetUnlearnConfirm,
        SessionEvent::RaidGroupOnly => SessionEventKind::RaidGroupOnly,
        SessionEvent::AreaSpiritHealerTime => SessionEventKind::AreaSpiritHealerTime,
        SessionEvent::BattlefieldStatus => SessionEventKind::BattlefieldStatus,
        SessionEvent::PvpLogData => SessionEventKind::PvpLogData,
        SessionEvent::BattlefieldList => SessionEventKind::BattlefieldList,
        SessionEvent::GroupJoinedBattleground => SessionEventKind::GroupJoinedBattleground,
        SessionEvent::BattlegroundPlayer => SessionEventKind::BattlegroundPlayer,
        SessionEvent::MeetingStoneSetQueue => SessionEventKind::MeetingStoneSetQueue,
        SessionEvent::MeetingStoneNotice => SessionEventKind::MeetingStoneNotice,
        SessionEvent::TutorialFlags => SessionEventKind::TutorialFlags,
        SessionEvent::BattlefieldPositions => SessionEventKind::BattlefieldPositions,
        SessionEvent::TabardVendorActivate => SessionEventKind::TabardVendorActivate,
        SessionEvent::SaveGuildEmblemResult => SessionEventKind::SaveGuildEmblemResult,
        SessionEvent::PlayerBound => SessionEventKind::PlayerBound,
        SessionEvent::Proficiency { .. } => SessionEventKind::Proficiency,
        SessionEvent::PlayerName => SessionEventKind::PlayerName,
        SessionEvent::PetName => SessionEventKind::PetName,
        SessionEvent::CreatureName => SessionEventKind::CreatureName,
        SessionEvent::GameObjectInfo => SessionEventKind::GameObjectInfo,
        SessionEvent::GameObjectCustomAnim => SessionEventKind::GameObjectCustomAnim,
        SessionEvent::GameObjectDespawnAnim => SessionEventKind::GameObjectDespawnAnim,
        SessionEvent::FishNotHooked => SessionEventKind::FishNotHooked,
        SessionEvent::FishEscaped => SessionEventKind::FishEscaped,
        SessionEvent::PlaySound => SessionEventKind::PlaySound,
        SessionEvent::PlayMusic => SessionEventKind::PlayMusic,
        SessionEvent::PlayObjectSound => SessionEventKind::PlayObjectSound,
        SessionEvent::Weather => SessionEventKind::Weather,
        SessionEvent::TextEmote => SessionEventKind::TextEmote,
        SessionEvent::Emote => SessionEventKind::Emote,
        SessionEvent::SpellBook => SessionEventKind::SpellBook,
        SessionEvent::ActionButtons => SessionEventKind::ActionButtons,
        SessionEvent::SpellLearned => SessionEventKind::SpellLearned,
        SessionEvent::SpellRemoved => SessionEventKind::SpellRemoved,
        SessionEvent::SpellSuperceded => SessionEventKind::SpellSuperceded,
        SessionEvent::CastResult => SessionEventKind::CastResult,
        SessionEvent::InventoryFailure => SessionEventKind::InventoryFailure,
        SessionEvent::Chat => SessionEventKind::Chat,
        SessionEvent::ChannelNotify => SessionEventKind::ChannelNotify,
        SessionEvent::ChannelList => SessionEventKind::ChannelList,
        SessionEvent::ChatPlayerNotFound => SessionEventKind::ChatPlayerNotFound,
        SessionEvent::ChatWrongFaction => SessionEventKind::ChatWrongFaction,
        SessionEvent::ZoneUnderAttack => SessionEventKind::ZoneUnderAttack,
        SessionEvent::DefenseMessage => SessionEventKind::DefenseMessage,
        SessionEvent::ServerMessage => SessionEventKind::ServerMessage,
        SessionEvent::ChatRestricted => SessionEventKind::ChatRestricted,
        SessionEvent::Notification => SessionEventKind::Notification,
        SessionEvent::AreaTriggerMessage => SessionEventKind::AreaTriggerMessage,
        SessionEvent::PlayedTime { .. } => SessionEventKind::PlayedTime,
        SessionEvent::RandomRoll => SessionEventKind::RandomRoll,
        SessionEvent::GroupInvite => SessionEventKind::GroupInvite,
        SessionEvent::GroupDecline => SessionEventKind::GroupDecline,
        SessionEvent::GroupUninvited => SessionEventKind::GroupUninvited,
        SessionEvent::GroupLeaderChanged => SessionEventKind::GroupLeaderChanged,
        SessionEvent::GroupDestroyed => SessionEventKind::GroupDestroyed,
        SessionEvent::GroupList => SessionEventKind::GroupList,
        SessionEvent::PartyCommandResult => SessionEventKind::PartyCommandResult,
        SessionEvent::PartyMemberStats => SessionEventKind::PartyMemberStats,
        SessionEvent::RaidTargetSet => SessionEventKind::RaidTargetSet,
        SessionEvent::RaidTargetList => SessionEventKind::RaidTargetList,
        SessionEvent::ReadyCheckRequest => SessionEventKind::ReadyCheckRequest,
        SessionEvent::RaidInstanceInfo => SessionEventKind::RaidInstanceInfo,
        SessionEvent::MinimapPing => SessionEventKind::MinimapPing,
        SessionEvent::ReadyCheckAnswer { .. } => SessionEventKind::ReadyCheckAnswer,
        SessionEvent::DuelRequested { .. } => SessionEventKind::DuelRequested,
        SessionEvent::RaidInstanceMessage => SessionEventKind::RaidInstanceMessage,
        SessionEvent::InstanceSaveCreated => SessionEventKind::InstanceSaveCreated,
        SessionEvent::InstanceReset => SessionEventKind::InstanceReset,
        SessionEvent::InstanceResetFailed => SessionEventKind::InstanceResetFailed,
        SessionEvent::UpdateLastInstance => SessionEventKind::UpdateLastInstance,
        SessionEvent::UpdateInstanceOwnership => SessionEventKind::UpdateInstanceOwnership,
        SessionEvent::DuelOutOfBounds => SessionEventKind::DuelOutOfBounds,
        SessionEvent::DuelInBounds => SessionEventKind::DuelInBounds,
        SessionEvent::DuelComplete => SessionEventKind::DuelComplete,
        SessionEvent::DuelWinner => SessionEventKind::DuelWinner,
        SessionEvent::DuelCountdown => SessionEventKind::DuelCountdown,
        SessionEvent::MirrorTimerStart => SessionEventKind::MirrorTimerStart,
        SessionEvent::MirrorTimerPause => SessionEventKind::MirrorTimerPause,
        SessionEvent::MirrorTimerStop => SessionEventKind::MirrorTimerStop,
        SessionEvent::FriendList => SessionEventKind::FriendList,
        SessionEvent::IgnoreList => SessionEventKind::IgnoreList,
        SessionEvent::FriendStatus => SessionEventKind::FriendStatus,
        SessionEvent::WhoResults => SessionEventKind::WhoResults,
        SessionEvent::GuildQueryResponse => SessionEventKind::GuildQueryResponse,
        SessionEvent::GuildRoster => SessionEventKind::GuildRoster,
        SessionEvent::GuildEvent => SessionEventKind::GuildEvent,
        SessionEvent::GuildCommandResult => SessionEventKind::GuildCommandResult,
        SessionEvent::GuildInvite => SessionEventKind::GuildInvite,
        SessionEvent::GuildDecline => SessionEventKind::GuildDecline,
        SessionEvent::GuildInfo => SessionEventKind::GuildInfo,
        SessionEvent::PetitionShowList { .. } => SessionEventKind::PetitionShowList,
        SessionEvent::PetitionShowSignatures { .. } => SessionEventKind::PetitionShowSignatures,
        SessionEvent::PetitionQueryResponse => SessionEventKind::PetitionQueryResponse,
        SessionEvent::PetitionSignResults => SessionEventKind::PetitionSignResults,
        SessionEvent::TurnInPetitionResults => SessionEventKind::TurnInPetitionResults,
        SessionEvent::PetitionDeclined => SessionEventKind::PetitionDeclined,
        SessionEvent::PetitionRenamed => SessionEventKind::PetitionRenamed,
        SessionEvent::LootResponse => SessionEventKind::LootResponse,
        SessionEvent::LootError => SessionEventKind::LootError,
        SessionEvent::LootRemoved => SessionEventKind::LootRemoved,
        SessionEvent::LootMoneyNotify => SessionEventKind::LootMoneyNotify,
        SessionEvent::LootClearMoney => SessionEventKind::LootClearMoney,
        SessionEvent::LootReleaseResponse => SessionEventKind::LootReleaseResponse,
        SessionEvent::ItemPushResult => SessionEventKind::ItemPushResult,
        SessionEvent::LootStartRoll => SessionEventKind::LootStartRoll,
        SessionEvent::LootRoll => SessionEventKind::LootRoll,
        SessionEvent::LootRollWon => SessionEventKind::LootRollWon,
        SessionEvent::LootAllPassed => SessionEventKind::LootAllPassed,
        SessionEvent::LootMasterList => SessionEventKind::LootMasterList,
        SessionEvent::CorpseQuery => SessionEventKind::CorpseQuery,
        SessionEvent::CorpseReclaimDelay => SessionEventKind::CorpseReclaimDelay,
        SessionEvent::ResurrectRequest => SessionEventKind::ResurrectRequest,
        SessionEvent::SpiritHealerConfirm => SessionEventKind::SpiritHealerConfirm,
        SessionEvent::DurabilityDamageDeath => SessionEventKind::DurabilityDamageDeath,
        SessionEvent::MoveMode => SessionEventKind::MoveMode,
        SessionEvent::SplineMoveMode => SessionEventKind::SplineMoveMode,
        SessionEvent::KnockBack => SessionEventKind::KnockBack,
        SessionEvent::ItemTemplate => SessionEventKind::ItemTemplate,
        SessionEvent::AttackStart => SessionEventKind::AttackStart,
        SessionEvent::AttackStop => SessionEventKind::AttackStop,
        SessionEvent::AiReaction => SessionEventKind::AiReaction,
        SessionEvent::AttackerState => SessionEventKind::AttackerState,
        SessionEvent::AttackSwingError => SessionEventKind::AttackSwingError,
        SessionEvent::CancelCombat => SessionEventKind::CancelCombat,
        SessionEvent::FeignDeathResisted => SessionEventKind::FeignDeathResisted,
        SessionEvent::SpellDamageLog => SessionEventKind::SpellDamageLog,
        SessionEvent::PeriodicAuraLog => SessionEventKind::PeriodicAuraLog,
        SessionEvent::SpellHealLog => SessionEventKind::SpellHealLog,
        SessionEvent::SpellEnergizeLog => SessionEventKind::SpellEnergizeLog,
        SessionEvent::DamageShield => SessionEventKind::DamageShield,
        SessionEvent::SpellLogMiss => SessionEventKind::SpellLogMiss,
        SessionEvent::PartyKillLog => SessionEventKind::PartyKillLog,
        SessionEvent::SpellInstaKillLog => SessionEventKind::SpellInstaKillLog,
        SessionEvent::ProcResist => SessionEventKind::ProcResist,
        SessionEvent::SpellOrDamageImmune => SessionEventKind::SpellOrDamageImmune,
        SessionEvent::SpellDispelLog => SessionEventKind::SpellDispelLog,
        SessionEvent::DispelFailed => SessionEventKind::DispelFailed,
        SessionEvent::EnchantmentLog => SessionEventKind::EnchantmentLog,
        SessionEvent::SpellLogExecute => SessionEventKind::SpellLogExecute,
        SessionEvent::XpGain => SessionEventKind::XpGain,
        SessionEvent::ExplorationXp => SessionEventKind::ExplorationXp,
        SessionEvent::LevelUp => SessionEventKind::LevelUp,
        SessionEvent::SpellStart => SessionEventKind::SpellStart,
        SessionEvent::SpellGo => SessionEventKind::SpellGo,
        SessionEvent::SpellChainTargets => SessionEventKind::SpellChainTargets,
        SessionEvent::SpellFailedOther => SessionEventKind::SpellFailedOther,
        SessionEvent::SpellDelayed => SessionEventKind::SpellDelayed,
        SessionEvent::CancelAutoRepeat => SessionEventKind::CancelAutoRepeat,
        SessionEvent::SpellCooldowns { .. } => SessionEventKind::SpellCooldowns,
        SessionEvent::ItemCooldown => SessionEventKind::ItemCooldown,
        SessionEvent::ItemTime { .. } => SessionEventKind::ItemTime,
        SessionEvent::ItemEnchantTime { .. } => SessionEventKind::ItemEnchantTime,
        SessionEvent::CooldownEvent { .. } => SessionEventKind::CooldownEvent,
        SessionEvent::ClearCooldown { .. } => SessionEventKind::ClearCooldown,
        SessionEvent::CooldownCheat { .. } => SessionEventKind::CooldownCheat,
        SessionEvent::PetSpells => SessionEventKind::PetSpells,
        SessionEvent::PetMode => SessionEventKind::PetMode,
        SessionEvent::PetActionFeedback => SessionEventKind::PetActionFeedback,
        SessionEvent::PetCastFailed => SessionEventKind::PetCastFailed,
        SessionEvent::PetTameFailure => SessionEventKind::PetTameFailure,
        SessionEvent::PetNameInvalid => SessionEventKind::PetNameInvalid,
        SessionEvent::PetBroken => SessionEventKind::PetBroken,
        SessionEvent::PetActionSound => SessionEventKind::PetActionSound,
        SessionEvent::PetDismissSound => SessionEventKind::PetDismissSound,
        SessionEvent::ChannelStart => SessionEventKind::ChannelStart,
        SessionEvent::ChannelUpdate => SessionEventKind::ChannelUpdate,
        SessionEvent::AuraDuration => SessionEventKind::AuraDuration,
        SessionEvent::SpellModifier => SessionEventKind::SpellModifier,
        SessionEvent::PlaySpellVisual => SessionEventKind::PlaySpellVisual,
        SessionEvent::EnvironmentalDamageLog => SessionEventKind::EnvironmentalDamageLog,
        SessionEvent::GossipMenu => SessionEventKind::GossipMenu,
        SessionEvent::NpcGreeting => SessionEventKind::NpcGreeting,
        SessionEvent::GossipComplete => SessionEventKind::GossipComplete,
        SessionEvent::GossipPoi => SessionEventKind::GossipPoi,
        SessionEvent::QuestGiverStatus => SessionEventKind::QuestGiverStatus,
        SessionEvent::QuestGreeting => SessionEventKind::QuestGreeting,
        SessionEvent::QuestDetail => SessionEventKind::QuestDetail,
        SessionEvent::QuestProgress => SessionEventKind::QuestProgress,
        SessionEvent::QuestOffer => SessionEventKind::QuestOffer,
        SessionEvent::QuestComplete => SessionEventKind::QuestComplete,
        SessionEvent::QuestTemplate => SessionEventKind::QuestTemplate,
        SessionEvent::QuestObjectiveKill => SessionEventKind::QuestObjectiveKill,
        SessionEvent::QuestObjectiveItem => SessionEventKind::QuestObjectiveItem,
        SessionEvent::QuestObjectivesComplete => SessionEventKind::QuestObjectivesComplete,
        SessionEvent::QuestFailed => SessionEventKind::QuestFailed,
        SessionEvent::QuestLogFull => SessionEventKind::QuestLogFull,
        SessionEvent::QuestPushResult => SessionEventKind::QuestPushResult,
        SessionEvent::QuestConfirmAccept => SessionEventKind::QuestConfirmAccept,
        SessionEvent::QuestGiverInvalid => SessionEventKind::QuestGiverInvalid,
        SessionEvent::QuestGiverFailed => SessionEventKind::QuestGiverFailed,
        SessionEvent::VendorInventory => SessionEventKind::VendorInventory,
        SessionEvent::ShowBank => SessionEventKind::ShowBank,
        SessionEvent::BuyBankSlotResult => SessionEventKind::BuyBankSlotResult,
        SessionEvent::TrainerList => SessionEventKind::TrainerList,
        SessionEvent::TrainerBuySucceeded => SessionEventKind::TrainerBuySucceeded,
        SessionEvent::TrainerBuyFailed => SessionEventKind::TrainerBuyFailed,
        SessionEvent::InvalidatePlayer => SessionEventKind::InvalidatePlayer,
        SessionEvent::ListStabledPets => SessionEventKind::ListStabledPets,
        SessionEvent::StableResult => SessionEventKind::StableResult,
        SessionEvent::TaxiNodesShown => SessionEventKind::TaxiNodesShown,
        SessionEvent::TaxiNodeStatus => SessionEventKind::TaxiNodeStatus,
        SessionEvent::ActivateTaxiReply => SessionEventKind::ActivateTaxiReply,
        SessionEvent::NewTaxiPath => SessionEventKind::NewTaxiPath,
        SessionEvent::VendorBuyResult => SessionEventKind::VendorBuyResult,
        SessionEvent::VendorBuyFailed => SessionEventKind::VendorBuyFailed,
        SessionEvent::VendorSellFailed => SessionEventKind::VendorSellFailed,
        SessionEvent::ForceSpeedChange => SessionEventKind::ForceSpeedChange,
        SessionEvent::SpeedChanged => SessionEventKind::SpeedChanged,
        SessionEvent::MountResult => SessionEventKind::MountResult,
        SessionEvent::MountSpecial => SessionEventKind::MountSpecial,
        SessionEvent::ClientControl => SessionEventKind::ClientControl,
        SessionEvent::Pong { .. } => SessionEventKind::Pong,
        SessionEvent::PacketDropped => SessionEventKind::PacketDropped,
        SessionEvent::MailList => SessionEventKind::MailList,
        SessionEvent::SendMailResult => SessionEventKind::SendMailResult,
        SessionEvent::MailItemText => SessionEventKind::MailItemText,
        SessionEvent::PageText => SessionEventKind::PageText,
        SessionEvent::ReceivedMail => SessionEventKind::ReceivedMail,
        SessionEvent::NextMailTime => SessionEventKind::NextMailTime,
        SessionEvent::TradeStatus => SessionEventKind::TradeStatus,
        SessionEvent::TradeStatusExtended => SessionEventKind::TradeStatusExtended,
        SessionEvent::WorldStates => SessionEventKind::WorldStates,
        SessionEvent::Claimed { number } => SessionEventKind::Claimed(number),
    }
}

impl SessionEvent {
    /// Reads the kind of an event.
    pub fn kind(&self) -> (r: SessionEventKind)
        ensures
            r == kind_of(*self),
    {
        match self {
            SessionEvent::LoginStage => SessionEventKind::LoginStage,
            SessionEvent::LoginQueued => SessionEventKind::LoginQueued,
            SessionEvent::LoginFailed => SessionEventKind::LoginFailed,
            SessionEvent::RealmList => SessionEventKind::RealmList,
            SessionEvent::CharacterList => SessionEventKind::CharacterList,
            SessionEvent::CharActionResult => SessionEventKind::CharActionResult,
            SessionEvent::CharacterLoginFailed => SessionEventKind::CharacterLoginFailed,
            SessionEvent::CinematicTriggered => SessionEventKind::CinematicTriggered,
            SessionEvent::Connected => SessionEventKind::Connected,
            SessionEvent::LoggedOut => SessionEventKind::LoggedOut,
            SessionEvent::LogoutResponse => SessionEventKind::LogoutResponse,
            SessionEvent::LogoutCancelled => SessionEventKind::LogoutCancelled,
            SessionEvent::Disconnected => SessionEventKind::Disconnected,
            SessionEvent::ObjectCreate => SessionEventKind::ObjectCreate,
            SessionEvent::ItemCreate => SessionEventKind::ItemCreate,
            SessionEvent::ObjectMove => SessionEventKind::ObjectMove,
            SessionEvent::MoveTimeSkipped { .. } => SessionEventKind::MoveTimeSkipped,
            SessionEvent::UnitMove => SessionEventKind::UnitMove,
            SessionEvent::ObjectValues => SessionEventKind::ObjectValues,
            SessionEvent::ObjectDestroyed { .. } => SessionEventKind::ObjectDestroyed,
            SessionEvent::ObjectsRemoved { .. } => SessionEventKind::ObjectsRemoved,
            SessionEvent::MonsterMove { .. } => SessionEventKind::MonsterMove,
            SessionEvent::Teleport => SessionEventKind::Teleport,
            SessionEvent::Worldport => SessionEventKind::Worldport,
            SessionEvent::TransferPending => SessionEventKind::TransferPending,
            SessionEvent::TransferAborted => SessionEventKind::TransferAborted,
            SessionEvent::TimeSpeed => SessionEventKind::TimeSpeed,
            SessionEvent::ServerUnixTime => SessionEventKind::ServerUnixTime,
            SessionEvent::Reputations => SessionEventKind::Reputations,
            SessionEvent::ReputationDelta => SessionEventKind::ReputationDelta,
            SessionEvent::ReputationVisible => SessionEventKind::ReputationVisible,
            SessionEvent::BindPoint { .. } => SessionEventKind::BindPoint,
            SessionEvent::InspectHonorStats => SessionEventKind::InspectHonorStats,
            SessionEvent::PvpCredit { .. } => SessionEventKind::PvpCredit,
            SessionEvent::BinderConfirm { .. } => SessionEventKind::BinderConfirm,
            SessionEvent::SummonRequest => SessionEventKind::SummonRequest,
            SessionEvent::GmTicket => SessionEventKind::GmTicket,
            SessionEvent::GmTicketSystemStatus => SessionEventKind::GmTicketSystemStatus,
            SessionEvent::GmTicketStatusUpdate => SessionEventKind::GmTicketStatusUpdate,
            SessionEvent::GmTicketCreated { .. } => SessionEventKind::GmTicketCreated,
            SessionEvent::GmTicketUpdated { .. } => SessionEventKind::GmTicketUpdated,
            SessionEvent::GmTicketDeleted { .. } => SessionEventKind::GmTicketDeleted,
            SessionEvent::TalentWipeConfirm { .. } => SessionEventKind::TalentWipeConfirm,
            SessionEvent::PetUnlearnConfirm { .. } => SessionEventKind::PetUnlearnConfirm,
            SessionEvent::RaidGroupOnly => SessionEventKind::RaidGroupOnly,
            SessionEvent::AreaSpiritHealerTime => SessionEventKind::AreaSpiritHealerTime,
            SessionEvent::BattlefieldStatus => SessionEventKind::BattlefieldStatus,
            SessionEvent::PvpLogData => SessionEventKind::PvpLogData,
            SessionEvent::BattlefieldList => SessionEventKind::BattlefieldList,
            SessionEvent::GroupJoinedBattleground => SessionEventKind::GroupJoinedBattleground,
            SessionEvent::BattlegroundPlayer => SessionEventKind::BattlegroundPlayer,
            SessionEvent::MeetingStoneSetQueue => SessionEventKind::MeetingStoneSetQueue,
            SessionEvent::MeetingStoneNotice => SessionEventKind::MeetingStoneNotice,
            SessionEvent::TutorialFlags => SessionEventKind::TutorialFlags,
            SessionEvent::BattlefieldPositions => SessionEventKind::BattlefieldPositions,
            SessionEvent::TabardVendorActivate => SessionEventKind::TabardVendorActivate,
            SessionEvent::SaveGuildEmblemResult => SessionEventKind::SaveGuildEmblemResult,
            SessionEvent::PlayerBound => SessionEventKind::PlayerBound,
            SessionEvent::Proficiency { .. } => SessionEventKind::Proficiency,
            SessionEvent::PlayerName => SessionEventKind::PlayerName,
            SessionEvent::PetName => SessionEventKind::PetName,
            SessionEvent::CreatureName => SessionEventKind::CreatureName,
            SessionEvent::GameObjectInfo => SessionEventKind::GameObjectInfo,
            SessionEvent::GameObjectCustomAnim => SessionEventKind::GameObjectCustomAnim,
            SessionEvent::GameObjectDespawnAnim => SessionEventKind::GameObjectDespawnAnim,
            SessionEvent::FishNotHooked => SessionEventKind::FishNotHooked,
            SessionEvent::FishEscaped => SessionEventKind::FishEscaped,
            SessionEvent::PlaySound => SessionEventKind::PlaySound,
            SessionEvent::PlayMusic => SessionEventKind::PlayMusic,
            SessionEvent::PlayObjectSound => SessionEventKind::PlayObjectSound,
            SessionEvent::Weather => SessionEventKind::Weather,
            SessionEvent::TextEmote => SessionEventKind::TextEmote,
            SessionEvent::Emote => SessionEventKind::Emote,
            SessionEvent::SpellBook => SessionEventKind::SpellBook,
            SessionEvent::ActionButtons => SessionEventKind::ActionButtons,
            SessionEvent::SpellLearned => SessionEventKind::SpellLearned,
            SessionEvent::SpellRemoved => SessionEventKind::SpellRemoved,
            SessionEvent::SpellSuperceded => SessionEventKind::SpellSuperceded,
            SessionEvent::CastResult => SessionEventKind::CastResult,
            SessionEvent::InventoryFailure => SessionEventKind::InventoryFailure,
            SessionEvent::Chat => SessionEventKind::Chat,
            SessionEvent::ChannelNotify => SessionEventKind::ChannelNotify,
            SessionEvent::ChannelList => SessionEventKind::ChannelList,
            SessionEvent::ChatPlayerNotFound => SessionEventKind::ChatPlayerNotFound,
            SessionEvent::ChatWrongFaction => SessionEventKind::ChatWrongFaction,
            SessionEvent::ZoneUnderAttack => SessionEventKind::ZoneUnderAttack,
            SessionEvent::DefenseMessage => SessionEventKind::DefenseMessage,
            SessionEvent::ServerMessage => SessionEventKind::ServerMessage,
            SessionEvent::ChatRestricted => SessionEventKind::ChatRestricted,
            SessionEvent::Notification => SessionEventKind::Notification,
            SessionEvent::AreaTriggerMessage => SessionEventKind::AreaTriggerMessage,
            SessionEvent::PlayedTime { .. } => SessionEventKind::PlayedTime,
            SessionEvent::RandomRoll => SessionEventKind::RandomRoll,
            SessionEvent::GroupInvite => SessionEventKind::GroupInvite,
            SessionEvent::GroupDecline => SessionEventKind::GroupDecline,
            SessionEvent::GroupUninvited => SessionEventKind::GroupUninvited,
            SessionEvent::GroupLeaderChanged => SessionEventKind::GroupLeaderChanged,
            SessionEvent::GroupDestroyed => SessionEventKind::GroupDestroyed,
            SessionEvent::GroupList => SessionEventKind::GroupList,
            SessionEvent::PartyCommandResult => SessionEventKind::PartyCommandResult,
            SessionEvent::PartyMemberStats => SessionEventKind::PartyMemberStats,
            SessionEvent::RaidTargetSet => SessionEventKind::RaidTargetSet,
            SessionEvent::RaidTargetList => SessionEventKind::RaidTargetList,
            SessionEvent::ReadyCheckRequest => SessionEventKind::ReadyCheckRequest,
            SessionEvent::RaidInstanceInfo => SessionEventKind::RaidInstanceInfo,
            SessionEvent::MinimapPing => SessionEventKind::MinimapPing,
            SessionEvent::ReadyCheckAnswer { .. } => SessionEventKind::ReadyCheckAnswer,
            SessionEvent::DuelRequested { .. } => SessionEventKind::DuelRequested,
            SessionEvent::RaidInstanceMessage => SessionEventKind::RaidInstanceMessage,
            SessionEvent::InstanceSaveCreated => SessionEventKind::InstanceSaveCreated,
            SessionEvent::InstanceReset => SessionEventKind::InstanceReset,
            SessionEvent::InstanceResetFailed => SessionEventKind::InstanceResetFailed,
            SessionEvent::UpdateLastInstance => SessionEventKind::UpdateLastInstance,
            SessionEvent::UpdateInstanceOwnership => SessionEventKind::UpdateInstanceOwnership,
            SessionEvent::DuelOutOfBounds => SessionEventKind::DuelOutOfBounds,
            SessionEvent::DuelInBounds => SessionEventKind::DuelInBounds,
            SessionEvent::DuelComplete => SessionEventKind::DuelComplete,
            SessionEvent::DuelWinner => SessionEventKind::DuelWinner,
            SessionEvent::DuelCountdown => SessionEventKind::DuelCountdown,
            SessionEvent::MirrorTimerStart => SessionEventKind::MirrorTimerStart,
            SessionEvent::MirrorTimerPause => SessionEventKind::MirrorTimerPause,
            SessionEvent::MirrorTimerStop => SessionEventKind::MirrorTimerStop,
            SessionEvent::FriendList => SessionEventKind::FriendList,
            SessionEvent::IgnoreList => SessionEventKind::IgnoreList,
            SessionEvent::FriendStatus => SessionEventKind::FriendStatus,
            SessionEvent::WhoResults => SessionEventKind::WhoResults,
            SessionEvent::GuildQueryResponse => SessionEventKind::GuildQueryResponse,
            SessionEvent::GuildRoster => SessionEventKind::GuildRoster,
            SessionEvent::GuildEvent => SessionEventKind::GuildEvent,
            SessionEvent::GuildCommandResult => SessionEventKind::GuildCommandResult,
            SessionEvent::GuildInvite => SessionEventKind::GuildInvite,
            SessionEvent::GuildDecline => SessionEventKind::GuildDecline,
            SessionEvent::GuildInfo => SessionEventKind::GuildInfo,
            SessionEvent::PetitionShowList { .. } => SessionEventKind::PetitionShowList,
            SessionEvent::PetitionShowSignatures { .. } => SessionEventKind::PetitionShowSignatures,
            SessionEvent::PetitionQueryResponse => SessionEventKind::PetitionQueryResponse,
            SessionEvent::PetitionSignResults => SessionEventKind::PetitionSignResults,
            SessionEvent::TurnInPetitionResults => SessionEventKind::TurnInPetitionResults,
            SessionEvent::PetitionDeclined => SessionEventKind::PetitionDeclined,
            SessionEvent::PetitionRenamed => SessionEventKind::PetitionRenamed,
            SessionEvent::LootResponse => SessionEventKind::LootResponse,
            SessionEvent::LootError => SessionEventKind::LootError,
            SessionEvent::LootRemoved => SessionEventKind::LootRemoved,
            SessionEvent::LootMoneyNotify => SessionEventKind::LootMoneyNotify,
            SessionEvent::LootClearMoney => SessionEventKind::LootClearMoney,
            SessionEvent::LootReleaseResponse => SessionEventKind::LootReleaseResponse,
            SessionEvent::ItemPushResult => SessionEventKind::ItemPushResult,
            SessionEvent::LootStartRoll => SessionEventKind::LootStartRoll,
            SessionEvent::LootRoll => SessionEventKind::LootRoll,
            SessionEvent::LootRollWon => SessionEventKind::LootRollWon,
            SessionEvent::LootAllPassed => SessionEventKind::LootAllPassed,
            SessionEvent::LootMasterList => SessionEventKind::LootMasterList,
            SessionEvent::CorpseQuery => SessionEventKind::CorpseQuery,
            SessionEvent::CorpseReclaimDelay => SessionEventKind::CorpseReclaimDelay,
            SessionEvent::ResurrectRequest => SessionEventKind::ResurrectRequest,
            SessionEvent::SpiritHealerConfirm => SessionEventKind::SpiritHealerConfirm,
            SessionEvent::DurabilityDamageDeath => SessionEventKind::DurabilityDamageDeath,
            SessionEvent::MoveMode => SessionEventKind::MoveMode,
            SessionEvent::SplineMoveMode => SessionEventKind::SplineMoveMode,
            SessionEvent::KnockBack => SessionEventKind::KnockBack,
            SessionEvent::ItemTemplate => SessionEventKind::ItemTemplate,
            SessionEvent::AttackStart => SessionEventKind::AttackStart,
            SessionEvent::AttackStop => SessionEventKind::AttackStop,
            SessionEvent::AiReaction => SessionEventKind::AiReaction,
            SessionEvent::AttackerState => SessionEventKind::AttackerState,
            SessionEvent::AttackSwingError => SessionEventKind::AttackSwingError,
            SessionEvent::CancelCombat => SessionEventKind::CancelCombat,
            SessionEvent::FeignDeathResisted => SessionEventKind::FeignDeathResisted,
            SessionEvent::SpellDamageLog => SessionEventKind::SpellDamageLog,
            SessionEvent::PeriodicAuraLog => SessionEventKind::PeriodicAuraLog,
            SessionEvent::SpellHealLog => SessionEventKind::SpellHealLog,
            SessionEvent::SpellEnergizeLog => SessionEventKind::SpellEnergizeLog,
            SessionEvent::DamageShield => SessionEventKind::DamageShield,
            SessionEvent::SpellLogMiss => SessionEventKind::SpellLogMiss,
            SessionEvent::PartyKillLog => SessionEventKind::PartyKillLog,
            SessionEvent::SpellInstaKillLog => SessionEventKind::SpellInstaKillLog,
            SessionEvent::ProcResist => SessionEventKind::ProcResist,
            SessionEvent::SpellOrDamageImmune => SessionEventKind::SpellOrDamageImmune,
            SessionEvent::SpellDispelLog => SessionEventKind::SpellDispelLog,
            SessionEvent::DispelFailed => SessionEventKind::DispelFailed,
            SessionEvent::EnchantmentLog => SessionEventKind::EnchantmentLog,
            SessionEvent::SpellLogExecute => SessionEventKind::SpellLogExecute,
            SessionEvent::XpGain => SessionEventKind::XpGain,
            SessionEvent::ExplorationXp => SessionEventKind::ExplorationXp,
            SessionEvent::LevelUp => SessionEventKind::LevelUp,
            SessionEvent::SpellStart => SessionEventKind::SpellStart,
            SessionEvent::SpellGo => SessionEventKind::SpellGo,
            SessionEvent::SpellChainTargets => SessionEventKind::SpellChainTargets,
            SessionEvent::SpellFailedOther => SessionEventKind::SpellFailedOther,
            SessionEvent::SpellDelayed => SessionEventKind::SpellDelayed,
            SessionEvent::CancelAutoRepeat => SessionEventKind::CancelAutoRepeat,
            SessionEvent::SpellCooldowns { .. } => SessionEventKind::SpellCooldowns,
            SessionEvent::ItemCooldown => SessionEventKind::ItemCooldown,
            SessionEvent::ItemTime { .. } => SessionEventKind::ItemTime,
            SessionEvent::ItemEnchantTime { .. } => SessionEventKind::ItemEnchantTime,
            SessionEvent::CooldownEvent { .. } => SessionEventKind::CooldownEvent,
            SessionEvent::ClearCooldown { .. } => SessionEventKind::ClearCooldown,
            SessionEvent::CooldownCheat { .. } => SessionEventKind::CooldownCheat,
            SessionEvent::PetSpells => SessionEventKind::PetSpells,
            SessionEvent::PetMode => SessionEventKind::PetMode,
            SessionEvent::PetActionFeedback => SessionEventKind::PetActionFeedback,
            SessionEvent::PetCastFailed => SessionEventKind::PetCastFailed,
            SessionEvent::PetTameFailure => SessionEventKind::PetTameFailure,
            SessionEvent::PetNameInvalid => SessionEventKind::PetNameInvalid,
            SessionEvent::PetBroken => SessionEventKind::PetBroken,
            SessionEvent::PetActionSound => SessionEventKind::PetActionSound,
            SessionEvent::PetDismissSound => SessionEventKind::PetDismissSound,
            SessionEvent::ChannelStart => SessionEventKind::ChannelStart,
            SessionEvent::ChannelUpdate => SessionEventKind::ChannelUpdate,
            SessionEvent::AuraDuration => SessionEventKind::AuraDuration,
            SessionEvent::SpellModifier => SessionEventKind::SpellModifier,
            SessionEvent::PlaySpellVisual => SessionEventKind::PlaySpellVisual,
            SessionEvent::EnvironmentalDamageLog => SessionEventKind::EnvironmentalDamageLog,
            SessionEvent::GossipMenu => SessionEventKind::GossipMenu,
            SessionEvent::NpcGreeting => SessionEventKind::NpcGreeting,
            SessionEvent::GossipComplete => SessionEventKind::GossipComplete,
            SessionEvent::GossipPoi => SessionEventKind::GossipPoi,
            SessionEvent::QuestGiverStatus => SessionEventKind::QuestGiverStatus,
            SessionEvent::QuestGreeting => SessionEventKind::QuestGreeting,
            SessionEvent::QuestDetail => SessionEventKind::QuestDetail,
            SessionEvent::QuestProgress => SessionEventKind::QuestProgress,
            SessionEvent::QuestOffer => SessionEventKind::QuestOffer,
            SessionEvent::QuestComplete => SessionEventKind::QuestComplete,
            SessionEvent::QuestTemplate => SessionEventKind::QuestTemplate,
            SessionEvent::QuestObjectiveKill => SessionEventKind::QuestObjectiveKill,
            SessionEvent::QuestObjectiveItem => SessionEventKind::QuestObjectiveItem,
            SessionEvent::QuestObjectivesComplete => SessionEventKind::QuestObjectivesComplete,
            SessionEvent::QuestFailed => SessionEventKind::QuestFailed,
            SessionEvent::QuestLogFull => SessionEventKind::QuestLogFull,
            SessionEvent::QuestPushResult => SessionEventKind::QuestPushResult,
            SessionEvent::QuestConfirmAccept => SessionEventKind::QuestConfirmAccept,
            SessionEvent::QuestGiverInvalid => SessionEventKind::QuestGiverInvalid,
            SessionEvent::QuestGiverFailed => SessionEventKind::QuestGiverFailed,
            SessionEvent::VendorInventory => SessionEventKind::VendorInventory,
            SessionEvent::ShowBank => SessionEventKind::ShowBank,
            SessionEvent::BuyBankSlotResult => SessionEventKind::BuyBankSlotResult,
            SessionEvent::TrainerList => SessionEventKind::TrainerList,
            SessionEvent::TrainerBuySucceeded => SessionEventKind::TrainerBuySucceeded,
            SessionEvent::TrainerBuyFailed => SessionEventKind::TrainerBuyFailed,
            SessionEvent::InvalidatePlayer => SessionEventKind::InvalidatePlayer,
            SessionEvent::ListStabledPets => SessionEventKind::ListStabledPets,
            SessionEvent::StableResult => SessionEventKind::StableResult,
            SessionEvent::TaxiNodesShown => SessionEventKind::TaxiNodesShown,
            SessionEvent::TaxiNodeStatus => SessionEventKind::TaxiNodeStatus,
            SessionEvent::ActivateTaxiReply => SessionEventKind::ActivateTaxiReply,
            SessionEvent::NewTaxiPath => SessionEventKind::NewTaxiPath,
            SessionEvent::VendorBuyResult => SessionEventKind::VendorBuyResult,
            SessionEvent::VendorBuyFailed => SessionEventKind::VendorBuyFailed,
            SessionEvent::VendorSellFailed => SessionEventKind::VendorSellFailed,
            SessionEvent::ForceSpeedChange => SessionEventKind::ForceSpeedChange,
            SessionEvent::SpeedChanged => SessionEventKind::SpeedChanged,
            SessionEvent::MountResult => SessionEventKind::MountResult,
            SessionEvent::MountSpecial => SessionEventKind::MountSpecial,
            SessionEvent::ClientControl => SessionEventKind::ClientControl,
            SessionEvent::Pong { .. } => SessionEventKind::Pong,
            SessionEvent::PacketDropped => SessionEventKind::PacketDropped,
            SessionEvent::MailList => SessionEventKind::MailList,
            SessionEvent::SendMailResult => SessionEventKind::SendMailResult,
            SessionEvent::MailItemText => SessionEventKind::MailItemText,
            SessionEvent::PageText => SessionEventKind::PageText,
            SessionEvent::ReceivedMail => SessionEventKind::ReceivedMail,
            SessionEvent::NextMailTime => SessionEventKind::NextMailTime,
            SessionEvent::TradeStatus => SessionEventKind::TradeStatus,
            SessionEvent::TradeStatusExtended => SessionEventKind::TradeStatusExtended,
            SessionEvent::WorldStates => SessionEventKind::WorldStates,
            SessionEvent::Claimed { number } => SessionEventKind::Claimed(*number),
        }
    }
}

} // verus!
