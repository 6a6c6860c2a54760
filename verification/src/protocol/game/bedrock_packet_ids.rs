//! Identifiers and display names of the Bedrock game packets.

use vstd::prelude::*;

verus! {

/// Every game packet this client knows, and `Unknown` for any other identifier.
#[derive(Debug, Clone, Copy, PartialEq, Eq, Structural)]
pub enum BedrockPacketType {
    Login,
    PlayStatus,
    ServerToClientHandshake,
    ClientToServerHandshake,
    Disconnect,
    ResourcePacksInfo,
    ResourcePackStack,
    ResourcePackClientResponse,
    TextPacket,
    SetTime,
    StartGame,
    AddPlayer,
    AddActor,
    RemoveActor,
    AddItemActor,
    ServerPlayerPostMovePosition,
    TakeItemActor,
    MoveActorAbsolute,
    MovePlayer,
    PassengerJump,
    UpdateBlock,
    AddPainting,
    LevelSoundEventV1,
    LevelEvent,
    BlockEvent,
    ActorEvent,
    MobEffect,
    UpdateAttributes,
    InventoryTransaction,
    MobEquipment,
    MobArmorEquipment,
    Interact,
    BlockPickRequest,
    ActorPickRequest,
    PlayerAction,
    HurtArmor,
    SetActorData,
    SetActorMotion,
    SetActorLink,
    SetHealth,
    SetSpawnPosition,
    Animate,
    Respawn,
    ContainerOpen,
    ContainerClose,
    PlayerHotbar,
    InventoryContent,
    InventorySlot,
    ContainerSetData,
    CraftingData,
    GUIDataPackItem,
    BlockActorData,
    PlayerInput,
    LevelChunk,
    SetCommandsEnabled,
    SetDifficulty,
    ChangeDimension,
    SetPlayerGameType,
    PlayerList,
    SimpleEvent,
    LegacyTelemetryEvent,
    SpawnExperienceOrb,
    ClientboundMapItemData,
    MapInfoRequest,
    RequestChunkRadius,
    ChunkRadiusUpdated,
    GameRulesChanged,
    Camera,
    BossEvent,
    ShowCredits,
    AvailableCommands,
    CommandRequest,
    CommandBlockUpdate,
    CommandOutput,
    UpdateTrade,
    UpdateEquip,
    ResourcePackDataInfo,
    ResourcePackChunkData,
    ResourcePackChunkRequest,
    Transfer,
    PlaySound,
    StopSound,
    SetTitle,
    AddBehaviorTree,
    StructureBlockUpdate,
    ShowStoreOffer,
    PurchaseReceipt,
    PlayerSkin,
    SubClientLogin,
    AutomationClientConnect,
    SetLastHurtBy,
    BookEdit,
    NPCRequest,
    PhotoTransfer,
    ModalFormRequest,
    ModalFormResponse,
    ServerSettingsRequest,
    ServerSettingsResponse,
    ShowProfile,
    SetDefaultGameType,
    RemoveObjective,
    SetDisplayObjective,
    SetScore,
    LabTable,
    UpdateBlockSynced,
    MoveActorDelta,
    SetScoreboardIdentity,
    SetLocalPlayerAsInitialized,
    UpdateSoftEnum,
    NetworkStackLatency,
    SpawnParticleEvent,
    AvailableActorIdentifiers,
    LevelSoundEventV2,
    NetworkChunkPublisherUpdate,
    BiomeDefinitionList,
    LevelSoundEvent,
    LevelEventGeneric,
    LecternUpdate,
    ClientCacheStatus,
    OnScreenTextureAnimation,
    MapCreateLockedCopy,
    StructureTemplateDataRequest,
    StructureTemplateDataResponse,
    ClientCacheBlobStatus,
    ClientCacheMissResponse,
    EducationSettings,
    Emote,
    MultiplayerSettings,
    SettingsCommand,
    AnvilDamage,
    CompletedUsingItem,
    NetworkSettings,
    PlayerAuthInput,
    CreativeContent,
    PlayerEnchantOptions,
    ItemStackRequest,
    ItemStackResponse,
    PlayerArmorDamage,
    CodeBuilder,
    UpdatePlayerGameType,
    EmoteList,
    PositionTrackingDBServerBroadcast,
    PositionTrackingDBClientRequest,
    DebugInfo,
    PacketViolationWarning,
    MotionPredictionHints,
    AnimateEntity,
    CameraShake,
    PlayerFog,
    CorrectPlayerMovePrediction,
    ItemComponent,
    ClientboundDebugRenderer,
    SyncActorProperty,
    AddVolumeEntity,
    RemoveVolumeEntity,
    SimulationType,
    NpcDialogue,
    EduUriResource,
    CreatePhoto,
    UpdateSubChunkBlocks,
    SubChunk,
    SubChunkRequest,
    PlayerStartItemCooldown,
    ScriptMessage,
    CodeBuilderSource,
    TickingAreasLoadStatus,
    DimensionData,
    AgentActionEvent,
    ChangeMobProperty,
    LessonProgress,
    RequestAbility,
    RequestPermissions,
    ToastRequest,
    UpdateAbilities,
    UpdateAdventureSettings,
    DeathInfo,
    EditorNetwork,
    FeatureRegistry,
    ServerStats,
    RequestNetworkSettings,
    GameTestRequest,
    GameTestResults,
    UpdateClientInputLocks,
    CameraPresets,
    UnlockedRecipes,
    CameraInstruction,
    CompressedBiomeDefinitionList,
    TrimData,
    OpenSign,
    AgentAnimation,
    RefreshEntitlements,
    PlayerToggleCrafterSlotRequest,
    SetPlayerInventoryOptions,
    SetHud,
    AwardAchievement,
    ClientboundCloseForm,
    ServerboundLoadingScreen,
    JigsawStructureData,
    CurrentStructureFeature,
    ServerboundDiagnostics,
    Unknown,
}

impl BedrockPacketType {
    /// The identifier of each packet on the wire; `Unknown` has none and maps to 0.
    pub open spec fn spec_id(self) -> u16 {
        match self {
            BedrockPacketType::Login => 0x01,
            BedrockPacketType::PlayStatus => 0x02,
            BedrockPacketType::ServerToClientHandshake => 0x03,
            BedrockPacketType::ClientToServerHandshake => 0x04,
            BedrockPacketType::Disconnect => 0x05,
            BedrockPacketType::ResourcePacksInfo => 0x06,
            BedrockPacketType::ResourcePackStack => 0x07,
            BedrockPacketType::ResourcePackClientResponse => 0x08,
            BedrockPacketType::TextPacket => 0x09,
            BedrockPacketType::SetTime => 0x0a,
            BedrockPacketType::StartGame => 0x0b,
            BedrockPacketType::AddPlayer => 0x0c,
            BedrockPacketType::AddActor => 0x0d,
            BedrockPacketType::RemoveActor => 0x0e,
            BedrockPacketType::AddItemActor => 0x0f,
            BedrockPacketType::ServerPlayerPostMovePosition => 0x10,
            BedrockPacketType::TakeItemActor => 0x11,
            BedrockPacketType::MoveActorAbsolute => 0x12,
            BedrockPacketType::MovePlayer => 0x13,
            BedrockPacketType::PassengerJump => 0x14,
            BedrockPacketType::UpdateBlock => 0x15,
            BedrockPacketType::AddPainting => 0x16,
            BedrockPacketType::LevelSoundEventV1 => 0x18,
            BedrockPacketType::LevelEvent => 0x19,
            BedrockPacketType::BlockEvent => 0x1a,
            BedrockPacketType::ActorEvent => 0x1b,
            BedrockPacketType::MobEffect => 0x1c,
            BedrockPacketType::UpdateAttributes => 0x1d,
            BedrockPacketType::InventoryTransaction => 0x1e,
            BedrockPacketType::MobEquipment => 0x1f,
            BedrockPacketType::MobArmorEquipment => 0x20,
            BedrockPacketType::Interact => 0x21,
            BedrockPacketType::BlockPickRequest => 0x22,
            BedrockPacketType::ActorPickRequest => 0x23,
            BedrockPacketType::PlayerAction => 0x24,
            BedrockPacketType::HurtArmor => 0x26,
            BedrockPacketType::SetActorData => 0x27,
            BedrockPacketType::SetActorMotion => 0x28,
            BedrockPacketType::SetActorLink => 0x29,
            BedrockPacketType::SetHealth => 0x2a,
            BedrockPacketType::SetSpawnPosition => 0x2b,
            BedrockPacketType::Animate => 0x2c,
            BedrockPacketType::Respawn => 0x2d,
            BedrockPacketType::ContainerOpen => 0x2e,
            BedrockPacketType::ContainerClose => 0x2f,
            BedrockPacketType::PlayerHotbar => 0x30,
            BedrockPacketType::InventoryContent => 0x31,
            BedrockPacketType::InventorySlot => 0x32,
            BedrockPacketType::ContainerSetData => 0x33,
            BedrockPacketType::CraftingData => 0x34,
            BedrockPacketType::GUIDataPackItem => 0x36,
            BedrockPacketType::BlockActorData => 0x38,
            BedrockPacketType::PlayerInput => 0x39,
            BedrockPacketType::LevelChunk => 0x3a,
            BedrockPacketType::SetCommandsEnabled => 0x3b,
            BedrockPacketType::SetDifficulty => 0x3c,
            BedrockPacketType::ChangeDimension => 0x3d,
            BedrockPacketType::SetPlayerGameType => 0x3e,
            BedrockPacketType::PlayerList => 0x3f,
            BedrockPacketType::SimpleEvent => 0x40,
            BedrockPacketType::LegacyTelemetryEvent => 0x41,
            BedrockPacketType::SpawnExperienceOrb => 0x42,
            BedrockPacketType::ClientboundMapItemData => 0x43,
            BedrockPacketType::MapInfoRequest => 0x44,
            BedrockPacketType::RequestChunkRadius => 0x45,
            BedrockPacketType::ChunkRadiusUpdated => 0x46,
            BedrockPacketType::GameRulesChanged => 0x48,
            BedrockPacketType::Camera => 0x49,
            BedrockPacketType::BossEvent => 0x4a,
            BedrockPacketType::ShowCredits => 0x4b,
            BedrockPacketType::AvailableCommands => 0x4c,
            BedrockPacketType::CommandRequest => 0x4d,
            BedrockPacketType::CommandBlockUpdate => 0x4e,
            BedrockPacketType::CommandOutput => 0x4f,
            BedrockPacketType::UpdateTrade => 0x50,
            BedrockPacketType::UpdateEquip => 0x51,
            BedrockPacketType::ResourcePackDataInfo => 0x52,
            BedrockPacketType::ResourcePackChunkData => 0x53,
            BedrockPacketType::ResourcePackChunkRequest => 0x54,
            BedrockPacketType::Transfer => 0x55,
            BedrockPacketType::PlaySound => 0x56,
            BedrockPacketType::StopSound => 0x57,
            BedrockPacketType::SetTitle => 0x58,
            BedrockPacketType::AddBehaviorTree => 0x59,
            BedrockPacketType::StructureBlockUpdate => 0x5a,
            BedrockPacketType::ShowStoreOffer => 0x5b,
            BedrockPacketType::PurchaseReceipt => 0x5c,
            BedrockPacketType::PlayerSkin => 0x5d,
            BedrockPacketType::SubClientLogin => 0x5e,
            BedrockPacketType::AutomationClientConnect => 0x5f,
            BedrockPacketType::SetLastHurtBy => 0x60,
            BedrockPacketType::BookEdit => 0x61,
            BedrockPacketType::NPCRequest => 0x62,
            BedrockPacketType::PhotoTransfer => 0x63,
            BedrockPacketType::ModalFormRequest => 0x64,
            BedrockPacketType::ModalFormResponse => 0x65,
            BedrockPacketType::ServerSettingsRequest => 0x66,
            BedrockPacketType::ServerSettingsResponse => 0x67,
            BedrockPacketType::ShowProfile => 0x68,
            BedrockPacketType::SetDefaultGameType => 0x69,
            BedrockPacketType::RemoveObjective => 0x6a,
            BedrockPacketType::SetDisplayObjective => 0x6b,
            BedrockPacketType::SetScore => 0x6c,
            BedrockPacketType::LabTable => 0x6d,
            BedrockPacketType::UpdateBlockSynced => 0x6e,
            BedrockPacketType::MoveActorDelta => 0x6f,
            BedrockPacketType::SetScoreboardIdentity => 0x70,
            BedrockPacketType::SetLocalPlayerAsInitialized => 0x71,
            BedrockPacketType::UpdateSoftEnum => 0x72,
            BedrockPacketType::NetworkStackLatency => 0x73,
            BedrockPacketType::SpawnParticleEvent => 0x76,
            BedrockPacketType::AvailableActorIdentifiers => 0x77,
            BedrockPacketType::LevelSoundEventV2 => 0x78,
            BedrockPacketType::NetworkChunkPublisherUpdate => 0x79,
            BedrockPacketType::BiomeDefinitionList => 0x7a,
            BedrockPacketType::LevelSoundEvent => 0x7b,
            BedrockPacketType::LevelEventGeneric => 0x7c,
            BedrockPacketType::LecternUpdate => 0x7d,
            BedrockPacketType::ClientCacheStatus => 0x81,
            BedrockPacketType::OnScreenTextureAnimation => 0x82,
            BedrockPacketType::MapCreateLockedCopy => 0x83,
            BedrockPacketType::StructureTemplateDataRequest => 0x84,
            BedrockPacketType::StructureTemplateDataResponse => 0x85,
            BedrockPacketType::ClientCacheBlobStatus => 0x87,
            BedrockPacketType::ClientCacheMissResponse => 0x88,
            BedrockPacketType::EducationSettings => 0x89,
            BedrockPacketType::Emote => 0x8a,
            BedrockPacketType::MultiplayerSettings => 0x8b,
            BedrockPacketType::SettingsCommand => 0x8c,
            BedrockPacketType::AnvilDamage => 0x8d,
            BedrockPacketType::CompletedUsingItem => 0x8e,
            BedrockPacketType::NetworkSettings => 0x8f,
            BedrockPacketType::PlayerAuthInput => 0x90,
            BedrockPacketType::CreativeContent => 0x91,
            BedrockPacketType::PlayerEnchantOptions => 0x92,
            BedrockPacketType::ItemStackRequest => 0x93,
            BedrockPacketType::ItemStackResponse => 0x94,
            BedrockPacketType::PlayerArmorDamage => 0x95,
            BedrockPacketType::CodeBuilder => 0x96,
            BedrockPacketType::UpdatePlayerGameType => 0x97,
            BedrockPacketType::EmoteList => 0x98,
            BedrockPacketType::PositionTrackingDBServerBroadcast => 0x99,
            BedrockPacketType::PositionTrackingDBClientRequest => 0x9a,
            BedrockPacketType::DebugInfo => 0x9b,
            BedrockPacketType::PacketViolationWarning => 0x9c,
            BedrockPacketType::MotionPredictionHints => 0x9d,
            BedrockPacketType::AnimateEntity => 0x9e,
            BedrockPacketType::CameraShake => 0x9f,
            BedrockPacketType::PlayerFog => 0xa0,
            BedrockPacketType::CorrectPlayerMovePrediction => 0xa1,
            BedrockPacketType::ItemComponent => 0xa2,
            BedrockPacketType::ClientboundDebugRenderer => 0xa4,
            BedrockPacketType::SyncActorProperty => 0xa5,
            BedrockPacketType::AddVolumeEntity => 0xa6,
            BedrockPacketType::RemoveVolumeEntity => 0xa7,
            BedrockPacketType::SimulationType => 0xa8,
            BedrockPacketType::NpcDialogue => 0xa9,
            BedrockPacketType::EduUriResource => 0xaa,
            BedrockPacketType::CreatePhoto => 0xab,
            BedrockPacketType::UpdateSubChunkBlocks => 0xac,
            BedrockPacketType::SubChunk => 0xae,
            BedrockPacketType::SubChunkRequest => 0xaf,
            BedrockPacketType::PlayerStartItemCooldown => 0xb0,
            BedrockPacketType::ScriptMessage => 0xb1,
            BedrockPacketType::CodeBuilderSource => 0xb2,
            BedrockPacketType::TickingAreasLoadStatus => 0xb3,
            BedrockPacketType::DimensionData => 0xb4,
            BedrockPacketType::AgentActionEvent => 0xb5,
            BedrockPacketType::ChangeMobProperty => 0xb6,
            BedrockPacketType::LessonProgress => 0xb7,
            BedrockPacketType::RequestAbility => 0xb8,
            BedrockPacketType::RequestPermissions => 0xb9,
            BedrockPacketType::ToastRequest => 0xba,
            BedrockPacketType::UpdateAbilities => 0xbb,
            BedrockPacketType::UpdateAdventureSettings => 0xbc,
            BedrockPacketType::DeathInfo => 0xbd,
            BedrockPacketType::EditorNetwork => 0xbe,
            BedrockPacketType::FeatureRegistry => 0xbf,
            BedrockPacketType::ServerStats => 0xc0,
            BedrockPacketType::RequestNetworkSettings => 0xc1,
            BedrockPacketType::GameTestRequest => 0xc2,
            BedrockPacketType::GameTestResults => 0xc3,
            BedrockPacketType::UpdateClientInputLocks => 0xc4,
            BedrockPacketType::CameraPresets => 0xc6,
            BedrockPacketType::UnlockedRecipes => 0xc7,
            BedrockPacketType::CameraInstruction => 0x12c,
            BedrockPacketType::CompressedBiomeDefinitionList => 0x12d,
            BedrockPacketType::TrimData => 0x12e,
            BedrockPacketType::OpenSign => 0x12f,
            BedrockPacketType::AgentAnimation => 0x130,
            BedrockPacketType::RefreshEntitlements => 0x131,
            BedrockPacketType::PlayerToggleCrafterSlotRequest => 0x132,
            BedrockPacketType::SetPlayerInventoryOptions => 0x133,
            BedrockPacketType::SetHud => 0x134,
            BedrockPacketType::AwardAchievement => 0x135,
            BedrockPacketType::ClientboundCloseForm => 0x136,
            BedrockPacketType::ServerboundLoadingScreen => 0x138,
            BedrockPacketType::JigsawStructureData => 0x139,
            BedrockPacketType::CurrentStructureFeature => 0x13a,
            BedrockPacketType::ServerboundDiagnostics => 0x13b,
            BedrockPacketType::Unknown => 0,
        }
    }

    /// The packet an identifier stands for; `Unknown` for any identifier not listed.
    pub open spec fn spec_from_id(id: u16) -> BedrockPacketType {
        match id {
            0x01 => BedrockPacketType::Login,
            0x02 => BedrockPacketType::PlayStatus,
            0x03 => BedrockPacketType::ServerToClientHandshake,
            0x04 => BedrockPacketType::ClientToServerHandshake,
            0x05 => BedrockPacketType::Disconnect,
            0x06 => BedrockPacketType::ResourcePacksInfo,
            0x07 => BedrockPacketType::ResourcePackStack,
            0x08 => BedrockPacketType::ResourcePackClientResponse,
            0x09 => BedrockPacketType::TextPacket,
            0x0a => BedrockPacketType::SetTime,
            0x0b => BedrockPacketType::StartGame,
            0x0c => BedrockPacketType::AddPlayer,
            0x0d => BedrockPacketType::AddActor,
            0x0e => BedrockPacketType::RemoveActor,
            0x0f => BedrockPacketType::AddItemActor,
            0x10 => BedrockPacketType::ServerPlayerPostMovePosition,
            0x11 => BedrockPacketType::TakeItemActor,
            0x12 => BedrockPacketType::MoveActorAbsolute,
            0x13 => BedrockPacketType::MovePlayer,
            0x14 => BedrockPacketType::PassengerJump,
            0x15 => BedrockPacketType::UpdateBlock,
            0x16 => BedrockPacketType::AddPainting,
            0x18 => BedrockPacketType::LevelSoundEventV1,
            0x19 => BedrockPacketType::LevelEvent,
            0x1a => BedrockPacketType::BlockEvent,
            0x1b => BedrockPacketType::ActorEvent,
            0x1c => BedrockPacketType::MobEffect,
            0x1d => BedrockPacketType::UpdateAttributes,
            0x1e => BedrockPacketType::InventoryTransaction,
            0x1f => BedrockPacketType::MobEquipment,
            0x20 => BedrockPacketType::MobArmorEquipment,
            0x21 => BedrockPacketType::Interact,
            0x22 => BedrockPacketType::BlockPickRequest,
            0x23 => BedrockPacketType::ActorPickRequest,
            0x24 => BedrockPacketType::PlayerAction,
            0x26 => BedrockPacketType::HurtArmor,
            0x27 => BedrockPacketType::SetActorData,
            0x28 => BedrockPacketType::SetActorMotion,
            0x29 => BedrockPacketType::SetActorLink,
            0x2a => BedrockPacketType::SetHealth,
            0x2b => BedrockPacketType::SetSpawnPosition,
            0x2c => BedrockPacketType::Animate,
            0x2d => BedrockPacketType::Respawn,
            0x2e => BedrockPacketType::ContainerOpen,
            0x2f => BedrockPacketType::ContainerClose,
            0x30 => BedrockPacketType::PlayerHotbar,
            0x31 => BedrockPacketType::InventoryContent,
            0x32 => BedrockPacketType::InventorySlot,
            0x33 => BedrockPacketType::ContainerSetData,
            0x34 => BedrockPacketType::CraftingData,
            0x36 => BedrockPacketType::GUIDataPackItem,
            0x38 => BedrockPacketType::BlockActorData,
            0x39 => BedrockPacketType::PlayerInput,
            0x3a => BedrockPacketType::LevelChunk,
            0x3b => BedrockPacketType::SetCommandsEnabled,
            0x3c => BedrockPacketType::SetDifficulty,
            0x3d => BedrockPacketType::ChangeDimension,
            0x3e => BedrockPacketType::SetPlayerGameType,
            0x3f => BedrockPacketType::PlayerList,
            0x40 => BedrockPacketType::SimpleEvent,
            0x41 => BedrockPacketType::LegacyTelemetryEvent,
            0x42 => BedrockPacketType::SpawnExperienceOrb,
            0x43 => BedrockPacketType::ClientboundMapItemData,
            0x44 => BedrockPacketType::MapInfoRequest,
            0x45 => BedrockPacketType::RequestChunkRadius,
            0x46 => BedrockPacketType::ChunkRadiusUpdated,
            0x48 => BedrockPacketType::GameRulesChanged,
            0x49 => BedrockPacketType::Camera,
            0x4a => BedrockPacketType::BossEvent,
            0x4b => BedrockPacketType::ShowCredits,
            0x4c => BedrockPacketType::AvailableCommands,
            0x4d => BedrockPacketType::CommandRequest,
            0x4e => BedrockPacketType::CommandBlockUpdate,
            0x4f => BedrockPacketType::CommandOutput,
            0x50 => BedrockPacketType::UpdateTrade,
            0x51 => BedrockPacketType::UpdateEquip,
            0x52 => BedrockPacketType::ResourcePackDataInfo,
            0x53 => BedrockPacketType::ResourcePackChunkData,
            0x54 => BedrockPacketType::ResourcePackChunkRequest,
            0x55 => BedrockPacketType::Transfer,
            0x56 => BedrockPacketType::PlaySound,
            0x57 => BedrockPacketType::StopSound,
            0x58 => BedrockPacketType::SetTitle,
            0x59 => BedrockPacketType::AddBehaviorTree,
            0x5a => BedrockPacketType::StructureBlockUpdate,
            0x5b => BedrockPacketType::ShowStoreOffer,
            0x5c => BedrockPacketType::PurchaseReceipt,
            0x5d => BedrockPacketType::PlayerSkin,
            0x5e => BedrockPacketType::SubClientLogin,
            0x5f => BedrockPacketType::AutomationClientConnect,
            0x60 => BedrockPacketType::SetLastHurtBy,
            0x61 => BedrockPacketType::BookEdit,
            0x62 => BedrockPacketType::NPCRequest,
            0x63 => BedrockPacketType::PhotoTransfer,
            0x64 => BedrockPacketType::ModalFormRequest,
            0x65 => BedrockPacketType::ModalFormResponse,
            0x66 => BedrockPacketType::ServerSettingsRequest,
            0x67 => BedrockPacketType::ServerSettingsResponse,
            0x68 => BedrockPacketType::ShowProfile,
            0x69 => BedrockPacketType::SetDefaultGameType,
            0x6a => BedrockPacketType::RemoveObjective,
            0x6b => BedrockPacketType::SetDisplayObjective,
            0x6c => BedrockPacketType::SetScore,
            0x6d => BedrockPacketType::LabTable,
            0x6e => BedrockPacketType::UpdateBlockSynced,
            0x6f => BedrockPacketType::MoveActorDelta,
            0x70 => BedrockPacketType::SetScoreboardIdentity,
            0x71 => BedrockPacketType::SetLocalPlayerAsInitialized,
            0x72 => BedrockPacketType::UpdateSoftEnum,
            0x73 => BedrockPacketType::NetworkStackLatency,
            0x76 => BedrockPacketType::SpawnParticleEvent,
            0x77 => BedrockPacketType::AvailableActorIdentifiers,
            0x78 => BedrockPacketType::LevelSoundEventV2,
            0x79 => BedrockPacketType::NetworkChunkPublisherUpdate,
            0x7a => BedrockPacketType::BiomeDefinitionList,
            0x7b => BedrockPacketType::LevelSoundEvent,
            0x7c => BedrockPacketType::LevelEventGeneric,
            0x7d => BedrockPacketType::LecternUpdate,
            0x81 => BedrockPacketType::ClientCacheStatus,
            0x82 => BedrockPacketType::OnScreenTextureAnimation,
            0x83 => BedrockPacketType::MapCreateLockedCopy,
            0x84 => BedrockPacketType::StructureTemplateDataRequest,
            0x85 => BedrockPacketType::StructureTemplateDataResponse,
            0x87 => BedrockPacketType::ClientCacheBlobStatus,
            0x88 => BedrockPacketType::ClientCacheMissResponse,
            0x89 => BedrockPacketType::EducationSettings,
            0x8a => BedrockPacketType::Emote,
            0x8b => BedrockPacketType::MultiplayerSettings,
            0x8c => BedrockPacketType::SettingsCommand,
            0x8d => BedrockPacketType::AnvilDamage,
            0x8e => BedrockPacketType::CompletedUsingItem,
            0x8f => BedrockPacketType::NetworkSettings,
            0x90 => BedrockPacketType::PlayerAuthInput,
            0x91 => BedrockPacketType::CreativeContent,
            0x92 => BedrockPacketType::PlayerEnchantOptions,
            0x93 => BedrockPacketType::ItemStackRequest,
            0x94 => BedrockPacketType::ItemStackResponse,
            0x95 => BedrockPacketType::PlayerArmorDamage,
            0x96 => BedrockPacketType::CodeBuilder,
            0x97 => BedrockPacketType::UpdatePlayerGameType,
            0x98 => BedrockPacketType::EmoteList,
            0x99 => BedrockPacketType::PositionTrackingDBServerBroadcast,
            0x9a => BedrockPacketType::PositionTrackingDBClientRequest,
            0x9b => BedrockPacketType::DebugInfo,
            0x9c => BedrockPacketType::PacketViolationWarning,
            0x9d => BedrockPacketType::MotionPredictionHints,
            0x9e => BedrockPacketType::AnimateEntity,
            0x9f => BedrockPacketType::CameraShake,
            0xa0 => BedrockPacketType::PlayerFog,
            0xa1 => BedrockPacketType::CorrectPlayerMovePrediction,
            0xa2 => BedrockPacketType::ItemComponent,
            0xa4 => BedrockPacketType::ClientboundDebugRenderer,
            0xa5 => BedrockPacketType::SyncActorProperty,
            0xa6 => BedrockPacketType::AddVolumeEntity,
            0xa7 => BedrockPacketType::RemoveVolumeEntity,
            0xa8 => BedrockPacketType::SimulationType,
            0xa9 => BedrockPacketType::NpcDialogue,
            0xaa => BedrockPacketType::EduUriResource,
            0xab => BedrockPacketType::CreatePhoto,
            0xac => BedrockPacketType::UpdateSubChunkBlocks,
            0xae => BedrockPacketType::SubChunk,
            0xaf => BedrockPacketType::SubChunkRequest,
            0xb0 => BedrockPacketType::PlayerStartItemCooldown,
            0xb1 => BedrockPacketType::ScriptMessage,
            0xb2 => BedrockPacketType::CodeBuilderSource,
            0xb3 => BedrockPacketType::TickingAreasLoadStatus,
            0xb4 => BedrockPacketType::DimensionData,
            0xb5 => BedrockPacketType::AgentActionEvent,
            0xb6 => BedrockPacketType::ChangeMobProperty,
            0xb7 => BedrockPacketType::LessonProgress,
            0xb8 => BedrockPacketType::RequestAbility,
            0xb9 => BedrockPacketType::RequestPermissions,
            0xba => BedrockPacketType::ToastRequest,
            0xbb => BedrockPacketType::UpdateAbilities,
            0xbc => BedrockPacketType::UpdateAdventureSettings,
            0xbd => BedrockPacketType::DeathInfo,
            0xbe => BedrockPacketType::EditorNetwork,
            0xbf => BedrockPacketType::FeatureRegistry,
            0xc0 => BedrockPacketType::ServerStats,
            0xc1 => BedrockPacketType::RequestNetworkSettings,
            0xc2 => BedrockPacketType::GameTestRequest,
            0xc3 => BedrockPacketType::GameTestResults,
            0xc4 => BedrockPacketType::UpdateClientInputLocks,
            0xc6 => BedrockPacketType::CameraPresets,
            0xc7 => BedrockPacketType::UnlockedRecipes,
            0x12c => BedrockPacketType::CameraInstruction,
            0x12d => BedrockPacketType::CompressedBiomeDefinitionList,
            0x12e => BedrockPacketType::TrimData,
            0x12f => BedrockPacketType::OpenSign,
            0x130 => BedrockPacketType::AgentAnimation,
            0x131 => BedrockPacketType::RefreshEntitlements,
            0x132 => BedrockPacketType::PlayerToggleCrafterSlotRequest,
            0x133 => BedrockPacketType::SetPlayerInventoryOptions,
            0x134 => BedrockPacketType::SetHud,
            0x135 => BedrockPacketType::AwardAchievement,
            0x136 => BedrockPacketType::ClientboundCloseForm,
            0x138 => BedrockPacketType::ServerboundLoadingScreen,
            0x139 => BedrockPacketType::JigsawStructureData,
            0x13a => BedrockPacketType::CurrentStructureFeature,
            0x13b => BedrockPacketType::ServerboundDiagnostics,
            _ => BedrockPacketType::Unknown,
        }
    }

    /// The display name of each packet; "Unknown Packet" where none is given.
    pub open spec fn spec_name(self) -> Seq<char> {
        match self {
            BedrockPacketType::Login => "Login"@,
            BedrockPacketType::PlayStatus => "Play Status"@,
            BedrockPacketType::ServerToClientHandshake => "Server To Client Handshake"@,
            BedrockPacketType::ClientToServerHandshake => "Client To Server Handshake"@,
            BedrockPacketType::Disconnect => "Disconnect"@,
            BedrockPacketType::ResourcePacksInfo => "Resource Packs Info"@,
            BedrockPacketType::ResourcePackStack => "Resource Pack Stack"@,
            BedrockPacketType::ResourcePackClientResponse => "Resource Pack Client Response"@,
            BedrockPacketType::TextPacket => "Text Packet"@,
            BedrockPacketType::SetTime => "Set Time"@,
            BedrockPacketType::StartGame => "Start Game"@,
            BedrockPacketType::AddPlayer => "Add Player"@,
            BedrockPacketType::AddActor => "Add Actor"@,
            BedrockPacketType::RemoveActor => "Remove Actor"@,
            BedrockPacketType::AddItemActor => "Add Item Actor"@,
            BedrockPacketType::ServerPlayerPostMovePosition => "Server Player Post Move Position"@,
            BedrockPacketType::TakeItemActor => "Take Item Actor"@,
            BedrockPacketType::MoveActorAbsolute => "Move Actor Absolute"@,
            BedrockPacketType::MovePlayer => "Move Player"@,
            BedrockPacketType::PassengerJump => "Passenger Jump"@,
            BedrockPacketType::UpdateBlock => "Update Block"@,
            BedrockPacketType::AddPainting => "Add Painting"@,
            BedrockPacketType::LevelSoundEventV1 => "Level Sound Event V1"@,
            BedrockPacketType::LevelEvent => "Level Event"@,
            BedrockPacketType::BlockEvent => "Block Event"@,
            BedrockPacketType::ActorEvent => "Actor Event"@,
            BedrockPacketType::MobEffect => "Mob Effect"@,
            BedrockPacketType::UpdateAttributes => "Update Attributes"@,
            BedrockPacketType::InventoryTransaction => "Inventory Transaction"@,
            BedrockPacketType::MobEquipment => "Mob Equipment"@,
            BedrockPacketType::MobArmorEquipment => "Mob Armor Equipment"@,
            BedrockPacketType::Interact => "Interact"@,
            BedrockPacketType::BlockPickRequest => "Block Pick Request"@,
            BedrockPacketType::ActorPickRequest => "Actor Pick Request"@,
            BedrockPacketType::PlayerAction => "Player Action"@,
            BedrockPacketType::HurtArmor => "Hurt Armor"@,
            BedrockPacketType::SetActorData => "Set Actor Data"@,
            BedrockPacketType::SetActorMotion => "Set Actor Motion"@,
            BedrockPacketType::SetActorLink => "Set Actor Link"@,
            BedrockPacketType::SetHealth => "Set Health"@,
            BedrockPacketType::SetSpawnPosition => "Set Spawn Position"@,
            BedrockPacketType::Animate => "Animate"@,
            BedrockPacketType::Respawn => "Respawn"@,
            BedrockPacketType::ContainerOpen => "Container Open"@,
            BedrockPacketType::ContainerClose => "Container Close"@,
            BedrockPacketType::PlayerHotbar => "Player Hotbar"@,
            BedrockPacketType::InventoryContent => "Inventory Content"@,
            BedrockPacketType::InventorySlot => "Inventory Slot"@,
            BedrockPacketType::ContainerSetData => "Container Set Data"@,
            BedrockPacketType::CraftingData => "Crafting Data"@,
            BedrockPacketType::GUIDataPackItem => "GUI Data Pack Item"@,
            BedrockPacketType::BlockActorData => "Block Actor Data"@,
            BedrockPacketType::PlayerInput => "Player Input"@,
            BedrockPacketType::LevelChunk => "Level Chunk"@,
            BedrockPacketType::SetCommandsEnabled => "Set Commands Enabled"@,
            BedrockPacketType::SetDifficulty => "Set Difficulty"@,
            BedrockPacketType::ChangeDimension => "Change Dimension"@,
            BedrockPacketType::SetPlayerGameType => "Set Player Game Type"@,
            BedrockPacketType::PlayerList => "Player List"@,
            BedrockPacketType::SimpleEvent => "Simple Event"@,
            BedrockPacketType::LegacyTelemetryEvent => "Legacy Telemetry Event"@,
            BedrockPacketType::SpawnExperienceOrb => "Spawn Experience Orb"@,
            BedrockPacketType::ClientboundMapItemData => "Clientbound Map Item Data"@,
            BedrockPacketType::MapInfoRequest => "Map Info Request"@,
            BedrockPacketType::RequestChunkRadius => "Request Chunk Radius"@,
            BedrockPacketType::ChunkRadiusUpdated => "Chunk Radius Updated"@,
            BedrockPacketType::GameRulesChanged => "Game Rules Changed"@,
            BedrockPacketType::Camera => "Camera"@,
            BedrockPacketType::BossEvent => "Boss Event"@,
            BedrockPacketType::ShowCredits => "Show Credits"@,
            BedrockPacketType::AvailableCommands => "Available Commands"@,
            BedrockPacketType::CommandRequest => "Command Request"@,
            BedrockPacketType::CommandBlockUpdate => "Command Block Update"@,
            BedrockPacketType::CommandOutput => "Command Output"@,
            BedrockPacketType::UpdateTrade => "Update Trade"@,
            BedrockPacketType::UpdateEquip => "Update Equip"@,
            BedrockPacketType::ResourcePackDataInfo => "Resource Pack Data Info"@,
            BedrockPacketType::ResourcePackChunkData => "Resource Pack Chunk Data"@,
            BedrockPacketType::ResourcePackChunkRequest => "Resource Pack Chunk Request"@,
            BedrockPacketType::Transfer => "Transfer"@,
            BedrockPacketType::PlaySound => "Play Sound"@,
            BedrockPacketType::StopSound => "Stop Sound"@,
            BedrockPacketType::SetTitle => "Set Title"@,
            BedrockPacketType::AddBehaviorTree => "Add Behavior Tree"@,
            BedrockPacketType::StructureBlockUpdate => "Structure Block Update"@,
            BedrockPacketType::ShowStoreOffer => "Show Store Offer"@,
            BedrockPacketType::PurchaseReceipt => "Purchase Receipt"@,
            BedrockPacketType::PlayerSkin => "Player Skin"@,
            BedrockPacketType::SubClientLogin => "Sub Client Login"@,
            BedrockPacketType::AutomationClientConnect => "Automation Client Connect"@,
            BedrockPacketType::SetLastHurtBy => "Set Last Hurt By"@,
            BedrockPacketType::BookEdit => "Book Edit"@,
            BedrockPacketType::NPCRequest => "NPC Request"@,
            BedrockPacketType::PhotoTransfer => "Photo Transfer"@,
            BedrockPacketType::ModalFormRequest => "Modal Form Request"@,
            BedrockPacketType::ModalFormResponse => "Modal Form Response"@,
            BedrockPacketType::ServerSettingsRequest => "Server Settings Request"@,
            BedrockPacketType::ServerSettingsResponse => "Server Settings Response"@,
            BedrockPacketType::ShowProfile => "Show Profile"@,
            BedrockPacketType::SetDefaultGameType => "Set Default Game Type"@,
            BedrockPacketType::RemoveObjective => "Remove Objective"@,
            BedrockPacketType::SetDisplayObjective => "Set Display Objective"@,
            BedrockPacketType::SetScore => "Set Score"@,
            BedrockPacketType::LabTable => "Lab Table"@,
            BedrockPacketType::UpdateBlockSynced => "Update Block Synced"@,
            BedrockPacketType::MoveActorDelta => "Move Actor Delta"@,
            BedrockPacketType::SetScoreboardIdentity => "Set Scoreboard Identity"@,
            BedrockPacketType::SetLocalPlayerAsInitialized => "Set Local Player As Initialized"@,
            BedrockPacketType::UpdateSoftEnum => "Update Soft Enum"@,
            BedrockPacketType::NetworkStackLatency => "Network Stack Latency"@,
            BedrockPacketType::SpawnParticleEvent => "Spawn Particle Event"@,
            BedrockPacketType::AvailableActorIdentifiers => "Available Actor Identifiers"@,
            BedrockPacketType::LevelSoundEventV2 => "Level Sound Event V2"@,
            BedrockPacketType::NetworkChunkPublisherUpdate => "Network Chunk Publisher Update"@,
            BedrockPacketType::BiomeDefinitionList => "Biome Definition List"@,
            BedrockPacketType::LevelSoundEvent => "Level Sound Event"@,
            BedrockPacketType::LevelEventGeneric => "Level Event Generic"@,
            BedrockPacketType::LecternUpdate => "Lectern Update"@,
            BedrockPacketType::ClientCacheStatus => "Client Cache Status"@,
            BedrockPacketType::OnScreenTextureAnimation => "On Screen Texture Animation"@,
            BedrockPacketType::MapCreateLockedCopy => "Map Create Locked Copy"@,
            BedrockPacketType::StructureTemplateDataRequest => "Structure Template Data Request"@,
            BedrockPacketType::StructureTemplateDataResponse => "Structure Template Data Response"@,
            BedrockPacketType::ClientCacheBlobStatus => "Client Cache Blob Status"@,
            BedrockPacketType::ClientCacheMissResponse => "Client Cache Miss Response"@,
            BedrockPacketType::EducationSettings => "Education Settings"@,
            BedrockPacketType::Emote => "Emote"@,
            BedrockPacketType::MultiplayerSettings => "Multiplayer Settings"@,
            BedrockPacketType::SettingsCommand => "Settings Command"@,
            BedrockPacketType::AnvilDamage => "Anvil Damage"@,
            BedrockPacketType::CompletedUsingItem => "Completed Using Item"@,
            BedrockPacketType::NetworkSettings => "Network Settings"@,
            BedrockPacketType::PlayerAuthInput => "Player Auth Input"@,
            BedrockPacketType::CreativeContent => "Creative Content"@,
            BedrockPacketType::PlayerEnchantOptions => "Player Enchant Options"@,
            BedrockPacketType::ItemStackRequest => "Item Stack Request"@,
            BedrockPacketType::ItemStackResponse => "Item Stack Response"@,
            BedrockPacketType::PlayerArmorDamage => "Player Armor Damage"@,
            BedrockPacketType::CodeBuilder => "Code Builder"@,
            BedrockPacketType::UpdatePlayerGameType => "Update Player Game Type"@,
            BedrockPacketType::EmoteList => "Emote List"@,
            BedrockPacketType::PositionTrackingDBServerBroadcast => "Position Tracking DB Server Broadcast"@,
            BedrockPacketType::PositionTrackingDBClientRequest => "Position Tracking DB Client Request"@,
            BedrockPacketType::DebugInfo => "Debug Info"@,
            BedrockPacketType::PacketViolationWarning => "Packet Violation Warning"@,
            BedrockPacketType::MotionPredictionHints => "Motion Prediction Hints"@,
            BedrockPacketType::AnimateEntity => "Animate Entity"@,
            BedrockPacketType::CameraShake => "Camera Shake"@,
            BedrockPacketType::PlayerFog => "Player Fog"@,
            BedrockPacketType::CorrectPlayerMovePrediction => "Correct Player Move Prediction"@,
            BedrockPacketType::ItemComponent => "Item Component"@,
            BedrockPacketType::ClientboundDebugRenderer => "Clientbound Debug Renderer"@,
            BedrockPacketType::SyncActorProperty => "Sync Actor Property"@,
            BedrockPacketType::AddVolumeEntity => "Add Volume Entity"@,
            BedrockPacketType::RemoveVolumeEntity => "Remove Volume Entity"@,
            BedrockPacketType::SimulationType => "Simulation Type"@,
            BedrockPacketType::NpcDialogue => "Npc Dialogue"@,
            BedrockPacketType::EduUriResource => "Edu Uri Resource"@,
            BedrockPacketType::CreatePhoto => "Create Photo"@,
            BedrockPacketType::UpdateSubChunkBlocks => "Update Sub Chunk Blocks"@,
            BedrockPacketType::SubChunk => "Sub Chunk"@,
            BedrockPacketType::SubChunkRequest => "Sub Chunk Request"@,
            BedrockPacketType::PlayerStartItemCooldown => "Player Start Item Cooldown"@,
            BedrockPacketType::ScriptMessage => "Script Message"@,
            BedrockPacketType::CodeBuilderSource => "Code Builder Source"@,
            BedrockPacketType::TickingAreasLoadStatus => "Ticking Areas Load Status"@,
            BedrockPacketType::DimensionData => "Dimension Data"@,
            BedrockPacketType::AgentActionEvent => "Agent Action Event"@,
            BedrockPacketType::ChangeMobProperty => "Change Mob Property"@,
            BedrockPacketType::LessonProgress => "Lesson Progress"@,
            BedrockPacketType::RequestAbility => "Request Ability"@,
            BedrockPacketType::RequestPermissions => "Request Permissions"@,
            BedrockPacketType::ToastRequest => "Toast Request"@,
            BedrockPacketType::UpdateAbilities => "Update Abilities"@,
            BedrockPacketType::UpdateAdventureSettings => "Update Adventure Settings"@,
            BedrockPacketType::DeathInfo => "Death Info"@,
            BedrockPacketType::EditorNetwork => "Editor Network"@,
            BedrockPacketType::FeatureRegistry => "Feature Registry"@,
            BedrockPacketType::ServerStats => "Server Stats"@,
            BedrockPacketType::RequestNetworkSettings => "Request Network Settings"@,
            BedrockPacketType::GameTestRequest => "Game Test Request"@,
            BedrockPacketType::GameTestResults => "Game Test Results"@,
            BedrockPacketType::UpdateClientInputLocks => "Update Client Input Lock"@,
            BedrockPacketType::CameraPresets => "Unknown Packet"@,
            BedrockPacketType::UnlockedRecipes => "Unknown Packet"@,
            BedrockPacketType::CameraInstruction => "Unknown Packet"@,
            BedrockPacketType::CompressedBiomeDefinitionList => "Unknown Packet"@,
            BedrockPacketType::TrimData => "Unknown Packet"@,
            BedrockPacketType::OpenSign => "Unknown Packet"@,
            BedrockPacketType::AgentAnimation => "Unknown Packet"@,
            BedrockPacketType::RefreshEntitlements => "Unknown Packet"@,
            BedrockPacketType::PlayerToggleCrafterSlotRequest => "Unknown Packet"@,
            BedrockPacketType::SetPlayerInventoryOptions => "Unknown Packet"@,
            BedrockPacketType::SetHud => "Unknown Packet"@,
            BedrockPacketType::AwardAchievement => "Unknown Packet"@,
            BedrockPacketType::ClientboundCloseForm => "Unknown Packet"@,
            BedrockPacketType::ServerboundLoadingScreen => "Unknown Packet"@,
            BedrockPacketType::JigsawStructureData => "Unknown Packet"@,
            BedrockPacketType::CurrentStructureFeature => "Unknown Packet"@,
            BedrockPacketType::ServerboundDiagnostics => "Unknown Packet"@,
            BedrockPacketType::Unknown => "Unknown Packet"@,
        }
    }

    /// The packet that `byte` identifies.
    #[verifier::rlimit(50)]
    pub fn from_byte(byte: u16) -> (r: Self)
        ensures
            r == Self::spec_from_id(byte),
    {
        match byte {
            0x01 => BedrockPacketType::Login,
            0x02 => BedrockPacketType::PlayStatus,
            0x03 => BedrockPacketType::ServerToClientHandshake,
            0x04 => BedrockPacketType::ClientToServerHandshake,
            0x05 => BedrockPacketType::Disconnect,
            0x06 => BedrockPacketType::ResourcePacksInfo,
            0x07 => BedrockPacketType::ResourcePackStack,
            0x08 => BedrockPacketType::ResourcePackClientResponse,
            0x09 => BedrockPacketType::TextPacket,
            0x0a => BedrockPacketType::SetTime,
            0x0b => BedrockPacketType::StartGame,
            0x0c => BedrockPacketType::AddPlayer,
            0x0d => BedrockPacketType::AddActor,
            0x0e => BedrockPacketType::RemoveActor,
            0x0f => BedrockPacketType::AddItemActor,
            0x10 => BedrockPacketType::ServerPlayerPostMovePosition,
            0x11 => BedrockPacketType::TakeItemActor,
            0x12 => BedrockPacketType::MoveActorAbsolute,
            0x13 => BedrockPacketType::MovePlayer,
            0x14 => BedrockPacketType::PassengerJump,
            0x15 => BedrockPacketType::UpdateBlock,
            0x16 => BedrockPacketType::AddPainting,
            0x18 => BedrockPacketType::LevelSoundEventV1,
            0x19 => BedrockPacketType::LevelEvent,
            0x1a => BedrockPacketType::BlockEvent,
            0x1b => BedrockPacketType::ActorEvent,
            0x1c => BedrockPacketType::MobEffect,
            0x1d => BedrockPacketType::UpdateAttributes,
            0x1e => BedrockPacketType::InventoryTransaction,
            0x1f => BedrockPacketType::MobEquipment,
            0x20 => BedrockPacketType::MobArmorEquipment,
            0x21 => BedrockPacketType::Interact,
            0x22 => BedrockPacketType::BlockPickRequest,
            0x23 => BedrockPacketType::ActorPickRequest,
            0x24 => BedrockPacketType::PlayerAction,
            0x26 => BedrockPacketType::HurtArmor,
            0x27 => BedrockPacketType::SetActorData,
            0x28 => BedrockPacketType::SetActorMotion,
            0x29 => BedrockPacketType::SetActorLink,
            0x2a => BedrockPacketType::SetHealth,
            0x2b => BedrockPacketType::SetSpawnPosition,
            0x2c => BedrockPacketType::Animate,
            0x2d => BedrockPacketType::Respawn,
            0x2e => BedrockPacketType::ContainerOpen,
            0x2f => BedrockPacketType::ContainerClose,
            0x30 => BedrockPacketType::PlayerHotbar,
            0x31 => BedrockPacketType::InventoryContent,
            0x32 => BedrockPacketType::InventorySlot,
            0x33 => BedrockPacketType::ContainerSetData,
            0x34 => BedrockPacketType::CraftingData,
            0x36 => BedrockPacketType::GUIDataPackItem,
            0x38 => BedrockPacketType::BlockActorData,
            0x39 => BedrockPacketType::PlayerInput,
            0x3a => BedrockPacketType::LevelChunk,
            0x3b => BedrockPacketType::SetCommandsEnabled,
            0x3c => BedrockPacketType::SetDifficulty,
            0x3d => BedrockPacketType::ChangeDimension,
            0x3e => BedrockPacketType::SetPlayerGameType,
            0x3f => BedrockPacketType::PlayerList,
            0x40 => BedrockPacketType::SimpleEvent,
            0x41 => BedrockPacketType::LegacyTelemetryEvent,
            0x42 => BedrockPacketType::SpawnExperienceOrb,
            0x43 => BedrockPacketType::ClientboundMapItemData,
            0x44 => BedrockPacketType::MapInfoRequest,
            0x45 => BedrockPacketType::RequestChunkRadius,
            0x46 => BedrockPacketType::ChunkRadiusUpdated,
            0x48 => BedrockPacketType::GameRulesChanged,
            0x49 => BedrockPacketType::Camera,
            0x4a => BedrockPacketType::BossEvent,
            0x4b => BedrockPacketType::ShowCredits,
            0x4c => BedrockPacketType::AvailableCommands,
            0x4d => BedrockPacketType::CommandRequest,
            0x4e => BedrockPacketType::CommandBlockUpdate,
            0x4f => BedrockPacketType::CommandOutput,
            0x50 => BedrockPacketType::UpdateTrade,
            0x51 => BedrockPacketType::UpdateEquip,
            0x52 => BedrockPacketType::ResourcePackDataInfo,
            0x53 => BedrockPacketType::ResourcePackChunkData,
            0x54 => BedrockPacketType::ResourcePackChunkRequest,
            0x55 => BedrockPacketType::Transfer,
            0x56 => BedrockPacketType::PlaySound,
            0x57 => BedrockPacketType::StopSound,
            0x58 => BedrockPacketType::SetTitle,
            0x59 => BedrockPacketType::AddBehaviorTree,
            0x5a => BedrockPacketType::StructureBlockUpdate,
            0x5b => BedrockPacketType::ShowStoreOffer,
            0x5c => BedrockPacketType::PurchaseReceipt,
            0x5d => BedrockPacketType::PlayerSkin,
            0x5e => BedrockPacketType::SubClientLogin,
            0x5f => BedrockPacketType::AutomationClientConnect,
            0x60 => BedrockPacketType::SetLastHurtBy,
            0x61 => BedrockPacketType::BookEdit,
            0x62 => BedrockPacketType::NPCRequest,
            0x63 => BedrockPacketType::PhotoTransfer,
            0x64 => BedrockPacketType::ModalFormRequest,
            0x65 => BedrockPacketType::ModalFormResponse,
            0x66 => BedrockPacketType::ServerSettingsRequest,
            0x67 => BedrockPacketType::ServerSettingsResponse,
            0x68 => BedrockPacketType::ShowProfile,
            0x69 => BedrockPacketType::SetDefaultGameType,
            0x6a => BedrockPacketType::RemoveObjective,
            0x6b => BedrockPacketType::SetDisplayObjective,
            0x6c => BedrockPacketType::SetScore,
            0x6d => BedrockPacketType::LabTable,
            0x6e => BedrockPacketType::UpdateBlockSynced,
            0x6f => BedrockPacketType::MoveActorDelta,
            0x70 => BedrockPacketType::SetScoreboardIdentity,
            0x71 => BedrockPacketType::SetLocalPlayerAsInitialized,
            0x72 => BedrockPacketType::UpdateSoftEnum,
            0x73 => BedrockPacketType::NetworkStackLatency,
            0x76 => BedrockPacketType::SpawnParticleEvent,
            0x77 => BedrockPacketType::AvailableActorIdentifiers,
            0x78 => BedrockPacketType::LevelSoundEventV2,
            0x79 => BedrockPacketType::NetworkChunkPublisherUpdate,
            0x7a => BedrockPacketType::BiomeDefinitionList,
            0x7b => BedrockPacketType::LevelSoundEvent,
            0x7c => BedrockPacketType::LevelEventGeneric,
            0x7d => BedrockPacketType::LecternUpdate,
            0x81 => BedrockPacketType::ClientCacheStatus,
            0x82 => BedrockPacketType::OnScreenTextureAnimation,
            0x83 => BedrockPacketType::MapCreateLockedCopy,
            0x84 => BedrockPacketType::StructureTemplateDataRequest,
            0x85 => BedrockPacketType::StructureTemplateDataResponse,
            0x87 => BedrockPacketType::ClientCacheBlobStatus,
            0x88 => BedrockPacketType::ClientCacheMissResponse,
            0x89 => BedrockPacketType::EducationSettings,
            0x8a => BedrockPacketType::Emote,
            0x8b => BedrockPacketType::MultiplayerSettings,
            0x8c => BedrockPacketType::SettingsCommand,
            0x8d => BedrockPacketType::AnvilDamage,
            0x8e => BedrockPacketType::CompletedUsingItem,
            0x8f => BedrockPacketType::NetworkSettings,
            0x90 => BedrockPacketType::PlayerAuthInput,
            0x91 => BedrockPacketType::CreativeContent,
            0x92 => BedrockPacketType::PlayerEnchantOptions,
            0x93 => BedrockPacketType::ItemStackRequest,
            0x94 => BedrockPacketType::ItemStackResponse,
            0x95 => BedrockPacketType::PlayerArmorDamage,
            0x96 => BedrockPacketType::CodeBuilder,
            0x97 => BedrockPacketType::UpdatePlayerGameType,
            0x98 => BedrockPacketType::EmoteList,
            0x99 => BedrockPacketType::PositionTrackingDBServerBroadcast,
            0x9a => BedrockPacketType::PositionTrackingDBClientRequest,
            0x9b => BedrockPacketType::DebugInfo,
            0x9c => BedrockPacketType::PacketViolationWarning,
            0x9d => BedrockPacketType::MotionPredictionHints,
            0x9e => BedrockPacketType::AnimateEntity,
            0x9f => BedrockPacketType::CameraShake,
            0xa0 => BedrockPacketType::PlayerFog,
            0xa1 => BedrockPacketType::CorrectPlayerMovePrediction,
            0xa2 => BedrockPacketType::ItemComponent,
            0xa4 => BedrockPacketType::ClientboundDebugRenderer,
            0xa5 => BedrockPacketType::SyncActorProperty,
            0xa6 => BedrockPacketType::AddVolumeEntity,
            0xa7 => BedrockPacketType::RemoveVolumeEntity,
            0xa8 => BedrockPacketType::SimulationType,
            0xa9 => BedrockPacketType::NpcDialogue,
            0xaa => BedrockPacketType::EduUriResource,
            0xab => BedrockPacketType::CreatePhoto,
            0xac => BedrockPacketType::UpdateSubChunkBlocks,
            0xae => BedrockPacketType::SubChunk,
            0xaf => BedrockPacketType::SubChunkRequest,
            0xb0 => BedrockPacketType::PlayerStartItemCooldown,
            0xb1 => BedrockPacketType::ScriptMessage,
            0xb2 => BedrockPacketType::CodeBuilderSource,
            0xb3 => BedrockPacketType::TickingAreasLoadStatus,
            0xb4 => BedrockPacketType::DimensionData,
            0xb5 => BedrockPacketType::AgentActionEvent,
            0xb6 => BedrockPacketType::ChangeMobProperty,
            0xb7 => BedrockPacketType::LessonProgress,
            0xb8 => BedrockPacketType::RequestAbility,
            0xb9 => BedrockPacketType::RequestPermissions,
            0xba => BedrockPacketType::ToastRequest,
            0xbb => BedrockPacketType::UpdateAbilities,
            0xbc => BedrockPacketType::UpdateAdventureSettings,
            0xbd => BedrockPacketType::DeathInfo,
            0xbe => BedrockPacketType::EditorNetwork,
            0xbf => BedrockPacketType::FeatureRegistry,
            0xc0 => BedrockPacketType::ServerStats,
            0xc1 => BedrockPacketType::RequestNetworkSettings,
            0xc2 => BedrockPacketType::GameTestRequest,
            0xc3 => BedrockPacketType::GameTestResults,
            0xc4 => BedrockPacketType::UpdateClientInputLocks,
            0xc6 => BedrockPacketType::CameraPresets,
            0xc7 => BedrockPacketType::UnlockedRecipes,
            0x12c => BedrockPacketType::CameraInstruction,
            0x12d => BedrockPacketType::CompressedBiomeDefinitionList,
            0x12e => BedrockPacketType::TrimData,
            0x12f => BedrockPacketType::OpenSign,
            0x130 => BedrockPacketType::AgentAnimation,
            0x131 => BedrockPacketType::RefreshEntitlements,
            0x132 => BedrockPacketType::PlayerToggleCrafterSlotRequest,
            0x133 => BedrockPacketType::SetPlayerInventoryOptions,
            0x134 => BedrockPacketType::SetHud,
            0x135 => BedrockPacketType::AwardAchievement,
            0x136 => BedrockPacketType::ClientboundCloseForm,
            0x138 => BedrockPacketType::ServerboundLoadingScreen,
            0x139 => BedrockPacketType::JigsawStructureData,
            0x13a => BedrockPacketType::CurrentStructureFeature,
            0x13b => BedrockPacketType::ServerboundDiagnostics,
            _ => BedrockPacketType::Unknown,
        }
    }

    /// The identifier of the packet; 0 for `Unknown`.
    #[verifier::rlimit(50)]
    pub fn get_byte(self) -> (r: u16)
        ensures
            r == self.spec_id(),
    {
        match self {
            BedrockPacketType::Login => 0x01,
            BedrockPacketType::PlayStatus => 0x02,
            BedrockPacketType::ServerToClientHandshake => 0x03,
            BedrockPacketType::ClientToServerHandshake => 0x04,
            BedrockPacketType::Disconnect => 0x05,
            BedrockPacketType::ResourcePacksInfo => 0x06,
            BedrockPacketType::ResourcePackStack => 0x07,
            BedrockPacketType::ResourcePackClientResponse => 0x08,
            BedrockPacketType::TextPacket => 0x09,
            BedrockPacketType::SetTime => 0x0a,
            BedrockPacketType::StartGame => 0x0b,
            BedrockPacketType::AddPlayer => 0x0c,
            BedrockPacketType::AddActor => 0x0d,
            BedrockPacketType::RemoveActor => 0x0e,
            BedrockPacketType::AddItemActor => 0x0f,
            BedrockPacketType::ServerPlayerPostMovePosition => 0x10,
            BedrockPacketType::TakeItemActor => 0x11,
            BedrockPacketType::MoveActorAbsolute => 0x12,
            BedrockPacketType::MovePlayer => 0x13,
            BedrockPacketType::PassengerJump => 0x14,
            BedrockPacketType::UpdateBlock => 0x15,
            BedrockPacketType::AddPainting => 0x16,
            BedrockPacketType::LevelSoundEventV1 => 0x18,
            BedrockPacketType::LevelEvent => 0x19,
            BedrockPacketType::BlockEvent => 0x1a,
            BedrockPacketType::ActorEvent => 0x1b,
            BedrockPacketType::MobEffect => 0x1c,
            BedrockPacketType::UpdateAttributes => 0x1d,
            BedrockPacketType::InventoryTransaction => 0x1e,
            BedrockPacketType::MobEquipment => 0x1f,
            BedrockPacketType::MobArmorEquipment => 0x20,
            BedrockPacketType::Interact => 0x21,
            BedrockPacketType::BlockPickRequest => 0x22,
            BedrockPacketType::ActorPickRequest => 0x23,
            BedrockPacketType::PlayerAction => 0x24,
            BedrockPacketType::HurtArmor => 0x26,
            BedrockPacketType::SetActorData => 0x27,
            BedrockPacketType::SetActorMotion => 0x28,
            BedrockPacketType::SetActorLink => 0x29,
            BedrockPacketType::SetHealth => 0x2a,
            BedrockPacketType::SetSpawnPosition => 0x2b,
            BedrockPacketType::Animate => 0x2c,
            BedrockPacketType::Respawn => 0x2d,
            BedrockPacketType::ContainerOpen => 0x2e,
            BedrockPacketType::ContainerClose => 0x2f,
            BedrockPacketType::PlayerHotbar => 0x30,
            BedrockPacketType::InventoryContent => 0x31,
            BedrockPacketType::InventorySlot => 0x32,
            BedrockPacketType::ContainerSetData => 0x33,
            BedrockPacketType::CraftingData => 0x34,
            BedrockPacketType::GUIDataPackItem => 0x36,
            BedrockPacketType::BlockActorData => 0x38,
            BedrockPacketType::PlayerInput => 0x39,
            BedrockPacketType::LevelChunk => 0x3a,
            BedrockPacketType::SetCommandsEnabled => 0x3b,
            BedrockPacketType::SetDifficulty => 0x3c,
            BedrockPacketType::ChangeDimension => 0x3d,
            BedrockPacketType::SetPlayerGameType => 0x3e,
            BedrockPacketType::PlayerList => 0x3f,
            BedrockPacketType::SimpleEvent => 0x40,
            BedrockPacketType::LegacyTelemetryEvent => 0x41,
            BedrockPacketType::SpawnExperienceOrb => 0x42,
            BedrockPacketType::ClientboundMapItemData => 0x43,
            BedrockPacketType::MapInfoRequest => 0x44,
            BedrockPacketType::RequestChunkRadius => 0x45,
            BedrockPacketType::ChunkRadiusUpdated => 0x46,
            BedrockPacketType::GameRulesChanged => 0x48,
            BedrockPacketType::Camera => 0x49,
            BedrockPacketType::BossEvent => 0x4a,
            BedrockPacketType::ShowCredits => 0x4b,
            BedrockPacketType::AvailableCommands => 0x4c,
            BedrockPacketType::CommandRequest => 0x4d,
            BedrockPacketType::CommandBlockUpdate => 0x4e,
            BedrockPacketType::CommandOutput => 0x4f,
            BedrockPacketType::UpdateTrade => 0x50,
            BedrockPacketType::UpdateEquip => 0x51,
            BedrockPacketType::ResourcePackDataInfo => 0x52,
            BedrockPacketType::ResourcePackChunkData => 0x53,
            BedrockPacketType::ResourcePackChunkRequest => 0x54,
            BedrockPacketType::Transfer => 0x55,
            BedrockPacketType::PlaySound => 0x56,
            BedrockPacketType::StopSound => 0x57,
            BedrockPacketType::SetTitle => 0x58,
            BedrockPacketType::AddBehaviorTree => 0x59,
            BedrockPacketType::StructureBlockUpdate => 0x5a,
            BedrockPacketType::ShowStoreOffer => 0x5b,
            BedrockPacketType::PurchaseReceipt => 0x5c,
            BedrockPacketType::PlayerSkin => 0x5d,
            BedrockPacketType::SubClientLogin => 0x5e,
            BedrockPacketType::AutomationClientConnect => 0x5f,
            BedrockPacketType::SetLastHurtBy => 0x60,
            BedrockPacketType::BookEdit => 0x61,
            BedrockPacketType::NPCRequest => 0x62,
            BedrockPacketType::PhotoTransfer => 0x63,
            BedrockPacketType::ModalFormRequest => 0x64,
            BedrockPacketType::ModalFormResponse => 0x65,
            BedrockPacketType::ServerSettingsRequest => 0x66,
            BedrockPacketType::ServerSettingsResponse => 0x67,
            BedrockPacketType::ShowProfile => 0x68,
            BedrockPacketType::SetDefaultGameType => 0x69,
            BedrockPacketType::RemoveObjective => 0x6a,
            BedrockPacketType::SetDisplayObjective => 0x6b,
            BedrockPacketType::SetScore => 0x6c,
            BedrockPacketType::LabTable => 0x6d,
            BedrockPacketType::UpdateBlockSynced => 0x6e,
            BedrockPacketType::MoveActorDelta => 0x6f,
            BedrockPacketType::SetScoreboardIdentity => 0x70,
            BedrockPacketType::SetLocalPlayerAsInitialized => 0x71,
            BedrockPacketType::UpdateSoftEnum => 0x72,
            BedrockPacketType::NetworkStackLatency => 0x73,
            BedrockPacketType::SpawnParticleEvent => 0x76,
            BedrockPacketType::AvailableActorIdentifiers => 0x77,
            BedrockPacketType::LevelSoundEventV2 => 0x78,
            BedrockPacketType::NetworkChunkPublisherUpdate => 0x79,
            BedrockPacketType::BiomeDefinitionList => 0x7a,
            BedrockPacketType::LevelSoundEvent => 0x7b,
            BedrockPacketType::LevelEventGeneric => 0x7c,
            BedrockPacketType::LecternUpdate => 0x7d,
            BedrockPacketType::ClientCacheStatus => 0x81,
            BedrockPacketType::OnScreenTextureAnimation => 0x82,
            BedrockPacketType::MapCreateLockedCopy => 0x83,
            BedrockPacketType::StructureTemplateDataRequest => 0x84,
            BedrockPacketType::StructureTemplateDataResponse => 0x85,
            BedrockPacketType::ClientCacheBlobStatus => 0x87,
            BedrockPacketType::ClientCacheMissResponse => 0x88,
            BedrockPacketType::EducationSettings => 0x89,
            BedrockPacketType::Emote => 0x8a,
            BedrockPacketType::MultiplayerSettings => 0x8b,
            BedrockPacketType::SettingsCommand => 0x8c,
            BedrockPacketType::AnvilDamage => 0x8d,
            BedrockPacketType::CompletedUsingItem => 0x8e,
            BedrockPacketType::NetworkSettings => 0x8f,
            BedrockPacketType::PlayerAuthInput => 0x90,
            BedrockPacketType::CreativeContent => 0x91,
            BedrockPacketType::PlayerEnchantOptions => 0x92,
            BedrockPacketType::ItemStackRequest => 0x93,
            BedrockPacketType::ItemStackResponse => 0x94,
            BedrockPacketType::PlayerArmorDamage => 0x95,
            BedrockPacketType::CodeBuilder => 0x96,
            BedrockPacketType::UpdatePlayerGameType => 0x97,
            BedrockPacketType::EmoteList => 0x98,
            BedrockPacketType::PositionTrackingDBServerBroadcast => 0x99,
            BedrockPacketType::PositionTrackingDBClientRequest => 0x9a,
            BedrockPacketType::DebugInfo => 0x9b,
            BedrockPacketType::PacketViolationWarning => 0x9c,
            BedrockPacketType::MotionPredictionHints => 0x9d,
            BedrockPacketType::AnimateEntity => 0x9e,
            BedrockPacketType::CameraShake => 0x9f,
            BedrockPacketType::PlayerFog => 0xa0,
            BedrockPacketType::CorrectPlayerMovePrediction => 0xa1,
            BedrockPacketType::ItemComponent => 0xa2,
            BedrockPacketType::ClientboundDebugRenderer => 0xa4,
            BedrockPacketType::SyncActorProperty => 0xa5,
            BedrockPacketType::AddVolumeEntity => 0xa6,
            BedrockPacketType::RemoveVolumeEntity => 0xa7,
            BedrockPacketType::SimulationType => 0xa8,
            BedrockPacketType::NpcDialogue => 0xa9,
            BedrockPacketType::EduUriResource => 0xaa,
            BedrockPacketType::CreatePhoto => 0xab,
            BedrockPacketType::UpdateSubChunkBlocks => 0xac,
            BedrockPacketType::SubChunk => 0xae,
            BedrockPacketType::SubChunkRequest => 0xaf,
            BedrockPacketType::PlayerStartItemCooldown => 0xb0,
            BedrockPacketType::ScriptMessage => 0xb1,
            BedrockPacketType::CodeBuilderSource => 0xb2,
            BedrockPacketType::TickingAreasLoadStatus => 0xb3,
            BedrockPacketType::DimensionData => 0xb4,
            BedrockPacketType::AgentActionEvent => 0xb5,
            BedrockPacketType::ChangeMobProperty => 0xb6,
            BedrockPacketType::LessonProgress => 0xb7,
            BedrockPacketType::RequestAbility => 0xb8,
            BedrockPacketType::RequestPermissions => 0xb9,
            BedrockPacketType::ToastRequest => 0xba,
            BedrockPacketType::UpdateAbilities => 0xbb,
            BedrockPacketType::UpdateAdventureSettings => 0xbc,
            BedrockPacketType::DeathInfo => 0xbd,
            BedrockPacketType::EditorNetwork => 0xbe,
            BedrockPacketType::FeatureRegistry => 0xbf,
            BedrockPacketType::ServerStats => 0xc0,
            BedrockPacketType::RequestNetworkSettings => 0xc1,
            BedrockPacketType::GameTestRequest => 0xc2,
            BedrockPacketType::GameTestResults => 0xc3,
            BedrockPacketType::UpdateClientInputLocks => 0xc4,
            BedrockPacketType::CameraPresets => 0xc6,
            BedrockPacketType::UnlockedRecipes => 0xc7,
            BedrockPacketType::CameraInstruction => 0x12c,
            BedrockPacketType::CompressedBiomeDefinitionList => 0x12d,
            BedrockPacketType::TrimData => 0x12e,
            BedrockPacketType::OpenSign => 0x12f,
            BedrockPacketType::AgentAnimation => 0x130,
            BedrockPacketType::RefreshEntitlements => 0x131,
            BedrockPacketType::PlayerToggleCrafterSlotRequest => 0x132,
            BedrockPacketType::SetPlayerInventoryOptions => 0x133,
            BedrockPacketType::SetHud => 0x134,
            BedrockPacketType::AwardAchievement => 0x135,
            BedrockPacketType::ClientboundCloseForm => 0x136,
            BedrockPacketType::ServerboundLoadingScreen => 0x138,
            BedrockPacketType::JigsawStructureData => 0x139,
            BedrockPacketType::CurrentStructureFeature => 0x13a,
            BedrockPacketType::ServerboundDiagnostics => 0x13b,
            _ => 0,
        }
    }

    /// The display name of the packet that `id` identifies.
    #[verifier::rlimit(50)]
    pub fn get_packet_name(id: u16) -> (r: &'static str)
        ensures
            r@ == Self::spec_from_id(id).spec_name(),
    {
        match id {
            0x01 => "Login",
            0x02 => "Play Status",
            0x03 => "Server To Client Handshake",
            0x04 => "Client To Server Handshake",
            0x05 => "Disconnect",
            0x06 => "Resource Packs Info",
            0x07 => "Resource Pack Stack",
            0x08 => "Resource Pack Client Response",
            0x09 => "Text Packet",
            0x0a => "Set Time",
            0x0b => "Start Game",
            0x0c => "Add Player",
            0x0d => "Add Actor",
            0x0e => "Remove Actor",
            0x0f => "Add Item Actor",
            0x10 => "Server Player Post Move Position",
            0x11 => "Take Item Actor",
            0x12 => "Move Actor Absolute",
            0x13 => "Move Player",
            0x14 => "Passenger Jump",
            0x15 => "Update Block",
            0x16 => "Add Painting",
            0x18 => "Level Sound Event V1",
            0x19 => "Level Event",
            0x1a => "Block Event",
            0x1b => "Actor Event",
            0x1c => "Mob Effect",
            0x1d => "Update Attributes",
            0x1e => "Inventory Transaction",
            0x1f => "Mob Equipment",
            0x20 => "Mob Armor Equipment",
            0x21 => "Interact",
            0x22 => "Block Pick Request",
            0x23 => "Actor Pick Request",
            0x24 => "Player Action",
            0x26 => "Hurt Armor",
            0x27 => "Set Actor Data",
            0x28 => "Set Actor Motion",
            0x29 => "Set Actor Link",
            0x2a => "Set Health",
            0x2b => "Set Spawn Position",
            0x2c => "Animate",
            0x2d => "Respawn",
            0x2e => "Container Open",
            0x2f => "Container Close",
            0x30 => "Player Hotbar",
            0x31 => "Inventory Content",
            0x32 => "Inventory Slot",
            0x33 => "Container Set Data",
            0x34 => "Crafting Data",
            0x36 => "GUI Data Pack Item",
            0x38 => "Block Actor Data",
            0x39 => "Player Input",
            0x3a => "Level Chunk",
            0x3b => "Set Commands Enabled",
            0x3c => "Set Difficulty",
            0x3d => "Change Dimension",
            0x3e => "Set Player Game Type",
            0x3f => "Player List",
            0x40 => "Simple Event",
            0x41 => "Legacy Telemetry Event",
            0x42 => "Spawn Experience Orb",
            0x43 => "Clientbound Map Item Data",
            0x44 => "Map Info Request",
            0x45 => "Request Chunk Radius",
            0x46 => "Chunk Radius Updated",
            0x48 => "Game Rules Changed",
            0x49 => "Camera",
            0x4a => "Boss Event",
            0x4b => "Show Credits",
            0x4c => "Available Commands",
            0x4d => "Command Request",
            0x4e => "Command Block Update",
            0x4f => "Command Output",
            0x50 => "Update Trade",
            0x51 => "Update Equip",
            0x52 => "Resource Pack Data Info",
            0x53 => "Resource Pack Chunk Data",
            0x54 => "Resource Pack Chunk Request",
            0x55 => "Transfer",
            0x56 => "Play Sound",
            0x57 => "Stop Sound",
            0x58 => "Set Title",
            0x59 => "Add Behavior Tree",
            0x5a => "Structure Block Update",
            0x5b => "Show Store Offer",
            0x5c => "Purchase Receipt",
            0x5d => "Player Skin",
            0x5e => "Sub Client Login",
            0x5f => "Automation Client Connect",
            0x60 => "Set Last Hurt By",
            0x61 => "Book Edit",
            0x62 => "NPC Request",
            0x63 => "Photo Transfer",
            0x64 => "Modal Form Request",
            0x65 => "Modal Form Response",
            0x66 => "Server Settings Request",
            0x67 => "Server Settings Response",
            0x68 => "Show Profile",
            0x69 => "Set Default Game Type",
            0x6a => "Remove Objective",
            0x6b => "Set Display Objective",
            0x6c => "Set Score",
            0x6d => "Lab Table",
            0x6e => "Update Block Synced",
            0x6f => "Move Actor Delta",
            0x70 => "Set Scoreboard Identity",
            0x71 => "Set Local Player As Initialized",
            0x72 => "Update Soft Enum",
            0x73 => "Network Stack Latency",
            0x76 => "Spawn Particle Event",
            0x77 => "Available Actor Identifiers",
            0x78 => "Level Sound Event V2",
            0x79 => "Network Chunk Publisher Update",
            0x7a => "Biome Definition List",
            0x7b => "Level Sound Event",
            0x7c => "Level Event Generic",
            0x7d => "Lectern Update",
            0x81 => "Client Cache Status",
            0x82 => "On Screen Texture Animation",
            0x83 => "Map Create Locked Copy",
            0x84 => "Structure Template Data Request",
            0x85 => "Structure Template Data Response",
            0x87 => "Client Cache Blob Status",
            0x88 => "Client Cache Miss Response",
            0x89 => "Education Settings",
            0x8a => "Emote",
            0x8b => "Multiplayer Settings",
            0x8c => "Settings Command",
            0x8d => "Anvil Damage",
            0x8e => "Completed Using Item",
            0x8f => "Network Settings",
            0x90 => "Player Auth Input",
            0x91 => "Creative Content",
            0x92 => "Player Enchant Options",
            0x93 => "Item Stack Request",
            0x94 => "Item Stack Response",
            0x95 => "Player Armor Damage",
            0x96 => "Code Builder",
            0x97 => "Update Player Game Type",
            0x98 => "Emote List",
            0x99 => "Position Tracking DB Server Broadcast",
            0x9a => "Position Tracking DB Client Request",
            0x9b => "Debug Info",
            0x9c => "Packet Violation Warning",
            0x9d => "Motion Prediction Hints",
            0x9e => "Animate Entity",
            0x9f => "Camera Shake",
            0xa0 => "Player Fog",
            0xa1 => "Correct Player Move Prediction",
            0xa2 => "Item Component",
            0xa4 => "Clientbound Debug Renderer",
            0xa5 => "Sync Actor Property",
            0xa6 => "Add Volume Entity",
            0xa7 => "Remove Volume Entity",
            0xa8 => "Simulation Type",
            0xa9 => "Npc Dialogue",
            0xaa => "Edu Uri Resource",
            0xab => "Create Photo",
            0xac => "Update Sub Chunk Blocks",
            0xae => "Sub Chunk",
            0xaf => "Sub Chunk Request",
            0xb0 => "Player Start Item Cooldown",
            0xb1 => "Script Message",
            0xb2 => "Code Builder Source",
            0xb3 => "Ticking Areas Load Status",
            0xb4 => "Dimension Data",
            0xb5 => "Agent Action Event",
            0xb6 => "Change Mob Property",
            0xb7 => "Lesson Progress",
            0xb8 => "Request Ability",
            0xb9 => "Request Permissions",
            0xba => "Toast Request",
            0xbb => "Update Abilities",
            0xbc => "Update Adventure Settings",
            0xbd => "Death Info",
            0xbe => "Editor Network",
            0xbf => "Feature Registry",
            0xc0 => "Server Stats",
            0xc1 => "Request Network Settings",
            0xc2 => "Game Test Request",
            0xc3 => "Game Test Results",
            0xc4 => "Update Client Input Lock",
            _ => "Unknown Packet",
        }
    }
}

/// Looking up the identifier of a listed packet gives that packet back.
#[verifier::rlimit(50)]
pub proof fn lemma_id_roundtrip(t: BedrockPacketType)
    requires
        t != BedrockPacketType::Unknown,
    ensures
        BedrockPacketType::spec_from_id(t.spec_id()) == t,
        t.spec_id() != 0,
{
}

/// An identifier that names a listed packet is that packet's identifier;
/// every other identifier, 0 among them, maps to `Unknown`.
#[verifier::rlimit(50)]
pub proof fn lemma_from_id_inverse(id: u16)
    ensures
        BedrockPacketType::spec_from_id(id) != BedrockPacketType::Unknown ==> BedrockPacketType::spec_from_id(id).spec_id() == id,
        BedrockPacketType::spec_from_id(0) == BedrockPacketType::Unknown,
        BedrockPacketType::Unknown.spec_id() == 0,
{
}


/// The identifier of every packet type is the one the Bedrock protocol
/// assigns it, as listed here.
#[verifier::rlimit(100)]
pub proof fn lemma_packet_ids_fixed()
    ensures
        BedrockPacketType::Login.spec_id() == 0x01,
        BedrockPacketType::PlayStatus.spec_id() == 0x02,
        BedrockPacketType::ServerToClientHandshake.spec_id() == 0x03,
        BedrockPacketType::ClientToServerHandshake.spec_id() == 0x04,
        BedrockPacketType::Disconnect.spec_id() == 0x05,
        BedrockPacketType::ResourcePacksInfo.spec_id() == 0x06,
        BedrockPacketType::ResourcePackStack.spec_id() == 0x07,
        BedrockPacketType::ResourcePackClientResponse.spec_id() == 0x08,
        BedrockPacketType::TextPacket.spec_id() == 0x09,
        BedrockPacketType::SetTime.spec_id() == 0x0a,
        BedrockPacketType::StartGame.spec_id() == 0x0b,
        BedrockPacketType::AddPlayer.spec_id() == 0x0c,
        BedrockPacketType::AddActor.spec_id() == 0x0d,
        BedrockPacketType::RemoveActor.spec_id() == 0x0e,
        BedrockPacketType::AddItemActor.spec_id() == 0x0f,
        BedrockPacketType::ServerPlayerPostMovePosition.spec_id() == 0x10,
        BedrockPacketType::TakeItemActor.spec_id() == 0x11,
        BedrockPacketType::MoveActorAbsolute.spec_id() == 0x12,
        BedrockPacketType::MovePlayer.spec_id() == 0x13,
        BedrockPacketType::PassengerJump.spec_id() == 0x14,
        BedrockPacketType::UpdateBlock.spec_id() == 0x15,
        BedrockPacketType::AddPainting.spec_id() == 0x16,
        BedrockPacketType::LevelSoundEventV1.spec_id() == 0x18,
        BedrockPacketType::LevelEvent.spec_id() == 0x19,
        BedrockPacketType::BlockEvent.spec_id() == 0x1a,
        BedrockPacketType::ActorEvent.spec_id() == 0x1b,
        BedrockPacketType::MobEffect.spec_id() == 0x1c,
        BedrockPacketType::UpdateAttributes.spec_id() == 0x1d,
        BedrockPacketType::InventoryTransaction.spec_id() == 0x1e,
        BedrockPacketType::MobEquipment.spec_id() == 0x1f,
        BedrockPacketType::MobArmorEquipment.spec_id() == 0x20,
        BedrockPacketType::Interact.spec_id() == 0x21,
        BedrockPacketType::BlockPickRequest.spec_id() == 0x22,
        BedrockPacketType::ActorPickRequest.spec_id() == 0x23,
        BedrockPacketType::PlayerAction.spec_id() == 0x24,
        BedrockPacketType::HurtArmor.spec_id() == 0x26,
        BedrockPacketType::SetActorData.spec_id() == 0x27,
        BedrockPacketType::SetActorMotion.spec_id() == 0x28,
        BedrockPacketType::SetActorLink.spec_id() == 0x29,
        BedrockPacketType::SetHealth.spec_id() == 0x2a,
        BedrockPacketType::SetSpawnPosition.spec_id() == 0x2b,
        BedrockPacketType::Animate.spec_id() == 0x2c,
        BedrockPacketType::Respawn.spec_id() == 0x2d,
        BedrockPacketType::ContainerOpen.spec_id() == 0x2e,
        BedrockPacketType::ContainerClose.spec_id() == 0x2f,
        BedrockPacketType::PlayerHotbar.spec_id() == 0x30,
        BedrockPacketType::InventoryContent.spec_id() == 0x31,
        BedrockPacketType::InventorySlot.spec_id() == 0x32,
        BedrockPacketType::ContainerSetData.spec_id() == 0x33,
        BedrockPacketType::CraftingData.spec_id() == 0x34,
        BedrockPacketType::GUIDataPackItem.spec_id() == 0x36,
        BedrockPacketType::BlockActorData.spec_id() == 0x38,
        BedrockPacketType::PlayerInput.spec_id() == 0x39,
        BedrockPacketType::LevelChunk.spec_id() == 0x3a,
        BedrockPacketType::SetCommandsEnabled.spec_id() == 0x3b,
        BedrockPacketType::SetDifficulty.spec_id() == 0x3c,
        BedrockPacketType::ChangeDimension.spec_id() == 0x3d,
        BedrockPacketType::SetPlayerGameType.spec_id() == 0x3e,
        BedrockPacketType::PlayerList.spec_id() == 0x3f,
        BedrockPacketType::SimpleEvent.spec_id() == 0x40,
        BedrockPacketType::LegacyTelemetryEvent.spec_id() == 0x41,
        BedrockPacketType::SpawnExperienceOrb.spec_id() == 0x42,
        BedrockPacketType::ClientboundMapItemData.spec_id() == 0x43,
        BedrockPacketType::MapInfoRequest.spec_id() == 0x44,
        BedrockPacketType::RequestChunkRadius.spec_id() == 0x45,
        BedrockPacketType::ChunkRadiusUpdated.spec_id() == 0x46,
        BedrockPacketType::GameRulesChanged.spec_id() == 0x48,
        BedrockPacketType::Camera.spec_id() == 0x49,
        BedrockPacketType::BossEvent.spec_id() == 0x4a,
        BedrockPacketType::ShowCredits.spec_id() == 0x4b,
        BedrockPacketType::AvailableCommands.spec_id() == 0x4c,
        BedrockPacketType::CommandRequest.spec_id() == 0x4d,
        BedrockPacketType::CommandBlockUpdate.spec_id() == 0x4e,
        BedrockPacketType::CommandOutput.spec_id() == 0x4f,
        BedrockPacketType::UpdateTrade.spec_id() == 0x50,
        BedrockPacketType::UpdateEquip.spec_id() == 0x51,
        BedrockPacketType::ResourcePackDataInfo.spec_id() == 0x52,
        BedrockPacketType::ResourcePackChunkData.spec_id() == 0x53,
        BedrockPacketType::ResourcePackChunkRequest.spec_id() == 0x54,
        BedrockPacketType::Transfer.spec_id() == 0x55,
        BedrockPacketType::PlaySound.spec_id() == 0x56,
        BedrockPacketType::StopSound.spec_id() == 0x57,
        BedrockPacketType::SetTitle.spec_id() == 0x58,
        BedrockPacketType::AddBehaviorTree.spec_id() == 0x59,
        BedrockPacketType::StructureBlockUpdate.spec_id() == 0x5a,
        BedrockPacketType::ShowStoreOffer.spec_id() == 0x5b,
        BedrockPacketType::PurchaseReceipt.spec_id() == 0x5c,
        BedrockPacketType::PlayerSkin.spec_id() == 0x5d,
        BedrockPacketType::SubClientLogin.spec_id() == 0x5e,
        BedrockPacketType::AutomationClientConnect.spec_id() == 0x5f,
        BedrockPacketType::SetLastHurtBy.spec_id() == 0x60,
        BedrockPacketType::BookEdit.spec_id() == 0x61,
        BedrockPacketType::NPCRequest.spec_id() == 0x62,
        BedrockPacketType::PhotoTransfer.spec_id() == 0x63,
        BedrockPacketType::ModalFormRequest.spec_id() == 0x64,
        BedrockPacketType::ModalFormResponse.spec_id() == 0x65,
        BedrockPacketType::ServerSettingsRequest.spec_id() == 0x66,
        BedrockPacketType::ServerSettingsResponse.spec_id() == 0x67,
        BedrockPacketType::ShowProfile.spec_id() == 0x68,
        BedrockPacketType::SetDefaultGameType.spec_id() == 0x69,
        BedrockPacketType::RemoveObjective.spec_id() == 0x6a,
        BedrockPacketType::SetDisplayObjective.spec_id() == 0x6b,
        BedrockPacketType::SetScore.spec_id() == 0x6c,
        BedrockPacketType::LabTable.spec_id() == 0x6d,
        BedrockPacketType::UpdateBlockSynced.spec_id() == 0x6e,
        BedrockPacketType::MoveActorDelta.spec_id() == 0x6f,
        BedrockPacketType::SetScoreboardIdentity.spec_id() == 0x70,
        BedrockPacketType::SetLocalPlayerAsInitialized.spec_id() == 0x71,
        BedrockPacketType::UpdateSoftEnum.spec_id() == 0x72,
        BedrockPacketType::NetworkStackLatency.spec_id() == 0x73,
        BedrockPacketType::SpawnParticleEvent.spec_id() == 0x76,
        BedrockPacketType::AvailableActorIdentifiers.spec_id() == 0x77,
        BedrockPacketType::LevelSoundEventV2.spec_id() == 0x78,
        BedrockPacketType::NetworkChunkPublisherUpdate.spec_id() == 0x79,
        BedrockPacketType::BiomeDefinitionList.spec_id() == 0x7a,
        BedrockPacketType::LevelSoundEvent.spec_id() == 0x7b,
        BedrockPacketType::LevelEventGeneric.spec_id() == 0x7c,
        BedrockPacketType::LecternUpdate.spec_id() == 0x7d,
        BedrockPacketType::ClientCacheStatus.spec_id() == 0x81,
        BedrockPacketType::OnScreenTextureAnimation.spec_id() == 0x82,
        BedrockPacketType::MapCreateLockedCopy.spec_id() == 0x83,
        BedrockPacketType::StructureTemplateDataRequest.spec_id() == 0x84,
        BedrockPacketType::StructureTemplateDataResponse.spec_id() == 0x85,
        BedrockPacketType::ClientCacheBlobStatus.spec_id() == 0x87,
        BedrockPacketType::ClientCacheMissResponse.spec_id() == 0x88,
        BedrockPacketType::EducationSettings.spec_id() == 0x89,
        BedrockPacketType::Emote.spec_id() == 0x8a,
        BedrockPacketType::MultiplayerSettings.spec_id() == 0x8b,
        BedrockPacketType::SettingsCommand.spec_id() == 0x8c,
        BedrockPacketType::AnvilDamage.spec_id() == 0x8d,
        BedrockPacketType::CompletedUsingItem.spec_id() == 0x8e,
        BedrockPacketType::NetworkSettings.spec_id() == 0x8f,
        BedrockPacketType::PlayerAuthInput.spec_id() == 0x90,
        BedrockPacketType::CreativeContent.spec_id() == 0x91,
        BedrockPacketType::PlayerEnchantOptions.spec_id() == 0x92,
        BedrockPacketType::ItemStackRequest.spec_id() == 0x93,
        BedrockPacketType::ItemStackResponse.spec_id() == 0x94,
        BedrockPacketType::PlayerArmorDamage.spec_id() == 0x95,
        BedrockPacketType::CodeBuilder.spec_id() == 0x96,
        BedrockPacketType::UpdatePlayerGameType.spec_id() == 0x97,
        BedrockPacketType::EmoteList.spec_id() == 0x98,
        BedrockPacketType::PositionTrackingDBServerBroadcast.spec_id() == 0x99,
        BedrockPacketType::PositionTrackingDBClientRequest.spec_id() == 0x9a,
        BedrockPacketType::DebugInfo.spec_id() == 0x9b,
        BedrockPacketType::PacketViolationWarning.spec_id() == 0x9c,
        BedrockPacketType::MotionPredictionHints.spec_id() == 0x9d,
        BedrockPacketType::AnimateEntity.spec_id() == 0x9e,
        BedrockPacketType::CameraShake.spec_id() == 0x9f,
        BedrockPacketType::PlayerFog.spec_id() == 0xa0,
        BedrockPacketType::CorrectPlayerMovePrediction.spec_id() == 0xa1,
        BedrockPacketType::ItemComponent.spec_id() == 0xa2,
        BedrockPacketType::ClientboundDebugRenderer.spec_id() == 0xa4,
        BedrockPacketType::SyncActorProperty.spec_id() == 0xa5,
        BedrockPacketType::AddVolumeEntity.spec_id() == 0xa6,
        BedrockPacketType::RemoveVolumeEntity.spec_id() == 0xa7,
        BedrockPacketType::SimulationType.spec_id() == 0xa8,
        BedrockPacketType::NpcDialogue.spec_id() == 0xa9,
        BedrockPacketType::EduUriResource.spec_id() == 0xaa,
        BedrockPacketType::CreatePhoto.spec_id() == 0xab,
        BedrockPacketType::UpdateSubChunkBlocks.spec_id() == 0xac,
        BedrockPacketType::SubChunk.spec_id() == 0xae,
        BedrockPacketType::SubChunkRequest.spec_id() == 0xaf,
        BedrockPacketType::PlayerStartItemCooldown.spec_id() == 0xb0,
        BedrockPacketType::ScriptMessage.spec_id() == 0xb1,
        BedrockPacketType::CodeBuilderSource.spec_id() == 0xb2,
        BedrockPacketType::TickingAreasLoadStatus.spec_id() == 0xb3,
        BedrockPacketType::DimensionData.spec_id() == 0xb4,
        BedrockPacketType::AgentActionEvent.spec_id() == 0xb5,
        BedrockPacketType::ChangeMobProperty.spec_id() == 0xb6,
        BedrockPacketType::LessonProgress.spec_id() == 0xb7,
        BedrockPacketType::RequestAbility.spec_id() == 0xb8,
        BedrockPacketType::RequestPermissions.spec_id() == 0xb9,
        BedrockPacketType::ToastRequest.spec_id() == 0xba,
        BedrockPacketType::UpdateAbilities.spec_id() == 0xbb,
        BedrockPacketType::UpdateAdventureSettings.spec_id() == 0xbc,
        BedrockPacketType::DeathInfo.spec_id() == 0xbd,
        BedrockPacketType::EditorNetwork.spec_id() == 0xbe,
        BedrockPacketType::FeatureRegistry.spec_id() == 0xbf,
        BedrockPacketType::ServerStats.spec_id() == 0xc0,
        BedrockPacketType::RequestNetworkSettings.spec_id() == 0xc1,
        BedrockPacketType::GameTestRequest.spec_id() == 0xc2,
        BedrockPacketType::GameTestResults.spec_id() == 0xc3,
        BedrockPacketType::UpdateClientInputLocks.spec_id() == 0xc4,
        BedrockPacketType::CameraPresets.spec_id() == 0xc6,
        BedrockPacketType::UnlockedRecipes.spec_id() == 0xc7,
        BedrockPacketType::CameraInstruction.spec_id() == 0x12c,
        BedrockPacketType::CompressedBiomeDefinitionList.spec_id() == 0x12d,
        BedrockPacketType::TrimData.spec_id() == 0x12e,
        BedrockPacketType::OpenSign.spec_id() == 0x12f,
        BedrockPacketType::AgentAnimation.spec_id() == 0x130,
        BedrockPacketType::RefreshEntitlements.spec_id() == 0x131,
        BedrockPacketType::PlayerToggleCrafterSlotRequest.spec_id() == 0x132,
        BedrockPacketType::SetPlayerInventoryOptions.spec_id() == 0x133,
        BedrockPacketType::SetHud.spec_id() == 0x134,
        BedrockPacketType::AwardAchievement.spec_id() == 0x135,
        BedrockPacketType::ClientboundCloseForm.spec_id() == 0x136,
        BedrockPacketType::ServerboundLoadingScreen.spec_id() == 0x138,
        BedrockPacketType::JigsawStructureData.spec_id() == 0x139,
        BedrockPacketType::CurrentStructureFeature.spec_id() == 0x13a,
        BedrockPacketType::ServerboundDiagnostics.spec_id() == 0x13b,
{
}

/// Every identifier the Bedrock protocol assigns stands for its packet
/// type, as listed here.
#[verifier::rlimit(100)]
pub proof fn lemma_packet_types_fixed()
    ensures
        BedrockPacketType::spec_from_id(0x01) == BedrockPacketType::Login,
        BedrockPacketType::spec_from_id(0x02) == BedrockPacketType::PlayStatus,
        BedrockPacketType::spec_from_id(0x03) == BedrockPacketType::ServerToClientHandshake,
        BedrockPacketType::spec_from_id(0x04) == BedrockPacketType::ClientToServerHandshake,
        BedrockPacketType::spec_from_id(0x05) == BedrockPacketType::Disconnect,
        BedrockPacketType::spec_from_id(0x06) == BedrockPacketType::ResourcePacksInfo,
        BedrockPacketType::spec_from_id(0x07) == BedrockPacketType::ResourcePackStack,
        BedrockPacketType::spec_from_id(0x08) == BedrockPacketType::ResourcePackClientResponse,
        BedrockPacketType::spec_from_id(0x09) == BedrockPacketType::TextPacket,
        BedrockPacketType::spec_from_id(0x0a) == BedrockPacketType::SetTime,
        BedrockPacketType::spec_from_id(0x0b) == BedrockPacketType::StartGame,
        BedrockPacketType::spec_from_id(0x0c) == BedrockPacketType::AddPlayer,
        BedrockPacketType::spec_from_id(0x0d) == BedrockPacketType::AddActor,
        BedrockPacketType::spec_from_id(0x0e) == BedrockPacketType::RemoveActor,
        BedrockPacketType::spec_from_id(0x0f) == BedrockPacketType::AddItemActor,
        BedrockPacketType::spec_from_id(0x10) == BedrockPacketType::ServerPlayerPostMovePosition,
        BedrockPacketType::spec_from_id(0x11) == BedrockPacketType::TakeItemActor,
        BedrockPacketType::spec_from_id(0x12) == BedrockPacketType::MoveActorAbsolute,
        BedrockPacketType::spec_from_id(0x13) == BedrockPacketType::MovePlayer,
        BedrockPacketType::spec_from_id(0x14) == BedrockPacketType::PassengerJump,
        BedrockPacketType::spec_from_id(0x15) == BedrockPacketType::UpdateBlock,
        BedrockPacketType::spec_from_id(0x16) == BedrockPacketType::AddPainting,
        BedrockPacketType::spec_from_id(0x18) == BedrockPacketType::LevelSoundEventV1,
        BedrockPacketType::spec_from_id(0x19) == BedrockPacketType::LevelEvent,
        BedrockPacketType::spec_from_id(0x1a) == BedrockPacketType::BlockEvent,
        BedrockPacketType::spec_from_id(0x1b) == BedrockPacketType::ActorEvent,
        BedrockPacketType::spec_from_id(0x1c) == BedrockPacketType::MobEffect,
        BedrockPacketType::spec_from_id(0x1d) == BedrockPacketType::UpdateAttributes,
        BedrockPacketType::spec_from_id(0x1e) == BedrockPacketType::InventoryTransaction,
        BedrockPacketType::spec_from_id(0x1f) == BedrockPacketType::MobEquipment,
        BedrockPacketType::spec_from_id(0x20) == BedrockPacketType::MobArmorEquipment,
        BedrockPacketType::spec_from_id(0x21) == BedrockPacketType::Interact,
        BedrockPacketType::spec_from_id(0x22) == BedrockPacketType::BlockPickRequest,
        BedrockPacketType::spec_from_id(0x23) == BedrockPacketType::ActorPickRequest,
        BedrockPacketType::spec_from_id(0x24) == BedrockPacketType::PlayerAction,
        BedrockPacketType::spec_from_id(0x26) == BedrockPacketType::HurtArmor,
        BedrockPacketType::spec_from_id(0x27) == BedrockPacketType::SetActorData,
        BedrockPacketType::spec_from_id(0x28) == BedrockPacketType::SetActorMotion,
        BedrockPacketType::spec_from_id(0x29) == BedrockPacketType::SetActorLink,
        BedrockPacketType::spec_from_id(0x2a) == BedrockPacketType::SetHealth,
        BedrockPacketType::spec_from_id(0x2b) == BedrockPacketType::SetSpawnPosition,
        BedrockPacketType::spec_from_id(0x2c) == BedrockPacketType::Animate,
        BedrockPacketType::spec_from_id(0x2d) == BedrockPacketType::Respawn,
        BedrockPacketType::spec_from_id(0x2e) == BedrockPacketType::ContainerOpen,
        BedrockPacketType::spec_from_id(0x2f) == BedrockPacketType::ContainerClose,
        BedrockPacketType::spec_from_id(0x30) == BedrockPacketType::PlayerHotbar,
        BedrockPacketType::spec_from_id(0x31) == BedrockPacketType::InventoryContent,
        BedrockPacketType::spec_from_id(0x32) == BedrockPacketType::InventorySlot,
        BedrockPacketType::spec_from_id(0x33) == BedrockPacketType::ContainerSetData,
        BedrockPacketType::spec_from_id(0x34) == BedrockPacketType::CraftingData,
        BedrockPacketType::spec_from_id(0x36) == BedrockPacketType::GUIDataPackItem,
        BedrockPacketType::spec_from_id(0x38) == BedrockPacketType::BlockActorData,
        BedrockPacketType::spec_from_id(0x39) == BedrockPacketType::PlayerInput,
        BedrockPacketType::spec_from_id(0x3a) == BedrockPacketType::LevelChunk,
        BedrockPacketType::spec_from_id(0x3b) == BedrockPacketType::SetCommandsEnabled,
        BedrockPacketType::spec_from_id(0x3c) == BedrockPacketType::SetDifficulty,
        BedrockPacketType::spec_from_id(0x3d) == BedrockPacketType::ChangeDimension,
        BedrockPacketType::spec_from_id(0x3e) == BedrockPacketType::SetPlayerGameType,
        BedrockPacketType::spec_from_id(0x3f) == BedrockPacketType::PlayerList,
        BedrockPacketType::spec_from_id(0x40) == BedrockPacketType::SimpleEvent,
        BedrockPacketType::spec_from_id(0x41) == BedrockPacketType::LegacyTelemetryEvent,
        BedrockPacketType::spec_from_id(0x42) == BedrockPacketType::SpawnExperienceOrb,
        BedrockPacketType::spec_from_id(0x43) == BedrockPacketType::ClientboundMapItemData,
        BedrockPacketType::spec_from_id(0x44) == BedrockPacketType::MapInfoRequest,
        BedrockPacketType::spec_from_id(0x45) == BedrockPacketType::RequestChunkRadius,
        BedrockPacketType::spec_from_id(0x46) == BedrockPacketType::ChunkRadiusUpdated,
        BedrockPacketType::spec_from_id(0x48) == BedrockPacketType::GameRulesChanged,
        BedrockPacketType::spec_from_id(0x49) == BedrockPacketType::Camera,
        BedrockPacketType::spec_from_id(0x4a) == BedrockPacketType::BossEvent,
        BedrockPacketType::spec_from_id(0x4b) == BedrockPacketType::ShowCredits,
        BedrockPacketType::spec_from_id(0x4c) == BedrockPacketType::AvailableCommands,
        BedrockPacketType::spec_from_id(0x4d) == BedrockPacketType::CommandRequest,
        BedrockPacketType::spec_from_id(0x4e) == BedrockPacketType::CommandBlockUpdate,
        BedrockPacketType::spec_from_id(0x4f) == BedrockPacketType::CommandOutput,
        BedrockPacketType::spec_from_id(0x50) == BedrockPacketType::UpdateTrade,
        BedrockPacketType::spec_from_id(0x51) == BedrockPacketType::UpdateEquip,
        BedrockPacketType::spec_from_id(0x52) == BedrockPacketType::ResourcePackDataInfo,
        BedrockPacketType::spec_from_id(0x53) == BedrockPacketType::ResourcePackChunkData,
        BedrockPacketType::spec_from_id(0x54) == BedrockPacketType::ResourcePackChunkRequest,
        BedrockPacketType::spec_from_id(0x55) == BedrockPacketType::Transfer,
        BedrockPacketType::spec_from_id(0x56) == BedrockPacketType::PlaySound,
        BedrockPacketType::spec_from_id(0x57) == BedrockPacketType::StopSound,
        BedrockPacketType::spec_from_id(0x58) == BedrockPacketType::SetTitle,
        BedrockPacketType::spec_from_id(0x59) == BedrockPacketType::AddBehaviorTree,
        BedrockPacketType::spec_from_id(0x5a) == BedrockPacketType::StructureBlockUpdate,
        BedrockPacketType::spec_from_id(0x5b) == BedrockPacketType::ShowStoreOffer,
        BedrockPacketType::spec_from_id(0x5c) == BedrockPacketType::PurchaseReceipt,
        BedrockPacketType::spec_from_id(0x5d) == BedrockPacketType::PlayerSkin,
        BedrockPacketType::spec_from_id(0x5e) == BedrockPacketType::SubClientLogin,
        BedrockPacketType::spec_from_id(0x5f) == BedrockPacketType::AutomationClientConnect,
        BedrockPacketType::spec_from_id(0x60) == BedrockPacketType::SetLastHurtBy,
        BedrockPacketType::spec_from_id(0x61) == BedrockPacketType::BookEdit,
        BedrockPacketType::spec_from_id(0x62) == BedrockPacketType::NPCRequest,
        BedrockPacketType::spec_from_id(0x63) == BedrockPacketType::PhotoTransfer,
        BedrockPacketType::spec_from_id(0x64) == BedrockPacketType::ModalFormRequest,
        BedrockPacketType::spec_from_id(0x65) == BedrockPacketType::ModalFormResponse,
        BedrockPacketType::spec_from_id(0x66) == BedrockPacketType::ServerSettingsRequest,
        BedrockPacketType::spec_from_id(0x67) == BedrockPacketType::ServerSettingsResponse,
        BedrockPacketType::spec_from_id(0x68) == BedrockPacketType::ShowProfile,
        BedrockPacketType::spec_from_id(0x69) == BedrockPacketType::SetDefaultGameType,
        BedrockPacketType::spec_from_id(0x6a) == BedrockPacketType::RemoveObjective,
        BedrockPacketType::spec_from_id(0x6b) == BedrockPacketType::SetDisplayObjective,
        BedrockPacketType::spec_from_id(0x6c) == BedrockPacketType::SetScore,
        BedrockPacketType::spec_from_id(0x6d) == BedrockPacketType::LabTable,
        BedrockPacketType::spec_from_id(0x6e) == BedrockPacketType::UpdateBlockSynced,
        BedrockPacketType::spec_from_id(0x6f) == BedrockPacketType::MoveActorDelta,
        BedrockPacketType::spec_from_id(0x70) == BedrockPacketType::SetScoreboardIdentity,
        BedrockPacketType::spec_from_id(0x71) == BedrockPacketType::SetLocalPlayerAsInitialized,
        BedrockPacketType::spec_from_id(0x72) == BedrockPacketType::UpdateSoftEnum,
        BedrockPacketType::spec_from_id(0x73) == BedrockPacketType::NetworkStackLatency,
        BedrockPacketType::spec_from_id(0x76) == BedrockPacketType::SpawnParticleEvent,
        BedrockPacketType::spec_from_id(0x77) == BedrockPacketType::AvailableActorIdentifiers,
        BedrockPacketType::spec_from_id(0x78) == BedrockPacketType::LevelSoundEventV2,
        BedrockPacketType::spec_from_id(0x79) == BedrockPacketType::NetworkChunkPublisherUpdate,
        BedrockPacketType::spec_from_id(0x7a) == BedrockPacketType::BiomeDefinitionList,
        BedrockPacketType::spec_from_id(0x7b) == BedrockPacketType::LevelSoundEvent,
        BedrockPacketType::spec_from_id(0x7c) == BedrockPacketType::LevelEventGeneric,
        BedrockPacketType::spec_from_id(0x7d) == BedrockPacketType::LecternUpdate,
        BedrockPacketType::spec_from_id(0x81) == BedrockPacketType::ClientCacheStatus,
        BedrockPacketType::spec_from_id(0x82) == BedrockPacketType::OnScreenTextureAnimation,
        BedrockPacketType::spec_from_id(0x83) == BedrockPacketType::MapCreateLockedCopy,
        BedrockPacketType::spec_from_id(0x84) == BedrockPacketType::StructureTemplateDataRequest,
        BedrockPacketType::spec_from_id(0x85) == BedrockPacketType::StructureTemplateDataResponse,
        BedrockPacketType::spec_from_id(0x87) == BedrockPacketType::ClientCacheBlobStatus,
        BedrockPacketType::spec_from_id(0x88) == BedrockPacketType::ClientCacheMissResponse,
        BedrockPacketType::spec_from_id(0x89) == BedrockPacketType::EducationSettings,
        BedrockPacketType::spec_from_id(0x8a) == BedrockPacketType::Emote,
        BedrockPacketType::spec_from_id(0x8b) == BedrockPacketType::MultiplayerSettings,
        BedrockPacketType::spec_from_id(0x8c) == BedrockPacketType::SettingsCommand,
        BedrockPacketType::spec_from_id(0x8d) == BedrockPacketType::AnvilDamage,
        BedrockPacketType::spec_from_id(0x8e) == BedrockPacketType::CompletedUsingItem,
        BedrockPacketType::spec_from_id(0x8f) == BedrockPacketType::NetworkSettings,
        BedrockPacketType::spec_from_id(0x90) == BedrockPacketType::PlayerAuthInput,
        BedrockPacketType::spec_from_id(0x91) == BedrockPacketType::CreativeContent,
        BedrockPacketType::spec_from_id(0x92) == BedrockPacketType::PlayerEnchantOptions,
        BedrockPacketType::spec_from_id(0x93) == BedrockPacketType::ItemStackRequest,
        BedrockPacketType::spec_from_id(0x94) == BedrockPacketType::ItemStackResponse,
        BedrockPacketType::spec_from_id(0x95) == BedrockPacketType::PlayerArmorDamage,
        BedrockPacketType::spec_from_id(0x96) == BedrockPacketType::CodeBuilder,
        BedrockPacketType::spec_from_id(0x97) == BedrockPacketType::UpdatePlayerGameType,
        BedrockPacketType::spec_from_id(0x98) == BedrockPacketType::EmoteList,
        BedrockPacketType::spec_from_id(0x99) == BedrockPacketType::PositionTrackingDBServerBroadcast,
        BedrockPacketType::spec_from_id(0x9a) == BedrockPacketType::PositionTrackingDBClientRequest,
        BedrockPacketType::spec_from_id(0x9b) == BedrockPacketType::DebugInfo,
        BedrockPacketType::spec_from_id(0x9c) == BedrockPacketType::PacketViolationWarning,
        BedrockPacketType::spec_from_id(0x9d) == BedrockPacketType::MotionPredictionHints,
        BedrockPacketType::spec_from_id(0x9e) == BedrockPacketType::AnimateEntity,
        BedrockPacketType::spec_from_id(0x9f) == BedrockPacketType::CameraShake,
        BedrockPacketType::spec_from_id(0xa0) == BedrockPacketType::PlayerFog,
        BedrockPacketType::spec_from_id(0xa1) == BedrockPacketType::CorrectPlayerMovePrediction,
        BedrockPacketType::spec_from_id(0xa2) == BedrockPacketType::ItemComponent,
        BedrockPacketType::spec_from_id(0xa4) == BedrockPacketType::ClientboundDebugRenderer,
        BedrockPacketType::spec_from_id(0xa5) == BedrockPacketType::SyncActorProperty,
        BedrockPacketType::spec_from_id(0xa6) == BedrockPacketType::AddVolumeEntity,
        BedrockPacketType::spec_from_id(0xa7) == BedrockPacketType::RemoveVolumeEntity,
        BedrockPacketType::spec_from_id(0xa8) == BedrockPacketType::SimulationType,
        BedrockPacketType::spec_from_id(0xa9) == BedrockPacketType::NpcDialogue,
        BedrockPacketType::spec_from_id(0xaa) == BedrockPacketType::EduUriResource,
        BedrockPacketType::spec_from_id(0xab) == BedrockPacketType::CreatePhoto,
        BedrockPacketType::spec_from_id(0xac) == BedrockPacketType::UpdateSubChunkBlocks,
        BedrockPacketType::spec_from_id(0xae) == BedrockPacketType::SubChunk,
        BedrockPacketType::spec_from_id(0xaf) == BedrockPacketType::SubChunkRequest,
        BedrockPacketType::spec_from_id(0xb0) == BedrockPacketType::PlayerStartItemCooldown,
        BedrockPacketType::spec_from_id(0xb1) == BedrockPacketType::ScriptMessage,
        BedrockPacketType::spec_from_id(0xb2) == BedrockPacketType::CodeBuilderSource,
        BedrockPacketType::spec_from_id(0xb3) == BedrockPacketType::TickingAreasLoadStatus,
        BedrockPacketType::spec_from_id(0xb4) == BedrockPacketType::DimensionData,
        BedrockPacketType::spec_from_id(0xb5) == BedrockPacketType::AgentActionEvent,
        BedrockPacketType::spec_from_id(0xb6) == BedrockPacketType::ChangeMobProperty,
        BedrockPacketType::spec_from_id(0xb7) == BedrockPacketType::LessonProgress,
        BedrockPacketType::spec_from_id(0xb8) == BedrockPacketType::RequestAbility,
        BedrockPacketType::spec_from_id(0xb9) == BedrockPacketType::RequestPermissions,
        BedrockPacketType::spec_from_id(0xba) == BedrockPacketType::ToastRequest,
        BedrockPacketType::spec_from_id(0xbb) == BedrockPacketType::UpdateAbilities,
        BedrockPacketType::spec_from_id(0xbc) == BedrockPacketType::UpdateAdventureSettings,
        BedrockPacketType::spec_from_id(0xbd) == BedrockPacketType::DeathInfo,
        BedrockPacketType::spec_from_id(0xbe) == BedrockPacketType::EditorNetwork,
        BedrockPacketType::spec_from_id(0xbf) == BedrockPacketType::FeatureRegistry,
        BedrockPacketType::spec_from_id(0xc0) == BedrockPacketType::ServerStats,
        BedrockPacketType::spec_from_id(0xc1) == BedrockPacketType::RequestNetworkSettings,
        BedrockPacketType::spec_from_id(0xc2) == BedrockPacketType::GameTestRequest,
        BedrockPacketType::spec_from_id(0xc3) == BedrockPacketType::GameTestResults,
        BedrockPacketType::spec_from_id(0xc4) == BedrockPacketType::UpdateClientInputLocks,
        BedrockPacketType::spec_from_id(0xc6) == BedrockPacketType::CameraPresets,
        BedrockPacketType::spec_from_id(0xc7) == BedrockPacketType::UnlockedRecipes,
        BedrockPacketType::spec_from_id(0x12c) == BedrockPacketType::CameraInstruction,
        BedrockPacketType::spec_from_id(0x12d) == BedrockPacketType::CompressedBiomeDefinitionList,
        BedrockPacketType::spec_from_id(0x12e) == BedrockPacketType::TrimData,
        BedrockPacketType::spec_from_id(0x12f) == BedrockPacketType::OpenSign,
        BedrockPacketType::spec_from_id(0x130) == BedrockPacketType::AgentAnimation,
        BedrockPacketType::spec_from_id(0x131) == BedrockPacketType::RefreshEntitlements,
        BedrockPacketType::spec_from_id(0x132) == BedrockPacketType::PlayerToggleCrafterSlotRequest,
        BedrockPacketType::spec_from_id(0x133) == BedrockPacketType::SetPlayerInventoryOptions,
        BedrockPacketType::spec_from_id(0x134) == BedrockPacketType::SetHud,
        BedrockPacketType::spec_from_id(0x135) == BedrockPacketType::AwardAchievement,
        BedrockPacketType::spec_from_id(0x136) == BedrockPacketType::ClientboundCloseForm,
        BedrockPacketType::spec_from_id(0x138) == BedrockPacketType::ServerboundLoadingScreen,
        BedrockPacketType::spec_from_id(0x139) == BedrockPacketType::JigsawStructureData,
        BedrockPacketType::spec_from_id(0x13a) == BedrockPacketType::CurrentStructureFeature,
        BedrockPacketType::spec_from_id(0x13b) == BedrockPacketType::ServerboundDiagnostics,
{
}

/// The display names of the identifiers 0x01 to 0x14 that have one.
#[verifier::rlimit(100)]
pub proof fn lemma_packet_names_fixed_0()
    ensures
        BedrockPacketType::spec_from_id(0x01).spec_name() == "Login"@,
        BedrockPacketType::spec_from_id(0x02).spec_name() == "Play Status"@,
        BedrockPacketType::spec_from_id(0x03).spec_name() == "Server To Client Handshake"@,
        BedrockPacketType::spec_from_id(0x04).spec_name() == "Client To Server Handshake"@,
        BedrockPacketType::spec_from_id(0x05).spec_name() == "Disconnect"@,
        BedrockPacketType::spec_from_id(0x06).spec_name() == "Resource Packs Info"@,
        BedrockPacketType::spec_from_id(0x07).spec_name() == "Resource Pack Stack"@,
        BedrockPacketType::spec_from_id(0x08).spec_name() == "Resource Pack Client Response"@,
        BedrockPacketType::spec_from_id(0x09).spec_name() == "Text Packet"@,
        BedrockPacketType::spec_from_id(0x0a).spec_name() == "Set Time"@,
        BedrockPacketType::spec_from_id(0x0b).spec_name() == "Start Game"@,
        BedrockPacketType::spec_from_id(0x0c).spec_name() == "Add Player"@,
        BedrockPacketType::spec_from_id(0x0d).spec_name() == "Add Actor"@,
        BedrockPacketType::spec_from_id(0x0e).spec_name() == "Remove Actor"@,
        BedrockPacketType::spec_from_id(0x0f).spec_name() == "Add Item Actor"@,
        BedrockPacketType::spec_from_id(0x10).spec_name() == "Server Player Post Move Position"@,
        BedrockPacketType::spec_from_id(0x11).spec_name() == "Take Item Actor"@,
        BedrockPacketType::spec_from_id(0x12).spec_name() == "Move Actor Absolute"@,
        BedrockPacketType::spec_from_id(0x13).spec_name() == "Move Player"@,
        BedrockPacketType::spec_from_id(0x14).spec_name() == "Passenger Jump"@,
{
}

/// The display names of the identifiers 0x15 to 0x2a that have one.
#[verifier::rlimit(100)]
pub proof fn lemma_packet_names_fixed_1()
    ensures
        BedrockPacketType::spec_from_id(0x15).spec_name() == "Update Block"@,
        BedrockPacketType::spec_from_id(0x16).spec_name() == "Add Painting"@,
        BedrockPacketType::spec_from_id(0x18).spec_name() == "Level Sound Event V1"@,
        BedrockPacketType::spec_from_id(0x19).spec_name() == "Level Event"@,
        BedrockPacketType::spec_from_id(0x1a).spec_name() == "Block Event"@,
        BedrockPacketType::spec_from_id(0x1b).spec_name() == "Actor Event"@,
        BedrockPacketType::spec_from_id(0x1c).spec_name() == "Mob Effect"@,
        BedrockPacketType::spec_from_id(0x1d).spec_name() == "Update Attributes"@,
        BedrockPacketType::spec_from_id(0x1e).spec_name() == "Inventory Transaction"@,
        BedrockPacketType::spec_from_id(0x1f).spec_name() == "Mob Equipment"@,
        BedrockPacketType::spec_from_id(0x20).spec_name() == "Mob Armor Equipment"@,
        BedrockPacketType::spec_from_id(0x21).spec_name() == "Interact"@,
        BedrockPacketType::spec_from_id(0x22).spec_name() == "Block Pick Request"@,
        BedrockPacketType::spec_from_id(0x23).spec_name() == "Actor Pick Request"@,
        BedrockPacketType::spec_from_id(0x24).spec_name() == "Player Action"@,
        BedrockPacketType::spec_from_id(0x26).spec_name() == "Hurt Armor"@,
        BedrockPacketType::spec_from_id(0x27).spec_name() == "Set Actor Data"@,
        BedrockPacketType::spec_from_id(0x28).spec_name() == "Set Actor Motion"@,
        BedrockPacketType::spec_from_id(0x29).spec_name() == "Set Actor Link"@,
        BedrockPacketType::spec_from_id(0x2a).spec_name() == "Set Health"@,
{
}

/// The display names of the identifiers 0x2b to 0x40 that have one.
#[verifier::rlimit(100)]
pub proof fn lemma_packet_names_fixed_2()
    ensures
        BedrockPacketType::spec_from_id(0x2b).spec_name() == "Set Spawn Position"@,
        BedrockPacketType::spec_from_id(0x2c).spec_name() == "Animate"@,
        BedrockPacketType::spec_from_id(0x2d).spec_name() == "Respawn"@,
        BedrockPacketType::spec_from_id(0x2e).spec_name() == "Container Open"@,
        BedrockPacketType::spec_from_id(0x2f).spec_name() == "Container Close"@,
        BedrockPacketType::spec_from_id(0x30).spec_name() == "Player Hotbar"@,
        BedrockPacketType::spec_from_id(0x31).spec_name() == "Inventory Content"@,
        BedrockPacketType::spec_from_id(0x32).spec_name() == "Inventory Slot"@,
        BedrockPacketType::spec_from_id(0x33).spec_name() == "Container Set Data"@,
        BedrockPacketType::spec_from_id(0x34).spec_name() == "Crafting Data"@,
        BedrockPacketType::spec_from_id(0x36).spec_name() == "GUI Data Pack Item"@,
        BedrockPacketType::spec_from_id(0x38).spec_name() == "Block Actor Data"@,
        BedrockPacketType::spec_from_id(0x39).spec_name() == "Player Input"@,
        BedrockPacketType::spec_from_id(0x3a).spec_name() == "Level Chunk"@,
        BedrockPacketType::spec_from_id(0x3b).spec_name() == "Set Commands Enabled"@,
        BedrockPacketType::spec_from_id(0x3c).spec_name() == "Set Difficulty"@,
        BedrockPacketType::spec_from_id(0x3d).spec_name() == "Change Dimension"@,
        BedrockPacketType::spec_from_id(0x3e).spec_name() == "Set Player Game Type"@,
        BedrockPacketType::spec_from_id(0x3f).spec_name() == "Player List"@,
        BedrockPacketType::spec_from_id(0x40).spec_name() == "Simple Event"@,
{
}

/// The display names of the identifiers 0x41 to 0x55 that have one.
#[verifier::rlimit(100)]
pub proof fn lemma_packet_names_fixed_3()
    ensures
        BedrockPacketType::spec_from_id(0x41).spec_name() == "Legacy Telemetry Event"@,
        BedrockPacketType::spec_from_id(0x42).spec_name() == "Spawn Experience Orb"@,
        BedrockPacketType::spec_from_id(0x43).spec_name() == "Clientbound Map Item Data"@,
        BedrockPacketType::spec_from_id(0x44).spec_name() == "Map Info Request"@,
        BedrockPacketType::spec_from_id(0x45).spec_name() == "Request Chunk Radius"@,
        BedrockPacketType::spec_from_id(0x46).spec_name() == "Chunk Radius Updated"@,
        BedrockPacketType::spec_from_id(0x48).spec_name() == "Game Rules Changed"@,
        BedrockPacketType::spec_from_id(0x49).spec_name() == "Camera"@,
        BedrockPacketType::spec_from_id(0x4a).spec_name() == "Boss Event"@,
        BedrockPacketType::spec_from_id(0x4b).spec_name() == "Show Credits"@,
        BedrockPacketType::spec_from_id(0x4c).spec_name() == "Available Commands"@,
        BedrockPacketType::spec_from_id(0x4d).spec_name() == "Command Request"@,
        BedrockPacketType::spec_from_id(0x4e).spec_name() == "Command Block Update"@,
        BedrockPacketType::spec_from_id(0x4f).spec_name() == "Command Output"@,
        BedrockPacketType::spec_from_id(0x50).spec_name() == "Update Trade"@,
        BedrockPacketType::spec_from_id(0x51).spec_name() == "Update Equip"@,
        BedrockPacketType::spec_from_id(0x52).spec_name() == "Resource Pack Data Info"@,
        BedrockPacketType::spec_from_id(0x53).spec_name() == "Resource Pack Chunk Data"@,
        BedrockPacketType::spec_from_id(0x54).spec_name() == "Resource Pack Chunk Request"@,
        BedrockPacketType::spec_from_id(0x55).spec_name() == "Transfer"@,
{
}

/// The display names of the identifiers 0x56 to 0x69 that have one.
#[verifier::rlimit(100)]
pub proof fn lemma_packet_names_fixed_4()
    ensures
        BedrockPacketType::spec_from_id(0x56).spec_name() == "Play Sound"@,
        BedrockPacketType::spec_from_id(0x57).spec_name() == "Stop Sound"@,
        BedrockPacketType::spec_from_id(0x58).spec_name() == "Set Title"@,
        BedrockPacketType::spec_from_id(0x59).spec_name() == "Add Behavior Tree"@,
        BedrockPacketType::spec_from_id(0x5a).spec_name() == "Structure Block Update"@,
        BedrockPacketType::spec_from_id(0x5b).spec_name() == "Show Store Offer"@,
        BedrockPacketType::spec_from_id(0x5c).spec_name() == "Purchase Receipt"@,
        BedrockPacketType::spec_from_id(0x5d).spec_name() == "Player Skin"@,
        BedrockPacketType::spec_from_id(0x5e).spec_name() == "Sub Client Login"@,
        BedrockPacketType::spec_from_id(0x5f).spec_name() == "Automation Client Connect"@,
        BedrockPacketType::spec_from_id(0x60).spec_name() == "Set Last Hurt By"@,
        BedrockPacketType::spec_from_id(0x61).spec_name() == "Book Edit"@,
        BedrockPacketType::spec_from_id(0x62).spec_name() == "NPC Request"@,
        BedrockPacketType::spec_from_id(0x63).spec_name() == "Photo Transfer"@,
        BedrockPacketType::spec_from_id(0x64).spec_name() == "Modal Form Request"@,
        BedrockPacketType::spec_from_id(0x65).spec_name() == "Modal Form Response"@,
        BedrockPacketType::spec_from_id(0x66).spec_name() == "Server Settings Request"@,
        BedrockPacketType::spec_from_id(0x67).spec_name() == "Server Settings Response"@,
        BedrockPacketType::spec_from_id(0x68).spec_name() == "Show Profile"@,
        BedrockPacketType::spec_from_id(0x69).spec_name() == "Set Default Game Type"@,
{
}

/// The display names of the identifiers 0x6a to 0x82 that have one.
#[verifier::rlimit(100)]
pub proof fn lemma_packet_names_fixed_5()
    ensures
        BedrockPacketType::spec_from_id(0x6a).spec_name() == "Remove Objective"@,
        BedrockPacketType::spec_from_id(0x6b).spec_name() == "Set Display Objective"@,
        BedrockPacketType::spec_from_id(0x6c).spec_name() == "Set Score"@,
        BedrockPacketType::spec_from_id(0x6d).spec_name() == "Lab Table"@,
        BedrockPacketType::spec_from_id(0x6e).spec_name() == "Update Block Synced"@,
        BedrockPacketType::spec_from_id(0x6f).spec_name() == "Move Actor Delta"@,
        BedrockPacketType::spec_from_id(0x70).spec_name() == "Set Scoreboard Identity"@,
        BedrockPacketType::spec_from_id(0x71).spec_name() == "Set Local Player As Initialized"@,
        BedrockPacketType::spec_from_id(0x72).spec_name() == "Update Soft Enum"@,
        BedrockPacketType::spec_from_id(0x73).spec_name() == "Network Stack Latency"@,
        BedrockPacketType::spec_from_id(0x76).spec_name() == "Spawn Particle Event"@,
        BedrockPacketType::spec_from_id(0x77).spec_name() == "Available Actor Identifiers"@,
        BedrockPacketType::spec_from_id(0x78).spec_name() == "Level Sound Event V2"@,
        BedrockPacketType::spec_from_id(0x79).spec_name() == "Network Chunk Publisher Update"@,
        BedrockPacketType::spec_from_id(0x7a).spec_name() == "Biome Definition List"@,
        BedrockPacketType::spec_from_id(0x7b).spec_name() == "Level Sound Event"@,
        BedrockPacketType::spec_from_id(0x7c).spec_name() == "Level Event Generic"@,
        BedrockPacketType::spec_from_id(0x7d).spec_name() == "Lectern Update"@,
        BedrockPacketType::spec_from_id(0x81).spec_name() == "Client Cache Status"@,
        BedrockPacketType::spec_from_id(0x82).spec_name() == "On Screen Texture Animation"@,
{
}

/// The display names of the identifiers 0x83 to 0x97 that have one.
#[verifier::rlimit(100)]
pub proof fn lemma_packet_names_fixed_6()
    ensures
        BedrockPacketType::spec_from_id(0x83).spec_name() == "Map Create Locked Copy"@,
        BedrockPacketType::spec_from_id(0x84).spec_name() == "Structure Template Data Request"@,
        BedrockPacketType::spec_from_id(0x85).spec_name() == "Structure Template Data Response"@,
        BedrockPacketType::spec_from_id(0x87).spec_name() == "Client Cache Blob Status"@,
        BedrockPacketType::spec_from_id(0x88).spec_name() == "Client Cache Miss Response"@,
        BedrockPacketType::spec_from_id(0x89).spec_name() == "Education Settings"@,
        BedrockPacketType::spec_from_id(0x8a).spec_name() == "Emote"@,
        BedrockPacketType::spec_from_id(0x8b).spec_name() == "Multiplayer Settings"@,
        BedrockPacketType::spec_from_id(0x8c).spec_name() == "Settings Command"@,
        BedrockPacketType::spec_from_id(0x8d).spec_name() == "Anvil Damage"@,
        BedrockPacketType::spec_from_id(0x8e).spec_name() == "Completed Using Item"@,
        BedrockPacketType::spec_from_id(0x8f).spec_name() == "Network Settings"@,
        BedrockPacketType::spec_from_id(0x90).spec_name() == "Player Auth Input"@,
        BedrockPacketType::spec_from_id(0x91).spec_name() == "Creative Content"@,
        BedrockPacketType::spec_from_id(0x92).spec_name() == "Player Enchant Options"@,
        BedrockPacketType::spec_from_id(0x93).spec_name() == "Item Stack Request"@,
        BedrockPacketType::spec_from_id(0x94).spec_name() == "Item Stack Response"@,
        BedrockPacketType::spec_from_id(0x95).spec_name() == "Player Armor Damage"@,
        BedrockPacketType::spec_from_id(0x96).spec_name() == "Code Builder"@,
        BedrockPacketType::spec_from_id(0x97).spec_name() == "Update Player Game Type"@,
{
}

/// The display names of the identifiers 0x98 to 0xac that have one.
#[verifier::rlimit(100)]
pub proof fn lemma_packet_names_fixed_7()
    ensures
        BedrockPacketType::spec_from_id(0x98).spec_name() == "Emote List"@,
        BedrockPacketType::spec_from_id(0x99).spec_name() == "Position Tracking DB Server Broadcast"@,
        BedrockPacketType::spec_from_id(0x9a).spec_name() == "Position Tracking DB Client Request"@,
        BedrockPacketType::spec_from_id(0x9b).spec_name() == "Debug Info"@,
        BedrockPacketType::spec_from_id(0x9c).spec_name() == "Packet Violation Warning"@,
        BedrockPacketType::spec_from_id(0x9d).spec_name() == "Motion Prediction Hints"@,
        BedrockPacketType::spec_from_id(0x9e).spec_name() == "Animate Entity"@,
        BedrockPacketType::spec_from_id(0x9f).spec_name() == "Camera Shake"@,
        BedrockPacketType::spec_from_id(0xa0).spec_name() == "Player Fog"@,
        BedrockPacketType::spec_from_id(0xa1).spec_name() == "Correct Player Move Prediction"@,
        BedrockPacketType::spec_from_id(0xa2).spec_name() == "Item Component"@,
        BedrockPacketType::spec_from_id(0xa4).spec_name() == "Clientbound Debug Renderer"@,
        BedrockPacketType::spec_from_id(0xa5).spec_name() == "Sync Actor Property"@,
        BedrockPacketType::spec_from_id(0xa6).spec_name() == "Add Volume Entity"@,
        BedrockPacketType::spec_from_id(0xa7).spec_name() == "Remove Volume Entity"@,
        BedrockPacketType::spec_from_id(0xa8).spec_name() == "Simulation Type"@,
        BedrockPacketType::spec_from_id(0xa9).spec_name() == "Npc Dialogue"@,
        BedrockPacketType::spec_from_id(0xaa).spec_name() == "Edu Uri Resource"@,
        BedrockPacketType::spec_from_id(0xab).spec_name() == "Create Photo"@,
        BedrockPacketType::spec_from_id(0xac).spec_name() == "Update Sub Chunk Blocks"@,
{
}

/// The display names of the identifiers 0xae to 0xc1 that have one.
#[verifier::rlimit(100)]
pub proof fn lemma_packet_names_fixed_8()
    ensures
        BedrockPacketType::spec_from_id(0xae).spec_name() == "Sub Chunk"@,
        BedrockPacketType::spec_from_id(0xaf).spec_name() == "Sub Chunk Request"@,
        BedrockPacketType::spec_from_id(0xb0).spec_name() == "Player Start Item Cooldown"@,
        BedrockPacketType::spec_from_id(0xb1).spec_name() == "Script Message"@,
        BedrockPacketType::spec_from_id(0xb2).spec_name() == "Code Builder Source"@,
        BedrockPacketType::spec_from_id(0xb3).spec_name() == "Ticking Areas Load Status"@,
        BedrockPacketType::spec_from_id(0xb4).spec_name() == "Dimension Data"@,
        BedrockPacketType::spec_from_id(0xb5).spec_name() == "Agent Action Event"@,
        BedrockPacketType::spec_from_id(0xb6).spec_name() == "Change Mob Property"@,
        BedrockPacketType::spec_from_id(0xb7).spec_name() == "Lesson Progress"@,
        BedrockPacketType::spec_from_id(0xb8).spec_name() == "Request Ability"@,
        BedrockPacketType::spec_from_id(0xb9).spec_name() == "Request Permissions"@,
        BedrockPacketType::spec_from_id(0xba).spec_name() == "Toast Request"@,
        BedrockPacketType::spec_from_id(0xbb).spec_name() == "Update Abilities"@,
        BedrockPacketType::spec_from_id(0xbc).spec_name() == "Update Adventure Settings"@,
        BedrockPacketType::spec_from_id(0xbd).spec_name() == "Death Info"@,
        BedrockPacketType::spec_from_id(0xbe).spec_name() == "Editor Network"@,
        BedrockPacketType::spec_from_id(0xbf).spec_name() == "Feature Registry"@,
        BedrockPacketType::spec_from_id(0xc0).spec_name() == "Server Stats"@,
        BedrockPacketType::spec_from_id(0xc1).spec_name() == "Request Network Settings"@,
{
}

/// The display names of the identifiers 0xc2 to 0xc4 that have one.
#[verifier::rlimit(100)]
pub proof fn lemma_packet_names_fixed_9()
    ensures
        BedrockPacketType::spec_from_id(0xc2).spec_name() == "Game Test Request"@,
        BedrockPacketType::spec_from_id(0xc3).spec_name() == "Game Test Results"@,
        BedrockPacketType::spec_from_id(0xc4).spec_name() == "Update Client Input Lock"@,
{
}

} // verus!
