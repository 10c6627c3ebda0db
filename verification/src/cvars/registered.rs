//! The registered settings: each name, what a fresh client runs it at, and where that stands
//! against the stock client.
use crate::text::{lower, same_text};
use vstd::prelude::*;

verus! {

/// Where a default stands against the stock client's.
#[derive(Clone, Copy, Debug)]
pub enum Reference {
    /// The stock client registers this very default.
    Same(&'static str),
    /// The stock client registers `registered`, and its own boot code replaces it before the
    /// first frame with what stands here.
    Overridden { registered: &'static str, why: &'static str },
    /// The stock client ships `value`, and this client knowingly ships something else.
    Deviates { value: &'static str, why: &'static str },
    /// The stock client has no such setting.
    Ours(&'static str),
}

/// One registered setting.
#[derive(Clone, Copy, Debug)]
pub struct Registered {
    pub name: &'static str,
    pub default: &'static str,
    pub reference: Reference,
}

/// The rows that other parts of the client name: the saved camera views and the range of the
/// death log.
#[derive(Debug)]
pub struct SiteRows {
    /// The setting of the active view and its default.
    pub active_view: (&'static str, &'static str),
    /// The settings of the saved views and their defaults.
    pub saved_views: Vec<(&'static str, &'static str)>,
    /// The setting of the death log's range.
    pub death_log_range: &'static str,
}

/// A row whose default is the stock client's own.
pub open spec fn same_row(name: &'static str, default: &'static str) -> Registered {
    Registered { name, default, reference: Reference::Same(default) }
}

/// A row that follows what the stock client's boot code lands on.
pub open spec fn overridden_row(name: &'static str, default: &'static str, registered: &'static str, why: &'static str) -> Registered {
    Registered { name, default, reference: Reference::Overridden { registered, why } }
}

/// A row that knowingly leaves the stock client's default.
pub open spec fn deviates_row(name: &'static str, default: &'static str, value: &'static str, why: &'static str) -> Registered {
    Registered { name, default, reference: Reference::Deviates { value, why } }
}

/// A row the stock client has no counterpart for.
pub open spec fn ours_row(name: &'static str, default: &'static str, why: &'static str) -> Registered {
    Registered { name, default, reference: Reference::Ours(why) }
}

/// A row whose default is the stock client's own.
pub fn same(name: &'static str, default: &'static str) -> (r: Registered)
    ensures
        r == same_row(name, default),
{
    Registered { name, default, reference: Reference::Same(default) }
}

/// A row that follows what the stock client's boot code lands on.
pub fn overridden(name: &'static str, default: &'static str, registered: &'static str, why: &'static str) -> (r: Registered)
    ensures
        r == overridden_row(name, default, registered, why),
{
    Registered { name, default, reference: Reference::Overridden { registered, why } }
}

/// A row that knowingly leaves the stock client's default.
pub fn deviates(name: &'static str, default: &'static str, value: &'static str, why: &'static str) -> (r: Registered)
    ensures
        r == deviates_row(name, default, value, why),
{
    Registered { name, default, reference: Reference::Deviates { value, why } }
}

/// A row the stock client has no counterpart for.
pub fn ours(name: &'static str, default: &'static str, why: &'static str) -> (r: Registered)
    ensures
        r == ours_row(name, default, why),
{
    Registered { name, default, reference: Reference::Ours(why) }
}

/// Rows `realmName` to `SoundBufferSize`.
pub open spec fn account_and_sound_rows() -> Seq<Registered> {
    seq![
        same_row("realmName", ""),
        deviates_row("realmList", "localhost", "us.logon.worldofwarcraft.com:3724", "that host no longer resolves, so a fresh client dials the machine it runs on"),
        same_row("autoClearAFK", "1"),
        same_row("MasterVolume", "1"),
        same_row("SoundVolume", "1"),
        same_row("MusicVolume", "0.4"),
        same_row("AmbienceVolume", "0.6"),
        same_row("MasterSoundEffects", "1"),
        same_row("EnableMusic", "1"),
        same_row("EnableAmbience", "1"),
        same_row("EnableErrorSpeech", "1"),
        same_row("Sound_EnableSoundWhenGameIsInBG", "0"),
        deviates_row("SoundReverb", "0", "1", "zone reverb needs sound hardware that is gone, so a 1 would ship audio nobody has heard"),
        same_row("SoundBufferSize", "100"),
    ]
}

fn push_account_and_sound(rows: &mut Vec<Registered>)
    ensures
        final(rows)@ == old(rows)@ + account_and_sound_rows(),
{
    rows.push(same("realmName", ""));
    rows.push(deviates("realmList", "localhost", "us.logon.worldofwarcraft.com:3724", "that host no longer resolves, so a fresh client dials the machine it runs on"));
    rows.push(same("autoClearAFK", "1"));
    rows.push(same("MasterVolume", "1"));
    rows.push(same("SoundVolume", "1"));
    rows.push(same("MusicVolume", "0.4"));
    rows.push(same("AmbienceVolume", "0.6"));
    rows.push(same("MasterSoundEffects", "1"));
    rows.push(same("EnableMusic", "1"));
    rows.push(same("EnableAmbience", "1"));
    rows.push(same("EnableErrorSpeech", "1"));
    rows.push(same("Sound_EnableSoundWhenGameIsInBG", "0"));
    rows.push(deviates("SoundReverb", "0", "1", "zone reverb needs sound hardware that is gone, so a 1 would ship audio nobody has heard"));
    rows.push(same("SoundBufferSize", "100"));
    proof {
        assert(rows@ =~= old(rows)@ + account_and_sound_rows());
    }
}

/// Rows `SoundOutputLimiter` to `autoSelfCast`.
pub open spec fn view_and_click_rows() -> Seq<Registered> {
    seq![
        ours_row("SoundOutputLimiter", "1", "the mix sums behind a hard clamp, and every effect is mastered to full scale"),
        overridden_row("uiScale", "0.9", "1.0", "with `useUiScale` off the stock client computes clamp(768/height, 0.9, 1.0), which is 0.9 from 854 pixels up"),
        same_row("useUiScale", "0"),
        same_row("farclip", "350"),
        same_row("nearclip", "0.1"),
        same_row("deselectOnClick", "1"),
        same_row("BlockTrades", "0"),
        deviates_row("autoSelfCast", "1", "0", "with it off an unbindable friendly cast needs the targeting cursor, which is not there"),
    ]
}

fn push_view_and_click(rows: &mut Vec<Registered>)
    ensures
        final(rows)@ == old(rows)@ + view_and_click_rows(),
{
    rows.push(ours("SoundOutputLimiter", "1", "the mix sums behind a hard clamp, and every effect is mastered to full scale"));
    rows.push(overridden("uiScale", "0.9", "1.0", "with `useUiScale` off the stock client computes clamp(768/height, 0.9, 1.0), which is 0.9 from 854 pixels up"));
    rows.push(same("useUiScale", "0"));
    rows.push(same("farclip", "350"));
    rows.push(same("nearclip", "0.1"));
    rows.push(same("deselectOnClick", "1"));
    rows.push(same("BlockTrades", "0"));
    rows.push(deviates("autoSelfCast", "1", "0", "with it off an unbindable friendly cast needs the targeting cursor, which is not there"));
    proof {
        assert(rows@ =~= old(rows)@ + view_and_click_rows());
    }
}

/// Rows `mouseInvertPitch` to `CombatLogRangeFriendlyPlayersPets`.
pub open spec fn names_rows() -> Seq<Registered> {
    seq![
        same_row("mouseInvertPitch", "0"),
        ours_row("autoLootDefault", "0", "the stock client offers only the shift gesture, so off is its own behaviour"),
        same_row("UnitNamePlayer", "1"),
        same_row("UnitNameNPC", "0"),
        same_row("UnitNameOwn", "0"),
        same_row("UnitNamePlayerGuild", "1"),
        same_row("nameplateShowEnemies", "0"),
        same_row("nameplateShowFriends", "0"),
        same_row("WorldDetail", "1"),
        deviates_row("frillDensity", "32", "16", "the stock value is the sparsest stop; the middle stop is the nearest that is no sparser than a fresh install"),
        same_row("CombatLogRangeParty", "50"),
        same_row("CombatLogRangePartyPet", "50"),
        same_row("CombatLogRangeFriendlyPlayers", "50"),
        same_row("CombatLogRangeFriendlyPlayersPets", "50"),
    ]
}

fn push_names(rows: &mut Vec<Registered>)
    ensures
        final(rows)@ == old(rows)@ + names_rows(),
{
    rows.push(same("mouseInvertPitch", "0"));
    rows.push(ours("autoLootDefault", "0", "the stock client offers only the shift gesture, so off is its own behaviour"));
    rows.push(same("UnitNamePlayer", "1"));
    rows.push(same("UnitNameNPC", "0"));
    rows.push(same("UnitNameOwn", "0"));
    rows.push(same("UnitNamePlayerGuild", "1"));
    rows.push(same("nameplateShowEnemies", "0"));
    rows.push(same("nameplateShowFriends", "0"));
    rows.push(same("WorldDetail", "1"));
    rows.push(deviates("frillDensity", "32", "16", "the stock value is the sparsest stop; the middle stop is the nearest that is no sparser than a fresh install"));
    rows.push(same("CombatLogRangeParty", "50"));
    rows.push(same("CombatLogRangePartyPet", "50"));
    rows.push(same("CombatLogRangeFriendlyPlayers", "50"));
    rows.push(same("CombatLogRangeFriendlyPlayersPets", "50"));
    proof {
        assert(rows@ =~= old(rows)@ + names_rows());
    }
}

/// Rows `CombatLogRangeHostilePlayers` to `cameraPitchMoveSpeed`.
pub open spec fn combat_rows(site: SiteRows) -> Seq<Registered> {
    seq![
        same_row("CombatLogRangeHostilePlayers", "50"),
        same_row("CombatLogRangeHostilePlayersPets", "50"),
        same_row("CombatLogRangeCreature", "30"),
        same_row(site.death_log_range, "60"),
        same_row("CombatDamage", "1"),
        same_row("PetMeleeDamage", "1"),
        same_row("PetSpellDamage", "1"),
        same_row("CombatLogPeriodicSpells", "1"),
        same_row("SoundListenerAtCharacter", "1"),
        same_row("EmoteSounds", "1"),
        same_row("SoundZoneMusicNoDelay", "0"),
        same_row("assistAttack", "0"),
        same_row("cameraYawMoveSpeed", "180"),
        same_row("cameraPitchMoveSpeed", "90"),
    ]
}

fn push_combat(rows: &mut Vec<Registered>, site: &SiteRows)
    ensures
        final(rows)@ == old(rows)@ + combat_rows(*site),
{
    rows.push(same("CombatLogRangeHostilePlayers", "50"));
    rows.push(same("CombatLogRangeHostilePlayersPets", "50"));
    rows.push(same("CombatLogRangeCreature", "30"));
    rows.push(same(site.death_log_range, "60"));
    rows.push(same("CombatDamage", "1"));
    rows.push(same("PetMeleeDamage", "1"));
    rows.push(same("PetSpellDamage", "1"));
    rows.push(same("CombatLogPeriodicSpells", "1"));
    rows.push(same("SoundListenerAtCharacter", "1"));
    rows.push(same("EmoteSounds", "1"));
    rows.push(same("SoundZoneMusicNoDelay", "0"));
    rows.push(same("assistAttack", "0"));
    rows.push(same("cameraYawMoveSpeed", "180"));
    rows.push(same("cameraPitchMoveSpeed", "90"));
    proof {
        assert(rows@ =~= old(rows)@ + combat_rows(*site));
    }
}

/// Rows `mousespeed` to `cameraTerrainTiltTimeMax`.
pub open spec fn camera_rows() -> Seq<Registered> {
    seq![
        same_row("mousespeed", "1"),
        same_row("cameraDistanceMaxFactor", "1"),
        same_row("cameraSmoothStyle", "1"),
        same_row("cameraSmoothTrackingStyle", "1"),
        same_row("cameraYawSmoothSpeed", "180"),
        same_row("cameraPivot", "1"),
        same_row("cameraPivotDXMax", "0.05"),
        same_row("cameraPivotDYMin", "0"),
        same_row("cameraTargetSmoothSpeed", "90"),
        same_row("cameraWaterCollision", "1"),
        same_row("cameraTerrainTilt", "0"),
        same_row("cameraGroundSmoothSpeed", "7.5"),
        same_row("cameraTerrainTiltTimeMin", "3"),
        same_row("cameraTerrainTiltTimeMax", "10"),
    ]
}

fn push_camera(rows: &mut Vec<Registered>)
    ensures
        final(rows)@ == old(rows)@ + camera_rows(),
{
    rows.push(same("mousespeed", "1"));
    rows.push(same("cameraDistanceMaxFactor", "1"));
    rows.push(same("cameraSmoothStyle", "1"));
    rows.push(same("cameraSmoothTrackingStyle", "1"));
    rows.push(same("cameraYawSmoothSpeed", "180"));
    rows.push(same("cameraPivot", "1"));
    rows.push(same("cameraPivotDXMax", "0.05"));
    rows.push(same("cameraPivotDYMin", "0"));
    rows.push(same("cameraTargetSmoothSpeed", "90"));
    rows.push(same("cameraWaterCollision", "1"));
    rows.push(same("cameraTerrainTilt", "0"));
    rows.push(same("cameraGroundSmoothSpeed", "7.5"));
    rows.push(same("cameraTerrainTiltTimeMin", "3"));
    rows.push(same("cameraTerrainTiltTimeMax", "10"));
    proof {
        assert(rows@ =~= old(rows)@ + camera_rows());
    }
}

/// Rows `cameraBobbing` to `showLootSpam`.
pub open spec fn interface_rows() -> Seq<Registered> {
    seq![
        same_row("cameraBobbing", "0"),
        same_row("cameraBobbingLRAmplitude", "2"),
        same_row("cameraBobbingUDAmplitude", "2"),
        same_row("cameraBobbingFrequency", "0.8"),
        same_row("cameraBobbingSmoothSpeed", "0.8"),
        same_row("statusBarText", "0"),
        same_row("UberTooltips", "1"),
        same_row("ChatBubbles", "1"),
        same_row("ChatBubblesParty", "0"),
        same_row("profanityFilter", "1"),
        same_row("spamFilter", "1"),
        same_row("gameTip", "0"),
        same_row("showGameTips", "1"),
        same_row("showLootSpam", "1"),
    ]
}

fn push_interface(rows: &mut Vec<Registered>)
    ensures
        final(rows)@ == old(rows)@ + interface_rows(),
{
    rows.push(same("cameraBobbing", "0"));
    rows.push(same("cameraBobbingLRAmplitude", "2"));
    rows.push(same("cameraBobbingUDAmplitude", "2"));
    rows.push(same("cameraBobbingFrequency", "0.8"));
    rows.push(same("cameraBobbingSmoothSpeed", "0.8"));
    rows.push(same("statusBarText", "0"));
    rows.push(same("UberTooltips", "1"));
    rows.push(same("ChatBubbles", "1"));
    rows.push(same("ChatBubblesParty", "0"));
    rows.push(same("profanityFilter", "1"));
    rows.push(same("spamFilter", "1"));
    rows.push(same("gameTip", "0"));
    rows.push(same("showGameTips", "1"));
    rows.push(same("showLootSpam", "1"));
    proof {
        assert(rows@ =~= old(rows)@ + interface_rows());
    }
}

/// Rows `guildMemberNotify` to `shadowCasterReach`.
pub open spec fn shadow_rows() -> Seq<Registered> {
    seq![
        same_row("guildMemberNotify", "0"),
        same_row("minimapZoom", "3"),
        same_row("minimapInsideZoom", "3"),
        same_row("checkAddonVersion", "1"),
        deviates_row("gxApi", "", "direct3d", "it describes the live adapter, selects nothing and is never persisted"),
        same_row("gxVSync", "1"),
        same_row("worldShadows", "1"),
        same_row("characterShadows", "1"),
        ours_row("shadowDistance", "80", "the stock client bakes its shadows and has no cascade to size"),
        ours_row("shadowMapSize", "2048", "the edge of the directional shadow map in texels: 1024, 2048 or 4096"),
        ours_row("shadowFilter", "1", "the shadow kernel: 0 one hardware sample, 1 the nine-sample one"),
        ours_row("characterShadowRate", "30", "the cap on character caster rebuilds a second, 0 to 120, 0 for every frame"),
        ours_row("worldShadowRate", "30", "the cap on world caster rebuilds a second, 0 to 120, 0 for every frame"),
        ours_row("shadowCasterReach", "1", "a multiplier on how far casters are collected, 0.25 to 2"),
    ]
}

fn push_shadow(rows: &mut Vec<Registered>)
    ensures
        final(rows)@ == old(rows)@ + shadow_rows(),
{
    rows.push(same("guildMemberNotify", "0"));
    rows.push(same("minimapZoom", "3"));
    rows.push(same("minimapInsideZoom", "3"));
    rows.push(same("checkAddonVersion", "1"));
    rows.push(deviates("gxApi", "", "direct3d", "it describes the live adapter, selects nothing and is never persisted"));
    rows.push(same("gxVSync", "1"));
    rows.push(same("worldShadows", "1"));
    rows.push(same("characterShadows", "1"));
    rows.push(ours("shadowDistance", "80", "the stock client bakes its shadows and has no cascade to size"));
    rows.push(ours("shadowMapSize", "2048", "the edge of the directional shadow map in texels: 1024, 2048 or 4096"));
    rows.push(ours("shadowFilter", "1", "the shadow kernel: 0 one hardware sample, 1 the nine-sample one"));
    rows.push(ours("characterShadowRate", "30", "the cap on character caster rebuilds a second, 0 to 120, 0 for every frame"));
    rows.push(ours("worldShadowRate", "30", "the cap on world caster rebuilds a second, 0 to 120, 0 for every frame"));
    rows.push(ours("shadowCasterReach", "1", "a multiplier on how far casters are collected, 0.25 to 2"));
    proof {
        assert(rows@ =~= old(rows)@ + shadow_rows());
    }
}

/// Rows `interiorLight` to `interiorDebug`.
pub open spec fn interior_rows() -> Seq<Registered> {
    seq![
        ours_row("interiorLight", "1", "fixture-lit interiors; 0 is the baked path"),
        ours_row("interiorAmbient", "0.015", "the base ambient of interiors, 0 to 1"),
        ours_row("interiorFill", "0.08", "the bounce gain of each interior fixture, 0 to 2"),
        ours_row("interiorExposure", "2.5", "the interior light budget before the soft rolloff, 0.25 to 8"),
        ours_row("interiorAttenScale", "1.6", "the scale on the authored reach of interior fixtures, 0 to 8, 0 for no window"),
        ours_row("interiorRoomGate", "1", "an interior fixture lights only the rooms it claims"),
        ours_row("interiorShadows", "1", "the nearest interior fixtures cast shadows; needs interiorLight"),
        ours_row("exteriorShadows", "1", "outdoor fires cast shadows at night"),
        ours_row("interiorShadowCasters", "12", "how many interior fixture shadow maps are resident"),
        ours_row("interiorShadowDynamic", "4", "how many of the nearest fixtures shadow moving entities"),
        ours_row("interiorShadowEntityRate", "30", "how often a second moving casters are gathered again, 0 for every frame"),
        ours_row("interiorShadowSoft", "1.5", "the softness of fixture shadow edges at a contact, 0.5 to 3"),
        ours_row("torchShadowStrength", "0.7", "how much of the direct light a fixture shadow removes, 0 to 1"),
        ours_row("interiorDebug", "0", "the interior overlay: 1 classes, 2 shadow, 3 casters, 4 lanes"),
    ]
}

fn push_interior(rows: &mut Vec<Registered>)
    ensures
        final(rows)@ == old(rows)@ + interior_rows(),
{
    rows.push(ours("interiorLight", "1", "fixture-lit interiors; 0 is the baked path"));
    rows.push(ours("interiorAmbient", "0.015", "the base ambient of interiors, 0 to 1"));
    rows.push(ours("interiorFill", "0.08", "the bounce gain of each interior fixture, 0 to 2"));
    rows.push(ours("interiorExposure", "2.5", "the interior light budget before the soft rolloff, 0.25 to 8"));
    rows.push(ours("interiorAttenScale", "1.6", "the scale on the authored reach of interior fixtures, 0 to 8, 0 for no window"));
    rows.push(ours("interiorRoomGate", "1", "an interior fixture lights only the rooms it claims"));
    rows.push(ours("interiorShadows", "1", "the nearest interior fixtures cast shadows; needs interiorLight"));
    rows.push(ours("exteriorShadows", "1", "outdoor fires cast shadows at night"));
    rows.push(ours("interiorShadowCasters", "12", "how many interior fixture shadow maps are resident"));
    rows.push(ours("interiorShadowDynamic", "4", "how many of the nearest fixtures shadow moving entities"));
    rows.push(ours("interiorShadowEntityRate", "30", "how often a second moving casters are gathered again, 0 for every frame"));
    rows.push(ours("interiorShadowSoft", "1.5", "the softness of fixture shadow edges at a contact, 0.5 to 3"));
    rows.push(ours("torchShadowStrength", "0.7", "how much of the direct light a fixture shadow removes, 0 to 1"));
    rows.push(ours("interiorDebug", "0", "the interior overlay: 1 classes, 2 shadow, 3 casters, 4 lanes"));
    proof {
        assert(rows@ =~= old(rows)@ + interior_rows());
    }
}

/// Rows `nightGain` to `trilinear`.
pub open spec fn gains_and_window_rows() -> Seq<Registered> {
    seq![
        ours_row("nightGain", "0.45", "the brightness of exterior nights, 0.2 to 1.5"),
        ours_row("interiorGain", "0.5", "the brightness of interiors, 0.2 to 1.5"),
        ours_row("interiorDaylight", "0.0", "the daylight floor of rooms inside a building, 0 to 1"),
        ours_row("interiorBakeFloor", "0.12", "the share of baked light kept where no fixture reaches, 0 to 1"),
        ours_row("fireLightGain", "1", "the brightness of lights made from flame emitters, 0 for off"),
        ours_row("spellLightGain", "1", "the brightness of spell, missile and impact lights, 0 for off"),
        ours_row("fireFlicker", "1", "how strongly fire lights flicker: 0 steady, 1 usual, 2 pronounced"),
        same_row("gxWindow", "0"),
        deviates_row("gxResolution", "1600x900", "640x480", "only the windowed size; fullscreen is the monitor and no mode list is offered"),
        ours_row("boothHalfRate", "1", "the stock client draws its doll inside the main pass and has no second view to limit"),
        same_row("gxMultisample", "1"),
        deviates_row("gxColorBits", "32", "16", "it describes the swapchain and steers nothing"),
        deviates_row("gxDepthBits", "32", "16", "the depth half of the same pair"),
        overridden_row("trilinear", "1", "0", "hardware detection sets it to 1 before the first frame on every machine it does not know"),
    ]
}

fn push_gains_and_window(rows: &mut Vec<Registered>)
    ensures
        final(rows)@ == old(rows)@ + gains_and_window_rows(),
{
    rows.push(ours("nightGain", "0.45", "the brightness of exterior nights, 0.2 to 1.5"));
    rows.push(ours("interiorGain", "0.5", "the brightness of interiors, 0.2 to 1.5"));
    rows.push(ours("interiorDaylight", "0.0", "the daylight floor of rooms inside a building, 0 to 1"));
    rows.push(ours("interiorBakeFloor", "0.12", "the share of baked light kept where no fixture reaches, 0 to 1"));
    rows.push(ours("fireLightGain", "1", "the brightness of lights made from flame emitters, 0 for off"));
    rows.push(ours("spellLightGain", "1", "the brightness of spell, missile and impact lights, 0 for off"));
    rows.push(ours("fireFlicker", "1", "how strongly fire lights flicker: 0 steady, 1 usual, 2 pronounced"));
    rows.push(same("gxWindow", "0"));
    rows.push(deviates("gxResolution", "1600x900", "640x480", "only the windowed size; fullscreen is the monitor and no mode list is offered"));
    rows.push(ours("boothHalfRate", "1", "the stock client draws its doll inside the main pass and has no second view to limit"));
    rows.push(same("gxMultisample", "1"));
    rows.push(deviates("gxColorBits", "32", "16", "it describes the swapchain and steers nothing"));
    rows.push(deviates("gxDepthBits", "32", "16", "the depth half of the same pair"));
    rows.push(overridden("trilinear", "1", "0", "hardware detection sets it to 1 before the first frame on every machine it does not know"));
    proof {
        assert(rows@ =~= old(rows)@ + gains_and_window_rows());
    }
}

/// Rows `anisotropic` to `lastCharacterIndex`.
pub open spec fn sampling_rows() -> Seq<Registered> {
    seq![
        same_row("anisotropic", "1"),
        deviates_row("weatherDensity", "3", "2", "the precipitation rates were measured at 3, so that is where a comparison is fair"),
        same_row("gamma", "1.000000"),
        ours_row("renderScale", "1", "the stock client has no off-screen buffer to scale"),
        ours_row("fpsJournal", "0", "the stock client keeps no performance log"),
        same_row("lastCharacterIndex", "0"),
    ]
}

fn push_sampling(rows: &mut Vec<Registered>)
    ensures
        final(rows)@ == old(rows)@ + sampling_rows(),
{
    rows.push(same("anisotropic", "1"));
    rows.push(deviates("weatherDensity", "3", "2", "the precipitation rates were measured at 3, so that is where a comparison is fair"));
    rows.push(same("gamma", "1.000000"));
    rows.push(ours("renderScale", "1", "the stock client has no off-screen buffer to scale"));
    rows.push(ours("fpsJournal", "0", "the stock client keeps no performance log"));
    rows.push(same("lastCharacterIndex", "0"));
    proof {
        assert(rows@ =~= old(rows)@ + sampling_rows());
    }
}

/// The rows of the saved camera views.
pub open spec fn view_rows(site: SiteRows) -> Seq<Registered> {
    seq![same_row(site.active_view.0, site.active_view.1)] + site.saved_views@.map_values(
        |row: (&'static str, &'static str)| same_row(row.0, row.1),
    )
}

fn push_views(rows: &mut Vec<Registered>, site: &SiteRows)
    ensures
        final(rows)@ == old(rows)@ + view_rows(*site),
{
    rows.push(same(site.active_view.0, site.active_view.1));
    let mut i: usize = 0;
    while i < site.saved_views.len()
        invariant
            i <= site.saved_views@.len(),
            rows@ == old(rows)@ + view_rows(*site).take(i + 1),
        decreases site.saved_views@.len() - i,
    {
        let row = site.saved_views[i];
        rows.push(same(row.0, row.1));
        proof {
            assert(view_rows(*site).take(i + 2) =~= view_rows(*site).take(i + 1).push(view_rows(*site)[i + 1]));
            assert(rows@ =~= old(rows)@ + view_rows(*site).take(i + 2));
        }
        i = i + 1;
    }
    proof {
        assert(view_rows(*site).take(i + 1) =~= view_rows(*site));
    }
}

/// The whole table, in order.
pub open spec fn registered_rows(site: SiteRows) -> Seq<Registered> {
    account_and_sound_rows()
        + view_and_click_rows()
        + view_rows(site)
        + names_rows()
        + combat_rows(site)
        + camera_rows()
        + interface_rows()
        + shadow_rows()
        + interior_rows()
        + gains_and_window_rows()
        + sampling_rows()
}

/// The registered settings.
pub fn registered(site: &SiteRows) -> (r: Vec<Registered>)
    ensures
        r@ == registered_rows(*site),
{
    let mut rows: Vec<Registered> = Vec::new();
    push_account_and_sound(&mut rows);
    push_view_and_click(&mut rows);
    push_views(&mut rows, site);
    push_names(&mut rows);
    push_combat(&mut rows, site);
    push_camera(&mut rows);
    push_interface(&mut rows);
    push_shadow(&mut rows);
    push_interior(&mut rows);
    push_gains_and_window(&mut rows);
    push_sampling(&mut rows);
    proof {
        assert(rows@ =~= registered_rows(*site));
    }
    rows
}

/// The table as the script engine registers it: names and defaults, in table order.
pub fn registered_pairs(rows: &Vec<Registered>) -> (r: Vec<(&'static str, &'static str)>)
    ensures
        r@ == rows@.map_values(|row: Registered| (row.name, row.default)),
{
    let mut pairs: Vec<(&'static str, &'static str)> = Vec::new();
    let mut i: usize = 0;
    while i < rows.len()
        invariant
            i <= rows@.len(),
            pairs@ == rows@.take(i as int).map_values(|row: Registered| (row.name, row.default)),
        decreases rows@.len() - i,
    {
        pairs.push((rows[i].name, rows[i].default));
        proof {
            assert(pairs@ =~= rows@.take(i + 1).map_values(|row: Registered| (row.name, row.default)));
        }
        i = i + 1;
    }
    proof {
        assert(rows@.take(i as int) =~= rows@);
    }
    pairs
}

/// Some row of the table reads `key` once its name is lowercased.
pub open spec fn names_key(rows: Seq<Registered>, key: Seq<char>) -> bool {
    exists|i: int| 0 <= i < rows.len() && lower((#[trigger] rows[i]).name@) == key
}

/// Whether a lowercased key is a registered setting's.
pub fn is_registered(rows: &Vec<Registered>, key: &str) -> (r: bool)
    ensures
        r == names_key(rows@, key@),
{
    let mut i: usize = 0;
    while i < rows.len()
        invariant
            i <= rows@.len(),
            forall|j: int| 0 <= j < i ==> lower((#[trigger] rows@[j]).name@) != key@,
        decreases rows@.len() - i,
    {
        let name = rows[i].name.to_ascii_lowercase();
        if same_text(name.as_str(), key) {
            return true;
        }
        i = i + 1;
    }
    false
}

/// No two rows name one setting up to case.
pub open spec fn names_distinct(rows: Seq<Registered>) -> bool {
    forall|i: int, j: int| 0 <= i < j < rows.len() ==> lower((#[trigger] rows[i]).name@) != lower((#[trigger] rows[j]).name@)
}

/// Whether no setting is registered twice.
pub fn has_distinct_names(rows: &Vec<Registered>) -> (r: bool)
    ensures
        r == names_distinct(rows@),
{
    let mut i: usize = 0;
    while i < rows.len()
        invariant
            i <= rows@.len(),
            forall|a: int, b: int| 0 <= a < b < rows@.len() && a < i ==> lower((#[trigger] rows@[a]).name@) != lower((#[trigger] rows@[b]).name@),
        decreases rows@.len() - i,
    {
        let mut j: usize = i + 1;
        while j < rows.len()
            invariant
                i < rows@.len(),
                i + 1 <= j <= rows@.len(),
                forall|a: int, b: int| 0 <= a < b < rows@.len() && a < i ==> lower((#[trigger] rows@[a]).name@) != lower((#[trigger] rows@[b]).name@),
                forall|b: int| i < b < j ==> lower(rows@[i as int].name@) != lower((#[trigger] rows@[b]).name@),
            decreases rows@.len() - j,
        {
            if rows[i].name.eq_ignore_ascii_case(rows[j].name) {
                return false;
            }
            j = j + 1;
        }
        i = i + 1;
    }
    true
}

} // verus!
